//! The guard logic of the filesystem and HTTP adapters: sandboxed path
//! resolution, parameter extraction, size limits and allowlists. The file and
//! network operations themselves run outside this library, on the plans and
//! limits decided here.

use vstd::prelude::*;
use crate::gateway::{AdapterError, joined};
use crate::ids::TenantId;
use crate::json::{Json, json_get, json_str, entries_get};
use crate::escalation::json_u64;
use crate::textual::{uuid_string, u64_text, decimal_text, uuid_text};
use crate::verification::strs;

verus! {

pub const READ_ACTION: &'static str = "read_file";
pub const WRITE_ACTION: &'static str = "write_file";
pub const LIST_ACTION: &'static str = "list_dir";
pub const STAT_ACTION: &'static str = "stat";

/// Limits and sandbox base of the filesystem adapter.
#[derive(Clone, Debug)]
pub struct FilesystemAdapterConfig {
    pub base_dir: String,
    pub max_read_bytes: u64,
    pub max_write_bytes: u64,
    pub max_list_entries: usize,
}

impl FilesystemAdapterConfig {
    /// `splendor-data`, 1 MiB reads and writes, 256 listed entries.
    pub fn standard() -> (r: FilesystemAdapterConfig)
        ensures
            r.base_dir@ == "splendor-data"@,
            r.max_read_bytes == 1048576,
            r.max_write_bytes == 1048576,
            r.max_list_entries == 256,
    {
        FilesystemAdapterConfig { base_dir: String::from_str("splendor-data"), max_read_bytes: 1048576, max_write_bytes: 1048576, max_list_entries: 256 }
    }
}

/// The filesystem adapter's guard.
#[derive(Clone, Debug)]
pub struct FilesystemAdapter {
    config: FilesystemAdapterConfig,
}

pub open spec fn failed(r: AdapterError) -> Seq<char> {
    match r {
        AdapterError::Failed(m) => m@,
    }
}

/// The segments of a path text split at `/`.
pub open spec fn split_path(s: Seq<char>) -> Seq<Seq<char>>
    decreases s.len(),
{
    if s.len() == 0 {
        seq![seq![]]
    } else {
        let p = split_path(s.drop_last());
        if s.last() == '/' {
            p.push(seq![])
        } else {
            p.update(p.len() - 1, p.last().push(s.last()))
        }
    }
}

proof fn lemma_split_nonempty(s: Seq<char>)
    ensures
        split_path(s).len() >= 1,
    decreases s.len(),
{
    if s.len() > 0 {
        lemma_split_nonempty(s.drop_last());
    }
}

/// The segments that name something: neither empty nor `.`.
pub open spec fn named_segments(parts: Seq<Seq<char>>) -> Seq<Seq<char>>
    decreases parts.len(),
{
    if parts.len() == 0 {
        seq![]
    } else {
        let rest = named_segments(parts.drop_last());
        if parts.last().len() == 0 || parts.last() == seq!['.'] { rest } else { rest.push(parts.last()) }
    }
}

/// `base` joined with `rest` the way paths join: a separator goes between
/// them unless `base` is empty or already ends with one.
pub open spec fn join_path(base: Seq<char>, rest: Seq<char>) -> Seq<char> {
    if base.len() > 0 && base.last() != '/' { base + seq!['/'] + rest } else { base + rest }
}

/// Where a relative path inside the sandbox `root` leads: absolute paths and
/// any `..` segment are refused; empty and `.` segments are dropped.
pub open spec fn resolved(root: Seq<char>, raw: Seq<char>) -> Result<Seq<char>, Seq<char>> {
    if raw.len() > 0 && raw[0] == '/' {
        Err("absolute paths are not allowed"@)
    } else if split_path(raw).contains(seq!['.', '.']) {
        Err("path traversal outside sandbox is not allowed"@)
    } else {
        Ok(join_path(root, joined(named_segments(split_path(raw)), "/"@)))
    }
}

pub open spec fn result_view(r: Result<String, AdapterError>) -> Result<Seq<char>, Seq<char>> {
    match r {
        Ok(s) => Ok(s@),
        Err(e) => Err(failed(e)),
    }
}

fn join_path_exec(base: &str, rest: &str) -> (r: String)
    ensures
        r@ == join_path(base@, rest@),
{
    let n = base.unicode_len();
    proof { reveal_strlit("/"); }
    if n > 0 && base.get_char(n - 1) != '/' {
        String::from_str(base).concat("/").concat(rest)
    } else {
        String::from_str(base).concat(rest)
    }
}

/// The segments of `raw`, split at `/`, as views.
fn split_segments(raw: &str) -> (r: Vec<String>)
    ensures
        strs(r@) == split_path(raw@),
{
    let n = raw.unicode_len();
    let mut parts: Vec<String> = Vec::new();
    let mut start: usize = 0;
    let mut i: usize = 0;
    proof {
        assert(raw@.take(0) =~= Seq::<char>::empty());
        assert(raw@.subrange(0, 0) =~= Seq::<char>::empty());
        assert(strs(parts@).push(raw@.subrange(0, 0)) =~= seq![seq![]]);
    }
    while i < n
        invariant
            n == raw@.len(),
            start <= i <= n,
            strs(parts@).push(raw@.subrange(start as int, i as int)) == split_path(raw@.take(i as int)),
        decreases n - i,
    {
        let ghost pre = raw@.take(i as int + 1);
        assert(pre.drop_last() =~= raw@.take(i as int));
        assert(pre.last() == raw@[i as int]);
        if raw.get_char(i) == '/' {
            let seg = String::from_str(raw.substring_char(start, i));
            let ghost old_parts = strs(parts@);
            parts.push(seg);
            proof {
                assert(strs(parts@) =~= old_parts.push(raw@.subrange(start as int, i as int)));
                assert(raw@.subrange(i as int + 1, i as int + 1) =~= Seq::<char>::empty());
            }
            start = i + 1;
        } else {
            proof {
                assert(raw@.subrange(start as int, i as int).push(raw@[i as int]) =~= raw@.subrange(start as int, i as int + 1));
            }
        }
        i = i + 1;
    }
    let last = String::from_str(raw.substring_char(start, n));
    let ghost old_parts = strs(parts@);
    parts.push(last);
    proof {
        assert(strs(parts@) =~= old_parts.push(raw@.subrange(start as int, n as int)));
        assert(raw@.take(n as int) =~= raw@);
    }
    parts
}

fn is_dot(s: &String) -> (r: bool)
    ensures
        r == (s@ == seq!['.']),
{
    let t = s.as_str();
    let n = t.unicode_len();
    if n != 1 {
        proof { if s@ == seq!['.'] { assert(s@.len() == 1); } }
        return false;
    }
    let c = t.get_char(0);
    proof { if c == '.' { assert(s@ =~= seq!['.']); } }
    c == '.'
}

fn is_dot_dot(s: &String) -> (r: bool)
    ensures
        r == (s@ == seq!['.', '.']),
{
    let t = s.as_str();
    let n = t.unicode_len();
    if n != 2 {
        proof { if s@ == seq!['.', '.'] { assert(s@.len() == 2); } }
        return false;
    }
    let a = t.get_char(0);
    let b = t.get_char(1);
    proof { if a == '.' && b == '.' { assert(s@ =~= seq!['.', '.']); } }
    a == '.' && b == '.'
}

impl FilesystemAdapter {
    pub closed spec fn settings(&self) -> FilesystemAdapterConfig {
        self.config
    }

    pub fn new(config: FilesystemAdapterConfig) -> (r: FilesystemAdapter)
        ensures
            r.settings() == config,
    {
        FilesystemAdapter { config }
    }

    pub fn config(&self) -> (r: &FilesystemAdapterConfig)
        ensures
            *r == self.settings(),
    {
        &self.config
    }

    /// The sandbox directory of a tenant: the base directory joined with the
    /// tenant's identifier.
    pub fn tenant_root(&self, tenant_id: &TenantId) -> (r: String)
        ensures
            r@ == join_path(self.settings().base_dir@, uuid_text(tenant_id.value)),
    {
        join_path_exec(self.config.base_dir.as_str(), uuid_string(tenant_id.value).as_str())
    }

    /// Resolves `raw` inside the sandbox `root`.
    pub fn resolve_path(&self, root: &String, raw: &String) -> (r: Result<String, AdapterError>)
        ensures
            result_view(r) == resolved(root@, raw@),
    {
        let t = raw.as_str();
        if t.unicode_len() > 0 && t.get_char(0) == '/' {
            return Err(AdapterError::Failed(String::from_str("absolute paths are not allowed")));
        }
        let parts = split_segments(t);
        let mut named: Vec<String> = Vec::new();
        let mut i: usize = 0;
        while i < parts.len()
            invariant
                i <= parts@.len(),
                strs(parts@) == split_path(raw@),
                !(raw@.len() > 0 && raw@[0] == '/'),
                strs(named@) == named_segments(strs(parts@).take(i as int)),
                forall|k: int| 0 <= k < i ==> strs(parts@)[k] != seq!['.', '.'],
            decreases parts@.len() - i,
        {
            let ghost pre = strs(parts@).take(i as int + 1);
            assert(pre.drop_last() =~= strs(parts@).take(i as int));
            assert(pre.last() == parts@[i as int]@);
            if is_dot_dot(&parts[i]) {
                assert(strs(parts@)[i as int] == seq!['.', '.']);
                assert(split_path(raw@)[i as int] == seq!['.', '.']);
                assert(split_path(raw@).contains(seq!['.', '.']));
                return Err(AdapterError::Failed(String::from_str("path traversal outside sandbox is not allowed")));
            }
            if parts[i].as_str().unicode_len() > 0 && !is_dot(&parts[i]) {
                let ghost before = strs(named@);
                named.push(parts[i].clone());
                assert(strs(named@) =~= before.push(parts@[i as int]@));
            }
            i = i + 1;
        }
        proof {
            assert(strs(parts@).take(parts@.len() as int) =~= strs(parts@));
            assert(!strs(parts@).contains(seq!['.', '.']));
        }
        let clean = crate::gateway::join_strings(&named, "/");
        Ok(join_path_exec(root.as_str(), clean.as_str()))
    }
}

/// The bytes an array of JSON integers stands for: every item must be a
/// non-negative integer at most 255; the first item that is not decides the
/// error.
pub open spec fn bytes_from(items: Seq<Json>) -> Result<Seq<u8>, Seq<char>>
    decreases items.len(),
{
    if items.len() == 0 {
        Ok(seq![])
    } else {
        match json_u64(items[0]) {
            None => Err("bytes must be integers"@),
            Some(n) => if n > 255 {
                Err("byte value out of range"@)
            } else {
                match bytes_from(items.drop_first()) {
                    Ok(rest) => Ok(seq![n as u8] + rest),
                    Err(e) => Err(e),
                }
            },
        }
    }
}

proof fn lemma_bytes_from_prefix(items: Seq<Json>, i: int, prefix: Seq<u8>)
    requires
        0 <= i <= items.len(),
        prefix.len() == i,
        forall|k: int| 0 <= k < i ==> (json_u64(#[trigger] items[k]) matches Some(n) && n <= 255 && prefix[k] == n as u8),
    ensures
        bytes_from(items) == match bytes_from(items.subrange(i, items.len() as int)) {
            Ok(rest) => Ok::<Seq<u8>, Seq<char>>(prefix + rest),
            Err(e) => Err(e),
        },
    decreases i,
{
    if i == 0 {
        assert(items.subrange(0, items.len() as int) =~= items);
        assert(prefix =~= seq![]);
        match bytes_from(items) {
            Ok(rest) => { assert(prefix + rest =~= rest); },
            Err(_) => {},
        }
    } else {
        let t = items.drop_first();
        assert(t.subrange(i - 1, t.len() as int) =~= items.subrange(i, items.len() as int));
        lemma_bytes_from_prefix(t, i - 1, prefix.drop_first());
        match bytes_from(items.subrange(i, items.len() as int)) {
            Ok(rest) => { assert(seq![prefix[0]] + (prefix.drop_first() + rest) =~= prefix + rest); },
            Err(_) => {},
        }
    }
}

pub open spec fn bytes_view(r: Result<Vec<u8>, AdapterError>) -> Result<Seq<u8>, Seq<char>> {
    match r {
        Ok(v) => Ok(v@),
        Err(e) => Err(failed(e)),
    }
}

fn bytes_from_array(items: &Vec<Json>) -> (r: Result<Vec<u8>, AdapterError>)
    ensures
        bytes_view(r) == bytes_from(items@),
{
    let mut out: Vec<u8> = Vec::new();
    let mut i: usize = 0;
    while i < items.len()
        invariant
            i <= items@.len(),
            out@.len() == i,
            forall|k: int| 0 <= k < i ==> (json_u64(#[trigger] items@[k]) matches Some(n) && n <= 255 && out@[k] == n as u8),
        decreases items@.len() - i,
    {
        match items[i].as_u64() {
            None => {
                proof {
                    lemma_bytes_from_prefix(items@, i as int, out@);
                    assert(items@.subrange(i as int, items@.len() as int)[0] == items@[i as int]);
                }
                return Err(AdapterError::Failed(String::from_str("bytes must be integers")));
            },
            Some(n) => {
                if n > 255 {
                    proof {
                        lemma_bytes_from_prefix(items@, i as int, out@);
                        assert(items@.subrange(i as int, items@.len() as int)[0] == items@[i as int]);
                    }
                    return Err(AdapterError::Failed(String::from_str("byte value out of range")));
                }
                out.push(n as u8);
            },
        }
        i = i + 1;
    }
    proof {
        lemma_bytes_from_prefix(items@, items@.len() as int, out@);
        assert(items@.subrange(items@.len() as int, items@.len() as int) =~= Seq::<Json>::empty());
        assert(out@ + Seq::<u8>::empty() =~= out@);
    }
    Ok(out)
}

/// The text under `key` of an object.
pub open spec fn param_text(params: Json, key: Seq<char>) -> Option<Seq<char>> {
    match json_get(params, key) {
        Some(v) => json_str(v),
        None => None,
    }
}

/// Reads a text parameter; a missing or non-text value is an error naming the key.
pub fn param_string(params: &Json, key: &str) -> (r: Result<String, AdapterError>)
    ensures
        result_view(r) == match param_text(*params, key@) {
            Some(t) => Ok::<Seq<char>, Seq<char>>(t),
            None => Err("missing or invalid "@ + key@),
        },
{
    let k = String::from_str(key);
    match params.get(&k) {
        Some(Json::Str(t)) => Ok(t.clone()),
        _ => Err(AdapterError::Failed(String::from_str("missing or invalid ").concat(key))),
    }
}

/// The bytes to write: a `bytes` array of byte values, else the UTF-8
/// encoding of a `contents` text.
pub open spec fn write_bytes_spec(params: Json) -> Result<Seq<u8>, Seq<char>> {
    match json_get(params, "bytes"@) {
        Some(b) => match b {
            Json::Array(items) => bytes_from(items@),
            _ => Err("bytes must be an array"@),
        },
        None => match json_get(params, "contents"@) {
            Some(c) => match json_str(c) {
                Some(t) => Ok(vstd::utf8::encode_utf8(t)),
                None => Err("contents must be a string"@),
            },
            None => Err("missing contents or bytes parameter"@),
        },
    }
}

pub fn param_bytes(params: &Json) -> (r: Result<Vec<u8>, AdapterError>)
    ensures
        bytes_view(r) == write_bytes_spec(*params),
{
    let bytes_key = String::from_str("bytes");
    let contents_key = String::from_str("contents");
    proof {
        reveal_strlit("bytes");
        reveal_strlit("contents");
    }
    match params.get(&bytes_key) {
        Some(b) => match b {
            Json::Array(items) => bytes_from_array(items),
            _ => Err(AdapterError::Failed(String::from_str("bytes must be an array"))),
        },
        None => match params.get(&contents_key) {
            Some(Json::Str(t)) => Ok(t.as_str().as_bytes_vec()),
            Some(_) => Err(AdapterError::Failed(String::from_str("contents must be a string"))),
            None => Err(AdapterError::Failed(String::from_str("missing contents or bytes parameter"))),
        },
    }
}

/// A filesystem operation inside a tenant's sandbox.
#[derive(Debug)]
pub enum FsOperation {
    Read { path: String },
    Write { path: String, bytes: Vec<u8> },
    List { path: String },
    Stat { path: String },
}

impl FilesystemAdapter {
    /// Decides the operation for an action inside the sandbox `root`.
    pub fn plan(&self, action_name: &String, params: &Json, root: &String) -> (r: Result<FsOperation, AdapterError>)
        ensures
            !(params is Object) ==> (r matches Err(AdapterError::Failed(m)) && m@ == "params must be an object"@),
            r matches Ok(FsOperation::Read { path }) ==> action_name@ == READ_ACTION@
                && param_text(*params, "path"@) is Some && resolved(root@, param_text(*params, "path"@).unwrap()) == Ok::<Seq<char>, Seq<char>>(path@),
            r matches Ok(FsOperation::Write { path, bytes }) ==> action_name@ == WRITE_ACTION@
                && param_text(*params, "path"@) is Some && resolved(root@, param_text(*params, "path"@).unwrap()) == Ok::<Seq<char>, Seq<char>>(path@)
                && write_bytes_spec(*params) == Ok::<Seq<u8>, Seq<char>>(bytes@),
            r matches Ok(FsOperation::List { path }) ==> action_name@ == LIST_ACTION@
                && resolved(root@, match param_text(*params, "path"@) { Some(t) => t, None => "."@ }) == Ok::<Seq<char>, Seq<char>>(path@),
            r matches Ok(FsOperation::Stat { path }) ==> action_name@ == STAT_ACTION@
                && param_text(*params, "path"@) is Some && resolved(root@, param_text(*params, "path"@).unwrap()) == Ok::<Seq<char>, Seq<char>>(path@),
            params is Object && action_name@ != READ_ACTION@ && action_name@ != WRITE_ACTION@
                && action_name@ != LIST_ACTION@ && action_name@ != STAT_ACTION@
                ==> (r matches Err(AdapterError::Failed(m)) && m@ == "unsupported filesystem action "@ + action_name@),
    {
        if !params.is_object() {
            return Err(AdapterError::Failed(String::from_str("params must be an object")));
        }
        let read = String::from_str(READ_ACTION);
        let write = String::from_str(WRITE_ACTION);
        let list = String::from_str(LIST_ACTION);
        let stat = String::from_str(STAT_ACTION);
        proof { reveal_strlit("path"); }
        if *action_name == read {
            let raw = param_string(params, "path")?;
            let path = self.resolve_path(root, &raw)?;
            Ok(FsOperation::Read { path })
        } else if *action_name == write {
            let raw = param_string(params, "path")?;
            let path = self.resolve_path(root, &raw)?;
            let bytes = param_bytes(params)?;
            Ok(FsOperation::Write { path, bytes })
        } else if *action_name == list {
            let key = String::from_str("path");
            let raw = match params.get(&key) {
                Some(Json::Str(t)) => t.clone(),
                _ => String::from_str("."),
            };
            let path = self.resolve_path(root, &raw)?;
            Ok(FsOperation::List { path })
        } else if *action_name == stat {
            let raw = param_string(params, "path")?;
            let path = self.resolve_path(root, &raw)?;
            Ok(FsOperation::Stat { path })
        } else {
            Err(AdapterError::Failed(String::from_str("unsupported filesystem action ").concat(action_name.as_str())))
        }
    }

    /// A read of `size` bytes must fit the read limit.
    pub fn check_read_size(&self, size: u64) -> (r: Result<(), AdapterError>)
        ensures
            r is Ok <==> size <= self.settings().max_read_bytes,
            r matches Err(AdapterError::Failed(m)) ==> m@ == "read size "@ + decimal_text(size) + " exceeds limit "@ + decimal_text(self.settings().max_read_bytes),
    {
        if size > self.config.max_read_bytes {
            return Err(AdapterError::Failed(String::from_str("read size ").concat(u64_text(size).as_str())
                .concat(" exceeds limit ").concat(u64_text(self.config.max_read_bytes).as_str())));
        }
        Ok(())
    }

    /// A write of `size` bytes must fit the write limit.
    pub fn check_write_size(&self, size: u64) -> (r: Result<(), AdapterError>)
        ensures
            r is Ok <==> size <= self.settings().max_write_bytes,
            r matches Err(AdapterError::Failed(m)) ==> m@ == "write size "@ + decimal_text(size) + " exceeds limit "@ + decimal_text(self.settings().max_write_bytes),
    {
        if size > self.config.max_write_bytes {
            return Err(AdapterError::Failed(String::from_str("write size ").concat(u64_text(size).as_str())
                .concat(" exceeds limit ").concat(u64_text(self.config.max_write_bytes).as_str())));
        }
        Ok(())
    }

    /// Listing stops, marked truncated, once this many entries are listed.
    pub fn listing_full(&self, listed: usize) -> (r: bool)
        ensures
            r == (listed >= self.settings().max_list_entries),
    {
        listed >= self.config.max_list_entries
    }
}

/// HTTP methods the adapter can use.
#[derive(Clone, Copy, Debug, PartialEq, Eq, Structural)]
pub enum HttpMethod {
    Get,
    Post,
}

impl HttpMethod {
    pub fn as_str(self) -> (r: &'static str)
        ensures
            self is Get ==> r@ == "GET"@,
            self is Post ==> r@ == "POST"@,
    {
        match self {
            HttpMethod::Get => "GET",
            HttpMethod::Post => "POST",
        }
    }
}

pub const GET_ACTION: &'static str = "http_get";
pub const POST_ACTION: &'static str = "http_post";

/// Allowlists and limits of the HTTP adapter.
#[derive(Clone, Debug)]
pub struct HttpAdapterConfig {
    pub allowed_domains: Vec<String>,
    pub tenant_domains: Vec<(TenantId, Vec<String>)>,
    pub allowed_methods: Vec<HttpMethod>,
    pub timeout_ms: u64,
    pub max_response_bytes: usize,
    pub max_request_bytes: usize,
    pub user_agent: String,
}

impl HttpAdapterConfig {
    /// No allowed domains, GET and POST, 5 s timeout, 512 KiB responses,
    /// 256 KiB requests.
    pub fn standard() -> (r: HttpAdapterConfig)
        ensures
            r.allowed_domains@.len() == 0,
            r.tenant_domains@.len() == 0,
            r.allowed_methods@ == seq![HttpMethod::Get, HttpMethod::Post],
            r.timeout_ms == 5000,
            r.max_response_bytes == 524288,
            r.max_request_bytes == 262144,
            r.user_agent@ == "splendor-http-adapter/0.1"@,
    {
        let mut methods: Vec<HttpMethod> = Vec::new();
        methods.push(HttpMethod::Get);
        methods.push(HttpMethod::Post);
        HttpAdapterConfig {
            allowed_domains: Vec::new(),
            tenant_domains: Vec::new(),
            allowed_methods: methods,
            timeout_ms: 5000,
            max_response_bytes: 524288,
            max_request_bytes: 262144,
            user_agent: String::from_str("splendor-http-adapter/0.1"),
        }
    }
}

/// The domain allowlist that applies to a tenant: its own list when it has
/// one (the last given), else the shared list.
pub open spec fn tenant_allowlist(config: HttpAdapterConfig, tenant: TenantId) -> Seq<Seq<char>> {
    match crate::assoc::assoc_get(config.tenant_domains@, tenant) {
        Some(v) => strs(v@),
        None => strs(config.allowed_domains@),
    }
}

/// `s` ends with `suffix`.
pub open spec fn ends_with(s: Seq<char>, suffix: Seq<char>) -> bool {
    suffix.len() <= s.len() && s.subrange(s.len() - suffix.len(), s.len() as int) == suffix
}

/// An allowlist entry admits a host: `*.d` admits hosts ending in `.d`, an
/// entry starting with `.` admits hosts ending in it, any other entry admits
/// exactly that host.
pub open spec fn entry_admits(entry: Seq<char>, host: Seq<char>) -> bool {
    if entry.len() >= 2 && entry[0] == '*' && entry[1] == '.' {
        ends_with(host, entry.drop_first())
    } else if entry.len() >= 1 && entry[0] == '.' {
        ends_with(host, entry)
    } else {
        host == entry
    }
}

pub open spec fn domain_admitted(list: Seq<Seq<char>>, host: Seq<char>) -> bool {
    list.len() > 0 && exists|i: int| 0 <= i < list.len() && entry_admits(#[trigger] list[i], host)
}

fn ends_with_exec(s: &str, suffix: &str) -> (r: bool)
    ensures
        r == ends_with(s@, suffix@),
{
    let n = s.unicode_len();
    let m = suffix.unicode_len();
    if m > n {
        return false;
    }
    let mut j: usize = 0;
    while j < m
        invariant
            n == s@.len(),
            m == suffix@.len(),
            m <= n,
            j <= m,
            forall|k: int| 0 <= k < j ==> s@[n - m + k] == suffix@[k],
        decreases m - j,
    {
        if s.get_char(n - m + j) != suffix.get_char(j) {
            assert(s@.subrange(n - m, n as int)[j as int] != suffix@[j as int]);
            return false;
        }
        j = j + 1;
    }
    assert(s@.subrange(n - m, n as int) =~= suffix@);
    true
}

fn entry_admits_exec(entry: &String, host: &String) -> (r: bool)
    ensures
        r == entry_admits(entry@, host@),
{
    let e = entry.as_str();
    let n = e.unicode_len();
    if n >= 2 && e.get_char(0) == '*' && e.get_char(1) == '.' {
        let rest = e.substring_char(1, n);
        assert(rest@ =~= entry@.drop_first());
        ends_with_exec(host.as_str(), rest)
    } else if n >= 1 && e.get_char(0) == '.' {
        ends_with_exec(host.as_str(), e)
    } else {
        *host == *entry
    }
}

/// The HTTP adapter's guard.
#[derive(Clone, Debug)]
pub struct HttpAdapter {
    config: HttpAdapterConfig,
}

impl HttpAdapter {
    pub closed spec fn settings(&self) -> HttpAdapterConfig {
        self.config
    }

    pub fn new(config: HttpAdapterConfig) -> (r: HttpAdapter)
        ensures
            r.settings() == config,
    {
        HttpAdapter { config }
    }

    pub fn config(&self) -> (r: &HttpAdapterConfig)
        ensures
            *r == self.settings(),
    {
        &self.config
    }

    /// The method an action name asks for.
    pub fn method_for_action(&self, action_name: &String) -> (r: Result<HttpMethod, AdapterError>)
        ensures
            action_name@ == GET_ACTION@ ==> r == Ok::<HttpMethod, AdapterError>(HttpMethod::Get),
            action_name@ == POST_ACTION@ ==> r == Ok::<HttpMethod, AdapterError>(HttpMethod::Post),
            action_name@ != GET_ACTION@ && action_name@ != POST_ACTION@
                ==> (r matches Err(AdapterError::Failed(m)) && m@ == "unsupported http action "@ + action_name@),
    {
        let get = String::from_str(GET_ACTION);
        let post = String::from_str(POST_ACTION);
        proof {
            reveal_strlit("http_get");
            reveal_strlit("http_post");
            assert(GET_ACTION@ != POST_ACTION@) by {
                assert(GET_ACTION@[5] != POST_ACTION@[5]);
            }
        }
        if *action_name == get {
            Ok(HttpMethod::Get)
        } else if *action_name == post {
            Ok(HttpMethod::Post)
        } else {
            Err(AdapterError::Failed(String::from_str("unsupported http action ").concat(action_name.as_str())))
        }
    }

    /// The allowlist that applies to `tenant_id`.
    pub fn allowed_domains(&self, tenant_id: &TenantId) -> (r: &Vec<String>)
        ensures
            strs(r@) == tenant_allowlist(self.settings(), *tenant_id),
    {
        let mut i: usize = self.config.tenant_domains.len();
        while i > 0
            invariant
                i <= self.config.tenant_domains@.len(),
                forall|j: int| i <= j < self.config.tenant_domains@.len() ==> #[trigger] self.config.tenant_domains@[j].0 != *tenant_id,
            decreases i,
        {
            i = i - 1;
            if self.config.tenant_domains[i].0 == *tenant_id {
                proof { crate::assoc::lemma_assoc_last(self.config.tenant_domains@, *tenant_id, i as int); }
                return &self.config.tenant_domains[i].1;
            }
        }
        proof { crate::assoc::lemma_assoc_absent(self.config.tenant_domains@, *tenant_id); }
        &self.config.allowed_domains
    }

    /// Whether `host` is allowlisted for `tenant_id`; an empty allowlist
    /// admits nothing.
    pub fn domain_allowed(&self, tenant_id: &TenantId, host: &String) -> (r: bool)
        ensures
            r == domain_admitted(tenant_allowlist(self.settings(), *tenant_id), host@),
    {
        let list = self.allowed_domains(tenant_id);
        if list.len() == 0 {
            return false;
        }
        let mut i: usize = 0;
        while i < list.len()
            invariant
                i <= list@.len(),
                strs(list@) == tenant_allowlist(self.settings(), *tenant_id),
                forall|k: int| 0 <= k < i ==> !entry_admits(#[trigger] strs(list@)[k], host@),
            decreases list@.len() - i,
        {
            if entry_admits_exec(&list[i], host) {
                assert(entry_admits(strs(list@)[i as int], host@));
                return true;
            }
            i = i + 1;
        }
        false
    }

    pub fn method_allowed(&self, method: HttpMethod) -> (r: bool)
        ensures
            r == self.settings().allowed_methods@.contains(method),
    {
        let mut i: usize = 0;
        while i < self.config.allowed_methods.len()
            invariant
                i <= self.config.allowed_methods@.len(),
                forall|k: int| 0 <= k < i ==> self.config.allowed_methods@[k] != method,
            decreases self.config.allowed_methods@.len() - i,
        {
            if self.config.allowed_methods[i] == method {
                assert(self.config.allowed_methods@[i as int] == method);
                return true;
            }
            i = i + 1;
        }
        false
    }
}

/// What `url::Url::parse` makes of a text: the URL's serialization and its
/// host, or the parse error's description.
pub uninterp spec fn url_parse(text: Seq<char>) -> Result<(Seq<char>, Option<Seq<char>>), Seq<char>>;

pub open spec fn url_view(r: Result<(String, Option<String>), String>) -> Result<(Seq<char>, Option<Seq<char>>), Seq<char>> {
    match r {
        Ok((u, h)) => Ok((u@, match h { Some(x) => Some(x@), None => None })),
        Err(e) => Err(e@),
    }
}

/// Parses a URL with `url::Url::parse` and reads its serialization
/// (`Url::as_str`) and host (`Url::host_str`), or the error's `Display`
/// text. The outcome is a function of the text alone.
#[verifier::external_body]
fn parse_url(text: &String) -> (r: Result<(String, Option<String>), String>)
    ensures
        url_view(r) == url_parse(text@),
{
    match url::Url::parse(text.as_str()) {
        Ok(u) => Ok((u.as_str().to_string(), u.host_str().map(|h| h.to_string()))),
        Err(e) => Err(e.to_string()),
    }
}

/// An ASCII decimal digit.
pub open spec fn decimal_digit(c: char) -> bool {
    '0' <= c && c <= '9'
}

/// The value of a run of decimal digits, most significant first.
pub open spec fn digits_value(d: Seq<char>) -> nat
    decreases d.len(),
{
    if d.len() == 0 { 0 } else { digits_value(d.drop_last()) * 10 + ((d.last() as nat) - 48) as nat }
}

/// The digits of an unsigned number's text: the text after one optional
/// leading `+`.
pub open spec fn unsigned_digits(text: Seq<char>) -> Seq<char> {
    if text.len() > 0 && text[0] == '+' { text.drop_first() } else { text }
}

/// What `str::parse::<usize>` makes of a text: an optional `+` and then one
/// or more decimal digits whose value fits a `usize`; anything else (a sign
/// alone, a minus sign, white space, another character, an overflow) is
/// refused.
pub open spec fn usize_parse(text: Seq<char>) -> Option<usize> {
    let d = unsigned_digits(text);
    if d.len() == 0 || exists|i: int| 0 <= i < d.len() && !decimal_digit(#[trigger] d[i]) {
        None
    } else if digits_value(d) > usize::MAX {
        None
    } else {
        Some(digits_value(d) as usize)
    }
}

/// Parses an unsigned decimal number as `str::parse::<usize>` does.
fn parse_usize(text: &String) -> (r: Option<usize>)
    ensures
        r == usize_parse(text@),
{
    let n = text.unicode_len();
    let start: usize = if n > 0 && text.get_char(0) == '+' { 1 } else { 0 };
    let ghost d = unsigned_digits(text@);
    proof { assert(d =~= text@.subrange(start as int, n as int)); }
    if start == n {
        return None;
    }
    let mut value: usize = 0;
    let mut i: usize = start;
    let mut overflow = false;
    while i < n
        invariant
            start <= i <= n,
            n == text@.len(),
            start < n,
            d == text@.subrange(start as int, n as int),
            d == unsigned_digits(text@),
            forall|k: int| 0 <= k < i - start ==> decimal_digit(#[trigger] d[k]),
            !overflow ==> value == digits_value(d.take(i - start)),
            overflow ==> digits_value(d.take(i - start)) > usize::MAX,
        decreases n - i,
    {
        let c = text.get_char(i);
        proof { assert(d[i - start] == c); }
        if !('0' <= c && c <= '9') {
            proof {
                let k: int = i - start;
                assert(0 <= k < d.len());
                assert(!decimal_digit(d[k]));
                assert(d == unsigned_digits(text@));
                assert(exists|q: int| 0 <= q < d.len() && !decimal_digit(#[trigger] d[q]));
            }
            return None;
        }
        let digit: usize = (c as u32 - 48) as usize;
        proof {
            let t = d.take(i - start + 1);
            assert(t.drop_last() =~= d.take(i - start));
            assert(t.last() == c);
            assert(digits_value(t) == digits_value(d.take(i - start)) * 10 + digit);
        }
        if !overflow {
            if value > (usize::MAX - digit) / 10 {
                overflow = true;
                proof {
                    assert(value * 10 + digit > usize::MAX) by (nonlinear_arith)
                        requires value > (usize::MAX - digit) / 10, digit <= 9;
                }
            } else {
                proof {
                    assert(value * 10 + digit <= usize::MAX) by (nonlinear_arith)
                        requires value <= (usize::MAX - digit) / 10, digit <= 9;
                }
                value = value * 10 + digit;
            }
        } else {
            proof {
                assert(digits_value(d.take(i - start)) * 10 + digit > usize::MAX) by (nonlinear_arith)
                    requires digits_value(d.take(i - start)) > usize::MAX;
            }
        }
        i = i + 1;
    }
    proof {
        assert(d.take(d.len() as int) =~= d);
        assert(forall|k: int| 0 <= k < d.len() ==> decimal_digit(#[trigger] d[k]));
    }
    if overflow { None } else { Some(value) }
}

/// The text that bytes encode, where they are valid UTF-8.
pub open spec fn utf8_text(bytes: Seq<u8>) -> Option<Seq<char>> {
    if vstd::utf8::valid_utf8(bytes) { Some(vstd::utf8::decode_utf8(bytes)) } else { None }
}

/// Decodes bytes with `String::from_utf8` (std), which accepts exactly the
/// valid UTF-8 byte sequences and keeps the characters they encode.
#[verifier::external_body]
fn decode_utf8(bytes: &Vec<u8>) -> (r: Option<String>)
    ensures
        match r {
            Some(t) => utf8_text(bytes@) == Some(t@),
            None => utf8_text(bytes@) is None,
        },
{
    String::from_utf8(bytes.clone()).ok()
}

/// A response body as JSON: its text where it decoded (`decoded`), else
/// the array of its bytes.
pub fn response_body_json(decoded: Option<String>, bytes: &Vec<u8>) -> (r: Json)
    ensures
        decoded matches Some(t) ==> (r matches Json::Str(x) && x@ == t@),
        decoded is None ==> (r matches Json::Array(items) && items@.len() == bytes@.len()
            && forall|i: int| 0 <= i < bytes@.len() ==> #[trigger] items@[i] == Json::UInt(bytes@[i] as u64)),
{
    match decoded {
        Some(t) => Json::Str(t),
        None => {
            let mut items: Vec<Json> = Vec::new();
            let mut i: usize = 0;
            while i < bytes.len()
                invariant
                    i <= bytes@.len(),
                    items@.len() == i,
                    forall|k: int| 0 <= k < i ==> #[trigger] items@[k] == Json::UInt(bytes@[k] as u64),
                decreases bytes@.len() - i,
            {
                items.push(Json::UInt(bytes[i] as u64));
                i = i + 1;
            }
            Json::Array(items)
        },
    }
}

/// A response body as JSON: its text where it is valid UTF-8, else the
/// array of its bytes.
pub fn http_response_body(bytes: &Vec<u8>) -> (r: Json)
    ensures
        utf8_text(bytes@) matches Some(t) ==> (r matches Json::Str(x) && x@ == t),
        utf8_text(bytes@) is None ==> (r matches Json::Array(items) && items@.len() == bytes@.len()
            && forall|i: int| 0 <= i < bytes@.len() ==> #[trigger] items@[i] == Json::UInt(bytes@[i] as u64)),
{
    let decoded = decode_utf8(bytes);
    response_body_json(decoded, bytes)
}

/// The output of an executed HTTP plan: its URL and method, the response
/// status, size, duration and content type, and the body as JSON.
pub fn http_response_output(plan: &HttpPlan, status: u16, content_type: Option<String>, bytes: &Vec<u8>, duration_ms: u64) -> (r: Json)
    ensures
        r matches Json::Object(entries) && {
            &&& entries@.len() == 7
            &&& entries@[0].0@ == "url"@ && (entries@[0].1 matches Json::Str(u) && u@ == plan.url@)
            &&& entries@[1].0@ == "method"@ && (entries@[1].1 matches Json::Str(m)
                    && m@ == (if plan.method is Get { "GET"@ } else { "POST"@ }))
            &&& entries@[2].0@ == "status"@ && entries@[2].1 == Json::UInt(status as u64)
            &&& entries@[3].0@ == "bytes"@ && entries@[3].1 == Json::UInt(bytes@.len() as u64)
            &&& entries@[4].0@ == "duration_ms"@ && entries@[4].1 == Json::UInt(duration_ms)
            &&& entries@[5].0@ == "content_type"@ && match content_type {
                    Some(t) => entries@[5].1 matches Json::Str(x) && x@ == t@,
                    None => entries@[5].1 is Null,
                }
            &&& entries@[6].0@ == "body"@
            &&& (utf8_text(bytes@) matches Some(t) ==> (entries@[6].1 matches Json::Str(x) && x@ == t))
            &&& (utf8_text(bytes@) is None ==> (entries@[6].1 matches Json::Array(items) && items@.len() == bytes@.len()
                    && forall|i: int| 0 <= i < bytes@.len() ==> #[trigger] items@[i] == Json::UInt(bytes@[i] as u64)))
        },
{
    let mut entries: Vec<(String, Json)> = Vec::new();
    entries.push((String::from_str("url"), Json::Str(plan.url.clone())));
    entries.push((String::from_str("method"), Json::Str(String::from_str(plan.method.as_str()))));
    entries.push((String::from_str("status"), Json::UInt(status as u64)));
    entries.push((String::from_str("bytes"), Json::UInt(bytes.len() as u64)));
    entries.push((String::from_str("duration_ms"), Json::UInt(duration_ms)));
    let ct = match content_type {
        Some(t) => Json::Str(t),
        None => Json::Null,
    };
    entries.push((String::from_str("content_type"), ct));
    entries.push((String::from_str("body"), http_response_body(bytes)));
    proof {
        reveal_strlit("url");
        reveal_strlit("method");
        reveal_strlit("status");
        reveal_strlit("bytes");
        reveal_strlit("duration_ms");
        reveal_strlit("content_type");
        reveal_strlit("body");
        reveal_strlit("GET");
        reveal_strlit("POST");
    }
    Json::Object(entries)
}

/// The body an HTTP request carries.
#[derive(Debug)]
pub enum HttpBody {
    Empty,
    /// The `json` member of the action's params, sent as a JSON document.
    JsonParam,
    Raw(Vec<u8>),
}

/// A request the adapter decided to make.
#[derive(Debug)]
pub struct HttpPlan {
    pub method: HttpMethod,
    pub url: String,
    pub host: String,
    pub headers: Vec<(String, String)>,
    pub body: HttpBody,
}

/// The headers of a request: an object of text values; each key with its
/// value, in the object's order.
pub open spec fn headers_spec(params: Json) -> Result<Seq<(Seq<char>, Seq<char>)>, Seq<char>> {
    match json_get(params, "headers"@) {
        None => Ok(seq![]),
        Some(Json::Object(m)) =>
            if forall|i: int| 0 <= i < m@.len() ==> (#[trigger] m@[i]).1 is Str {
                Ok(Seq::new(m@.len(), |i: int| (m@[i].0@, json_str(m@[i].1).unwrap())))
            } else {
                Err("header values must be strings"@)
            },
        Some(_) => Err("headers must be an object"@),
    }
}

pub open spec fn pair_views(v: Seq<(String, String)>) -> Seq<(Seq<char>, Seq<char>)> {
    v.map_values(|p: (String, String)| (p.0@, p.1@))
}

pub fn extract_headers(params: &Json) -> (r: Result<Vec<(String, String)>, AdapterError>)
    ensures
        match r {
            Ok(v) => headers_spec(*params) == Ok::<Seq<(Seq<char>, Seq<char>)>, Seq<char>>(pair_views(v@)),
            Err(e) => headers_spec(*params) == Err::<Seq<(Seq<char>, Seq<char>)>, Seq<char>>(failed(e)),
        },
{
    let key = String::from_str("headers");
    proof { reveal_strlit("headers"); }
    match params.get(&key) {
        None => {
            let v: Vec<(String, String)> = Vec::new();
            assert(pair_views(v@) =~= seq![]);
            Ok(v)
        },
        Some(Json::Object(m)) => {
            let mut out: Vec<(String, String)> = Vec::new();
            let mut i: usize = 0;
            while i < m.len()
                invariant
                    i <= m@.len(),
                    out@.len() == i,
                    json_get(*params, "headers"@) == Some(Json::Object(*m)),
                    forall|k: int| 0 <= k < i ==> (#[trigger] m@[k]).1 is Str,
                    forall|k: int| 0 <= k < i ==> (#[trigger] out@[k]).0@ == m@[k].0@ && out@[k].1@ == json_str(m@[k].1).unwrap(),
                decreases m@.len() - i,
            {
                match &m[i].1 {
                    Json::Str(v) => {
                        out.push((m[i].0.clone(), v.clone()));
                    },
                    _ => {
                        assert(!(m@[i as int].1 is Str));
                        return Err(AdapterError::Failed(String::from_str("header values must be strings")));
                    },
                }
                i = i + 1;
            }
            assert(pair_views(out@) =~= Seq::new(m@.len(), |i: int| (m@[i].0@, json_str(m@[i].1).unwrap())));
            Ok(out)
        },
        Some(_) => Err(AdapterError::Failed(String::from_str("headers must be an object"))),
    }
}

/// The body a request carries: a `json` value (sent as JSON), else the UTF-8
/// encoding of a `body` text, else a `bytes` array, else nothing.
pub open spec fn body_spec(params: Json) -> Result<Option<Seq<u8>>, Seq<char>> {
    match json_get(params, "json"@) {
        Some(_) => Ok(None),
        None => match json_get(params, "body"@) {
            Some(b) => match json_str(b) {
                Some(t) => Ok(Some(vstd::utf8::encode_utf8(t))),
                None => Err("body must be a string"@),
            },
            None => match json_get(params, "bytes"@) {
                Some(Json::Array(items)) => match bytes_from(items@) {
                    Ok(v) => Ok(Some(v)),
                    Err(e) => Err(e),
                },
                Some(_) => Err("bytes must be an array"@),
                None => Ok(Some(seq![])),
            },
        },
    }
}

/// Extracts the body of a request; a JSON body is left in the params for the
/// transport to serialize.
pub fn extract_body(params: &Json) -> (r: Result<HttpBody, AdapterError>)
    ensures
        match r {
            Ok(HttpBody::JsonParam) => body_spec(*params) == Ok::<Option<Seq<u8>>, Seq<char>>(None),
            Ok(HttpBody::Raw(v)) => body_spec(*params) == Ok::<Option<Seq<u8>>, Seq<char>>(Some(v@)),
            Ok(HttpBody::Empty) => false,
            Err(e) => body_spec(*params) == Err::<Option<Seq<u8>>, Seq<char>>(failed(e)),
        },
{
    let json_key = String::from_str("json");
    let body_key = String::from_str("body");
    let bytes_key = String::from_str("bytes");
    proof {
        reveal_strlit("json");
        reveal_strlit("body");
        reveal_strlit("bytes");
    }
    if params.get(&json_key).is_some() {
        return Ok(HttpBody::JsonParam);
    }
    if let Some(b) = params.get(&body_key) {
        return match b {
            Json::Str(t) => Ok(HttpBody::Raw(t.as_str().as_bytes_vec())),
            _ => Err(AdapterError::Failed(String::from_str("body must be a string"))),
        };
    }
    match params.get(&bytes_key) {
        Some(Json::Array(items)) => match bytes_from_array(items) {
            Ok(v) => Ok(HttpBody::Raw(v)),
            Err(e) => Err(e),
        },
        Some(_) => Err(AdapterError::Failed(String::from_str("bytes must be an array"))),
        None => Ok(HttpBody::Raw(Vec::new())),
    }
}

/// The refusal, in the order checked, that planning `action_name` with
/// `params` for `tenant_id` earns before headers and body are read: params
/// must be an object with a text `url` that parses, names a host that the
/// tenant's allowlist admits, and the action must name a method that is
/// allowed.
pub open spec fn http_plan_refusal(cfg: HttpAdapterConfig, tenant_id: TenantId, action_name: Seq<char>, params: Json) -> Option<Seq<char>> {
    if !(params is Object) {
        Some("params must be an object"@)
    } else if param_text(params, "url"@) is None {
        Some("missing url"@)
    } else {
        http_url_refusal(cfg, tenant_id, action_name, url_parse(param_text(params, "url"@).unwrap()))
    }
}

/// Why a request for `action_name` to the URL parsed as `parsed` is refused
/// before its headers and body are read, if it is.
pub open spec fn http_url_refusal(
    cfg: HttpAdapterConfig,
    tenant_id: TenantId,
    action_name: Seq<char>,
    parsed: Result<(Seq<char>, Option<Seq<char>>), Seq<char>>,
) -> Option<Seq<char>> {
    match parsed {
        Err(e) => Some(e),
        Ok((_, None)) => Some("url must include host"@),
        Ok((_, Some(host))) => if !domain_admitted(tenant_allowlist(cfg, tenant_id), host) {
            Some("domain not allowlisted: "@ + host)
        } else if action_name != GET_ACTION@ && action_name != POST_ACTION@ {
            Some("unsupported http action "@ + action_name)
        } else {
            let method = if action_name == GET_ACTION@ { HttpMethod::Get } else { HttpMethod::Post };
            if !cfg.allowed_methods@.contains(method) {
                Some("method "@ + (if method is Get { "GET"@ } else { "POST"@ }) + " is not allowed"@)
            } else {
                None
            }
        },
    }
}

impl HttpAdapter {
    /// Decides the request for an action: params must be an object with a
    /// parsable `url` whose host is allowlisted for the tenant; the action
    /// name picks an allowed method; headers must be text. A POST carries the
    /// extracted body; a raw body must fit the request limit.
    pub fn plan(&self, tenant_id: &TenantId, action_name: &String, params: &Json) -> (r: Result<HttpPlan, AdapterError>)
        ensures
            !(params is Object) ==> (r matches Err(AdapterError::Failed(m)) && m@ == "params must be an object"@),
            params is Object && param_text(*params, "url"@) is None ==> (r matches Err(AdapterError::Failed(m)) && m@ == "missing url"@),
            http_plan_refusal(self.settings(), *tenant_id, action_name@, *params) matches Some(t)
                ==> (r matches Err(AdapterError::Failed(m)) && m@ == t),
            r is Ok ==> http_plan_refusal(self.settings(), *tenant_id, action_name@, *params) is None,
            r matches Ok(plan) ==> {
                let parsed = url_parse(param_text(*params, "url"@).unwrap());
                &&& params is Object
                &&& param_text(*params, "url"@) is Some
                &&& parsed is Ok
                &&& parsed->Ok_0.0 == plan.url@
                &&& parsed->Ok_0.1 == Some(plan.host@)
                &&& domain_admitted(tenant_allowlist(self.settings(), *tenant_id), plan.host@)
                &&& self.settings().allowed_methods@.contains(plan.method)
                &&& (plan.method is Get <==> action_name@ == GET_ACTION@)
                &&& (plan.method is Post <==> action_name@ == POST_ACTION@)
                &&& headers_spec(*params) == Ok::<Seq<(Seq<char>, Seq<char>)>, Seq<char>>(pair_views(plan.headers@))
                &&& (plan.method is Get ==> plan.body is Empty)
                &&& (plan.body matches HttpBody::Raw(v) ==> v@.len() <= self.settings().max_request_bytes)
            },
    {
        if !params.is_object() {
            return Err(AdapterError::Failed(String::from_str("params must be an object")));
        }
        proof { reveal_strlit("url"); }
        let url_key = String::from_str("url");
        let raw_url = match params.get(&url_key) {
            Some(Json::Str(t)) => t,
            _ => return Err(AdapterError::Failed(String::from_str("missing url"))),
        };
        let parsed = parse_url(raw_url);
        self.plan_with_url(tenant_id, action_name, params, parsed)
    }

    /// Decides the request for an action once its `url` parameter has been
    /// parsed as `parsed` (a serialization and host, or the parse error's
    /// text): the host must be present and allowlisted for the tenant, the
    /// action name picks an allowed method, headers must be text, and a POST
    /// carries the extracted body, a raw one within the request limit.
    pub fn plan_with_url(
        &self,
        tenant_id: &TenantId,
        action_name: &String,
        params: &Json,
        parsed: Result<(String, Option<String>), String>,
    ) -> (r: Result<HttpPlan, AdapterError>)
        ensures
            http_url_refusal(self.settings(), *tenant_id, action_name@, url_view(parsed)) matches Some(t)
                ==> (r matches Err(AdapterError::Failed(m)) && m@ == t),
            http_url_refusal(self.settings(), *tenant_id, action_name@, url_view(parsed)) is None ==> {
                &&& headers_spec(*params) matches Err(t) ==> (r matches Err(AdapterError::Failed(m)) && m@ == t)
                &&& headers_spec(*params) is Ok && action_name@ == GET_ACTION@ ==> (r matches Ok(plan) && plan.body is Empty)
                &&& headers_spec(*params) is Ok && action_name@ == POST_ACTION@ ==> match body_spec(*params) {
                        Err(t) => r matches Err(AdapterError::Failed(m)) && m@ == t,
                        Ok(None) => r matches Ok(plan) && plan.body is JsonParam,
                        Ok(Some(bytes)) => if bytes.len() <= self.settings().max_request_bytes {
                            r matches Ok(plan) && plan.body matches HttpBody::Raw(v) && v@ == bytes
                        } else {
                            r matches Err(AdapterError::Failed(m)) && m@ == "request size "@ + decimal_text(bytes.len() as u64)
                                + " exceeds limit "@ + decimal_text(self.settings().max_request_bytes as u64)
                        },
                    }
            },
            r is Ok ==> http_url_refusal(self.settings(), *tenant_id, action_name@, url_view(parsed)) is None,
            r matches Ok(plan) ==> {
                &&& url_view(parsed) is Ok
                &&& url_view(parsed)->Ok_0.0 == plan.url@
                &&& url_view(parsed)->Ok_0.1 == Some(plan.host@)
                &&& domain_admitted(tenant_allowlist(self.settings(), *tenant_id), plan.host@)
                &&& self.settings().allowed_methods@.contains(plan.method)
                &&& (plan.method is Get <==> action_name@ == GET_ACTION@)
                &&& (plan.method is Post <==> action_name@ == POST_ACTION@)
                &&& headers_spec(*params) == Ok::<Seq<(Seq<char>, Seq<char>)>, Seq<char>>(pair_views(plan.headers@))
                &&& (plan.method is Get ==> plan.body is Empty)
                &&& (plan.body matches HttpBody::Raw(v) ==> v@.len() <= self.settings().max_request_bytes)
            },
    {
        let (url, host) = match parsed {
            Ok(p) => p,
            Err(e) => return Err(AdapterError::Failed(e)),
        };
        let host = match host {
            Some(h) => h,
            None => return Err(AdapterError::Failed(String::from_str("url must include host"))),
        };
        if !self.domain_allowed(tenant_id, &host) {
            return Err(AdapterError::Failed(String::from_str("domain not allowlisted: ").concat(host.as_str())));
        }
        let method = self.method_for_action(action_name)?;
        if !self.method_allowed(method) {
            return Err(AdapterError::Failed(String::from_str("method ").concat(method.as_str()).concat(" is not allowed")));
        }
        let headers = extract_headers(params)?;
        let body = match method {
            HttpMethod::Get => HttpBody::Empty,
            HttpMethod::Post => {
                let b = extract_body(params)?;
                if let HttpBody::Raw(v) = &b {
                    self.check_request_size(v.len())?;
                }
                b
            },
        };
        Ok(HttpPlan { method, url, host, headers, body })
    }

    /// A request body must fit the request limit.
    pub fn check_request_size(&self, size: usize) -> (r: Result<(), AdapterError>)
        ensures
            r is Ok <==> size <= self.settings().max_request_bytes,
            r matches Err(AdapterError::Failed(m)) ==> m@ == "request size "@ + decimal_text(size as u64)
                + " exceeds limit "@ + decimal_text(self.settings().max_request_bytes as u64),
    {
        if size > self.config.max_request_bytes {
            return Err(AdapterError::Failed(String::from_str("request size ").concat(u64_text(size as u64).as_str())
                .concat(" exceeds limit ").concat(u64_text(self.config.max_request_bytes as u64).as_str())));
        }
        Ok(())
    }

    /// A declared `Content-Length` that parses as a number must fit the
    /// response limit; an unparsable one is ignored.
    pub fn check_content_length(&self, header: Option<&String>) -> (r: Result<(), AdapterError>)
        ensures
            r is Err <==> (header matches Some(h) && usize_parse(h@) matches Some(n) && n > self.settings().max_response_bytes),
    {
        match header {
            None => Ok(()),
            Some(h) => match parse_usize(h) {
                Some(n) => self.check_response_size(n),
                None => Ok(()),
            },
        }
    }

    /// A response body must fit the response limit.
    pub fn check_response_size(&self, size: usize) -> (r: Result<(), AdapterError>)
        ensures
            r is Ok <==> size <= self.settings().max_response_bytes,
            r matches Err(AdapterError::Failed(m)) ==> m@ == "response size "@ + decimal_text(size as u64)
                + " exceeds limit "@ + decimal_text(self.settings().max_response_bytes as u64),
    {
        if size > self.config.max_response_bytes {
            return Err(AdapterError::Failed(String::from_str("response size ").concat(u64_text(size as u64).as_str())
                .concat(" exceeds limit ").concat(u64_text(self.config.max_response_bytes as u64).as_str())));
        }
        Ok(())
    }
}

} // verus!
