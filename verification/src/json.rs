//! A JSON value model used for verification artifacts, action parameters and
//! adapter outputs. Objects keep their entries in insertion order; inserting an
//! existing key replaces its value.

use vstd::prelude::*;

verus! {

/// A JSON document.
#[derive(Debug)]
pub enum Json {
    Null,
    Bool(bool),
    UInt(u64),
    Int(i64),
    Str(String),
    Array(Vec<Json>),
    Object(Vec<(String, Json)>),
}

/// The keys of an object's entries, in order.
pub open spec fn entry_keys(m: Seq<(String, Json)>) -> Seq<Seq<char>> {
    m.map_values(|e: (String, Json)| e.0@)
}

/// Whether `j` is an object that has an entry for `k`.
pub open spec fn json_has_key(j: Json, k: Seq<char>) -> bool {
    match j {
        Json::Object(m) => entry_keys(m@).contains(k),
        _ => false,
    }
}

/// The value stored under the first entry named `k`.
pub open spec fn entries_get(m: Seq<(String, Json)>, k: Seq<char>) -> Option<Json>
    decreases m.len(),
{
    if m.len() == 0 {
        None
    } else if m[0].0@ == k {
        Some(m[0].1)
    } else {
        entries_get(m.subrange(1, m.len() as int), k)
    }
}

/// Member lookup: `None` for non-objects and missing keys.
pub open spec fn json_get(j: Json, k: Seq<char>) -> Option<Json> {
    match j {
        Json::Object(m) => entries_get(m@, k),
        _ => None,
    }
}

/// `j` is an array holding the texts `t`, in order.
pub open spec fn text_array(j: Json, t: Seq<String>) -> bool {
    j matches Json::Array(v) && v@.len() == t.len()
        && forall|i: int| 0 <= i < t.len() ==> json_str(#[trigger] v@[i]) == Some(t[i]@)
}

/// The text of a JSON string.
pub open spec fn json_str(j: Json) -> Option<Seq<char>> {
    match j {
        Json::Str(s) => Some(s@),
        _ => None,
    }
}

/// Two documents are the same: same kind, same scalar or text, and for
/// arrays and objects the same length with the same keys and the same
/// documents position by position.
pub open spec fn json_same(a: Json, b: Json) -> bool
    decreases a,
    via json_same_decreases
{
    match (a, b) {
        (Json::Null, Json::Null) => true,
        (Json::Bool(x), Json::Bool(y)) => x == y,
        (Json::UInt(x), Json::UInt(y)) => x == y,
        (Json::Int(x), Json::Int(y)) => x == y,
        (Json::Str(x), Json::Str(y)) => x@ == y@,
        (Json::Array(xs), Json::Array(ys)) => xs@.len() == ys@.len()
            && forall|i: int| 0 <= i < xs@.len() ==> json_same(#[trigger] xs@[i], ys@[i]),
        (Json::Object(xs), Json::Object(ys)) => xs@.len() == ys@.len()
            && forall|i: int| 0 <= i < xs@.len() ==> (#[trigger] xs@[i]).0@ == ys@[i].0@ && json_same(xs@[i].1, ys@[i].1),
        _ => false,
    }
}

#[via_fn]
proof fn json_same_decreases(a: Json, b: Json) {
    match a {
        Json::Array(items) => {
            assert forall|i: int| 0 <= i < items@.len() implies decreases_to!(a => items@[i]) by {
                vstd::std_specs::vec::axiom_vec_index_decreases(items, i);
                assert(decreases_to!(a => a->Array_0));
            }
        },
        Json::Object(m) => {
            assert forall|i: int| 0 <= i < m@.len() implies decreases_to!(a => m@[i].1) by {
                vstd::std_specs::vec::axiom_vec_index_decreases(m, i);
                assert(decreases_to!(a => a->Object_0));
                assert(decreases_to!(m@[i] => m@[i].1));
            }
        },
        _ => {},
    }
}

/// Structural copy of a JSON document.
pub fn copy_json(j: &Json) -> (r: Json)
    ensures
        json_same(r, *j),
        json_str(r) == json_str(*j),
        r is Null == j is Null,
        r is Object == j is Object,
    decreases j,
{
    match j {
        Json::Null => Json::Null,
        Json::Bool(b) => Json::Bool(*b),
        Json::UInt(n) => Json::UInt(*n),
        Json::Int(n) => Json::Int(*n),
        Json::Str(s) => Json::Str(s.clone()),
        Json::Array(items) => {
            let mut out: Vec<Json> = Vec::new();
            let mut i: usize = 0;
            while i < items.len()
                invariant
                    i <= items@.len(),
                    *j == Json::Array(*items),
                    out@.len() == i,
                    forall|k: int| 0 <= k < i ==> json_same(#[trigger] out@[k], items@[k]),
                decreases items@.len() - i,
            {
                proof {
                    vstd::std_specs::vec::axiom_vec_index_decreases(*items, i as int);
                    assert(decreases_to!(*j => (*j)->Array_0));
                    assert(decreases_to!(*items => items[i as int]));
                    assert(decreases_to!(*j => items[i as int]));
                }
                out.push(copy_json(&items[i]));
                i = i + 1;
            }
            Json::Array(out)
        },
        Json::Object(entries) => {
            let mut out: Vec<(String, Json)> = Vec::new();
            let mut i: usize = 0;
            while i < entries.len()
                invariant
                    i <= entries@.len(),
                    *j == Json::Object(*entries),
                    out@.len() == i,
                    forall|k: int| 0 <= k < i ==> (#[trigger] out@[k]).0@ == entries@[k].0@ && json_same(out@[k].1, entries@[k].1),
                decreases entries@.len() - i,
            {
                proof {
                    vstd::std_specs::vec::axiom_vec_index_decreases(*entries, i as int);
                    assert(decreases_to!(*j => (*j)->Object_0));
                    assert(decreases_to!(*entries => entries[i as int]));
                    assert(decreases_to!(entries[i as int] => entries[i as int].1));
                    assert(decreases_to!(*j => entries[i as int].1));
                }
                let key = entries[i].0.clone();
                let value = copy_json(&entries[i].1);
                out.push((key, value));
                i = i + 1;
            }
            Json::Object(out)
        },
    }
}

impl Clone for Json {
    fn clone(&self) -> (r: Self)
        ensures
            json_same(r, *self),
            json_str(r) == json_str(*self),
    {
        copy_json(self)
    }
}

impl Json {
    /// An empty object.
    pub fn object() -> (r: Json)
        ensures
            r matches Json::Object(m) && m@.len() == 0,
    {
        Json::Object(Vec::new())
    }

    /// A JSON string holding a copy of `s`.
    pub fn string(s: &String) -> (r: Json)
        ensures
            json_str(r) == Some(s@),
    {
        Json::Str(s.clone())
    }

    /// A JSON array of strings.
    pub fn string_array(items: &[String]) -> (r: Json)
        ensures
            r matches Json::Array(v) && v@.len() == items@.len() && forall|i: int|
                0 <= i < items@.len() ==> json_str(#[trigger] v@[i]) == Some(items@[i]@),
    {
        let mut v: Vec<Json> = Vec::new();
        let mut i: usize = 0;
        while i < items.len()
            invariant
                i <= items@.len(),
                v@.len() == i,
                forall|j: int| 0 <= j < i ==> json_str(#[trigger] v@[j]) == Some(items@[j]@),
            decreases items@.len() - i,
        {
            v.push(Json::Str(items[i].clone()));
            i = i + 1;
        }
        Json::Array(v)
    }

    pub fn is_null(&self) -> (r: bool)
        ensures
            r == (*self is Null),
    {
        match self {
            Json::Null => true,
            _ => false,
        }
    }

    pub fn is_object(&self) -> (r: bool)
        ensures
            r == (*self is Object),
    {
        match self {
            Json::Object(_) => true,
            _ => false,
        }
    }

    pub fn as_str(&self) -> (r: Option<&String>)
        ensures
            r matches Some(s) ==> json_str(*self) == Some(s@),
            r is None ==> json_str(*self) is None,
    {
        match self {
            Json::Str(s) => Some(s),
            _ => None,
        }
    }

    pub fn as_bool(&self) -> (r: Option<bool>)
        ensures
            r == (match *self {
                Json::Bool(b) => Some(b),
                _ => None,
            }),
    {
        match self {
            Json::Bool(b) => Some(*b),
            _ => None,
        }
    }

    /// Non-negative integers as `u64`.
    pub fn as_u64(&self) -> (r: Option<u64>)
        ensures
            r == (match *self {
                Json::UInt(n) => Some(n),
                Json::Int(n) => if n >= 0 { Some(n as u64) } else { None },
                _ => None,
            }),
    {
        match self {
            Json::UInt(n) => Some(*n),
            Json::Int(n) => if *n >= 0 { Some(*n as u64) } else { None },
            _ => None,
        }
    }

    /// Member lookup on objects.
    pub fn get(&self, key: &String) -> (r: Option<&Json>)
        ensures
            r matches Some(v) ==> json_get(*self, key@) == Some(*v),
            r is None ==> json_get(*self, key@) is None,
    {
        match self {
            Json::Object(m) => {
                let mut i: usize = 0;
                assert(m@.subrange(0, m@.len() as int) =~= m@);
                while i < m.len()
                    invariant
                        i <= m@.len(),
                        *self == Json::Object(*m),
                        entries_get(m@, key@) == entries_get(m@.subrange(i as int, m@.len() as int), key@),
                    decreases m@.len() - i,
                {
                    let ghost rest = m@.subrange(i as int, m@.len() as int);
                    assert(rest.subrange(1, rest.len() as int) =~= m@.subrange(i + 1, m@.len() as int));
                    assert(rest[0] == m@[i as int]);
                    if m[i].0 == *key {
                        assert(entries_get(rest, key@) == Some(rest[0].1));
                        assert(json_get(*self, key@) == entries_get(m@, key@));
                        return Some(&m[i].1);
                    }
                    i = i + 1;
                }
                None
            },
            _ => None,
        }
    }

    /// Sets `key` to `value` on an object, replacing an existing entry with the
    /// same key. A non-object value is first replaced by an empty object.
    pub fn insert(&mut self, key: String, value: Json)
        ensures
            *final(self) is Object,
            json_has_key(*final(self), key@),
            json_get(*final(self), key@) == Some(value),
            forall|k: Seq<char>| k != key@ ==> #[trigger] json_get(*final(self), k) == json_get(*old(self), k),
    {
        let mut entries: Vec<(String, Json)> = Vec::new();
        match self {
            Json::Object(m) => std::mem::swap(&mut entries, m),
            _ => {},
        }
        let ghost before = entries@;
        proof {
            assert forall|k: Seq<char>| #[trigger] json_get(*old(self), k) == entries_get(before, k) by {
                if !(*old(self) is Object) {
                    assert(before.len() == 0);
                }
            }
        }
        let ghost k = key@;
        let mut i: usize = 0;
        let mut found = false;
        while i < entries.len()
            invariant_except_break
                !found,
            invariant
                i <= entries@.len(),
                entries@ == before,
                k == key@,
                forall|j: int| 0 <= j < i ==> (#[trigger] entries@[j]).0@ != k,
            ensures
                found ==> i < entries@.len() && entries@[i as int].0@ == k,
                !found ==> forall|j: int| 0 <= j < entries@.len() ==> (#[trigger] entries@[j]).0@ != k,
                entries@ == before,
                forall|j: int| 0 <= j < i ==> (#[trigger] entries@[j]).0@ != k,
            decreases entries@.len() - i,
        {
            if entries[i].0 == key {
                found = true;
                break;
            }
            i = i + 1;
        }
        let ghost v = value;
        let ghost kk = key;
        if found {
            entries.set(i, (key, value));
            assert(entry_keys(entries@)[i as int] == k);
            proof {
                assert forall|q: Seq<char>| #[trigger] entries_get(entries@, q) == if q == k { Some(v) } else { entries_get(before, q) } by {
                    lemma_entries_get_update(before, i as int, kk, v, q);
                }
            }
        } else {
            entries.push((key, value));
            assert(entry_keys(entries@)[entries@.len() - 1] == k);
            proof {
                assert forall|q: Seq<char>| #[trigger] entries_get(entries@, q) == if q == k { Some(v) } else { entries_get(before, q) } by {
                    lemma_entries_get_push(before, kk, v, q);
                }
            }
        }
        *self = Json::Object(entries);
    }
}

/// Looking a key up after appending an entry whose key is new.
proof fn lemma_entries_get_push(m: Seq<(String, Json)>, key: String, v: Json, q: Seq<char>)
    requires
        forall|j: int| 0 <= j < m.len() ==> (#[trigger] m[j]).0@ != key@,
    ensures
        entries_get(m.push((key, v)), q) == if q == key@ { Some(v) } else { entries_get(m, q) },
    decreases m.len(),
{
    let p = m.push((key, v));
    if m.len() == 0 {
        assert(p.subrange(1, p.len() as int) =~= Seq::<(String, Json)>::empty());
        assert(p[0] == (key, v));
        assert(entries_get(p.subrange(1, p.len() as int), q) is None);
        assert(entries_get(m, q) is None);
    } else {
        assert(p.subrange(1, p.len() as int) =~= m.subrange(1, m.len() as int).push((key, v)));
        let rest = m.subrange(1, m.len() as int);
        assert forall|j: int| 0 <= j < rest.len() implies (#[trigger] rest[j]).0@ != key@ by {
            assert(rest[j] == m[j + 1]);
        }
        lemma_entries_get_push(rest, key, v, q);
        assert(p[0] == m[0]);
        assert(m[0].0@ != key@);
    }
}

/// Looking a key up after replacing the first entry with that key.
proof fn lemma_entries_get_update(m: Seq<(String, Json)>, i: int, key: String, v: Json, q: Seq<char>)
    requires
        0 <= i < m.len(),
        m[i].0@ == key@,
        forall|j: int| 0 <= j < i ==> (#[trigger] m[j]).0@ != key@,
    ensures
        entries_get(m.update(i, (key, v)), q) == if q == key@ { Some(v) } else { entries_get(m, q) },
    decreases m.len(),
{
    let u = m.update(i, (key, v));
    if i == 0 {
        assert(u.subrange(1, u.len() as int) =~= m.subrange(1, m.len() as int));
    } else {
        let rest = m.subrange(1, m.len() as int);
        assert(u.subrange(1, u.len() as int) =~= rest.update(i - 1, (key, v)));
        assert forall|j: int| 0 <= j < i - 1 implies (#[trigger] rest[j]).0@ != key@ by {
            assert(rest[j] == m[j + 1]);
        }
        assert(rest[i - 1] == m[i]);
        lemma_entries_get_update(rest, i - 1, key, v, q);
    }
}

/// Whether `j` holds, as a string value or an object key at any depth, one
/// of `needles`.
pub open spec fn json_mentions(j: Json, needles: Seq<Seq<char>>) -> bool
    decreases j,
    via json_mentions_decreases
{
    match j {
        Json::Str(t) => needles.contains(t@),
        Json::Array(items) => exists|i: int| 0 <= i < items@.len() && json_mentions(#[trigger] items@[i], needles),
        Json::Object(m) => exists|i: int| 0 <= i < m@.len()
            && (needles.contains((#[trigger] m@[i]).0@) || json_mentions(m@[i].1, needles)),
        _ => false,
    }
}

#[via_fn]
proof fn json_mentions_decreases(j: Json, needles: Seq<Seq<char>>) {
    match j {
        Json::Array(items) => {
            assert forall|i: int| 0 <= i < items@.len() implies decreases_to!(j => items@[i]) by {
                vstd::std_specs::vec::axiom_vec_index_decreases(items, i);
                assert(decreases_to!(j => j->Array_0));
            }
        },
        Json::Object(m) => {
            assert forall|i: int| 0 <= i < m@.len() implies decreases_to!(j => m@[i].1) by {
                vstd::std_specs::vec::axiom_vec_index_decreases(m, i);
                assert(decreases_to!(j => j->Object_0));
                assert(decreases_to!(m@[i] => m@[i].1));
            }
        },
        _ => {},
    }
}

} // verus!
