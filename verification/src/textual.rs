//! Text renderings of identifiers and numbers used in evidence and messages.

use vstd::prelude::*;

verus! {

/// The lowercase hexadecimal digit of `d` (below 16).
pub open spec fn hex_digit(d: nat) -> char {
    if d < 10 { (d + 48) as char } else { (d + 87) as char }
}

/// The last `n` hexadecimal digits of `v`, most significant first.
pub open spec fn hex_digits(v: nat, n: nat) -> Seq<char>
    decreases n,
{
    if n == 0 { seq![] } else { hex_digits(v / 16, (n - 1) as nat).push(hex_digit(v % 16)) }
}

/// The first `i` digits of `d`, with a hyphen before digits 8, 12, 16 and 20.
pub open spec fn hyphenated_prefix(d: Seq<char>, i: nat) -> Seq<char>
    decreases i,
{
    if i == 0 {
        seq![]
    } else {
        let k = (i - 1) as nat;
        hyphenated_prefix(d, k) + (if k == 8 || k == 12 || k == 16 || k == 20 { seq!['-'] } else { seq![] }) + seq![d[k as int]]
    }
}

/// The text of a 128-bit identifier: its 32 lowercase hexadecimal digits
/// in groups of 8, 4, 4, 4 and 12, joined by hyphens.
#[verifier::opaque]
pub open spec fn uuid_text(value: u128) -> Seq<char> {
    hyphenated_prefix(hex_digits(value as nat, 32), 32)
}

/// The one-character text of hexadecimal digit `d`.
fn digit_str(d: u8) -> (r: &'static str)
    requires
        d < 16,
    ensures
        r@ == seq![hex_digit(d as nat)],
{
    proof {
        reveal_strlit("0"); reveal_strlit("1"); reveal_strlit("2"); reveal_strlit("3");
        reveal_strlit("4"); reveal_strlit("5"); reveal_strlit("6"); reveal_strlit("7");
        reveal_strlit("8"); reveal_strlit("9"); reveal_strlit("a"); reveal_strlit("b");
        reveal_strlit("c"); reveal_strlit("d"); reveal_strlit("e"); reveal_strlit("f");
    }
    match d {
        0 => "0", 1 => "1", 2 => "2", 3 => "3", 4 => "4", 5 => "5", 6 => "6", 7 => "7",
        8 => "8", 9 => "9", 10 => "a", 11 => "b", 12 => "c", 13 => "d", 14 => "e", _ => "f",
    }
}

/// Renders an identifier value as hyphenated hexadecimal text.
pub fn uuid_string(value: u128) -> (r: String)
    ensures
        r@ == uuid_text(value),
{
    proof { reveal(uuid_text); }
    proof { reveal(uuid_text); }
    let ghost hd = hex_digits(value as nat, 32);
    let mut nibs: Vec<u8> = vec![0u8; 32];
    let mut v: u128 = value;
    let mut k: usize = 0;
    let ghost mut tail: Seq<char> = seq![];
    while k < 32
        invariant
            k <= 32,
            nibs@.len() == 32,
            hd == hex_digits(value as nat, 32),
            hd == hex_digits(v as nat, (32 - k) as nat) + tail,
            tail.len() == k,
            forall|j: int| 32 - k <= j < 32 ==> #[trigger] nibs@[j] < 16 && hex_digit(nibs@[j] as nat) == tail[j - (32 - k)],
        decreases 32 - k,
    {
        let d: u8 = (v % 16) as u8;
        let ghost c = hex_digit(d as nat);
        proof {
            assert(hex_digits(v as nat, (32 - k) as nat) == hex_digits((v / 16) as nat, (31 - k) as nat).push(c));
            assert(hex_digits(v as nat, (32 - k) as nat) + tail =~= hex_digits((v / 16) as nat, (31 - k) as nat) + (seq![c] + tail));
        }
        let ghost old_nibs = nibs@;
        let ghost old_tail = tail;
        nibs.set(31 - k, d);
        proof {
            tail = seq![c] + tail;
            assert forall|j: int| 32 - (k + 1) <= j < 32 implies #[trigger] nibs@[j] < 16 && hex_digit(nibs@[j] as nat) == tail[j - (32 - (k + 1))] by {
                if j == 31 - k {
                    assert(tail[0] == c);
                } else {
                    assert(nibs@[j] == old_nibs[j]);
                    assert(tail[j - (32 - (k + 1))] == old_tail[j - (32 - k)]);
                }
            }
        }
        v = v / 16;
        k = k + 1;
    }
    proof {
        assert(hex_digits(v as nat, 0) =~= seq![]);
        assert(hd =~= tail);
        assert forall|j: int| 0 <= j < 32 implies #[trigger] nibs@[j] < 16 && hex_digit(nibs@[j] as nat) == hd[j] by {
            assert(hex_digit(nibs@[j] as nat) == tail[j - 0]);
        }
    }
    let mut out = String::new();
    let mut i: usize = 0;
    while i < 32
        invariant
            i <= 32,
            nibs@.len() == 32,
            hd.len() == 32,
            forall|j: int| 0 <= j < 32 ==> #[trigger] nibs@[j] < 16 && hex_digit(nibs@[j] as nat) == hd[j],
            out@ == hyphenated_prefix(hd, i as nat),
        decreases 32 - i,
    {
        if i == 8 || i == 12 || i == 16 || i == 20 {
            proof { reveal_strlit("-"); }
            out = out.concat("-");
        }
        out = out.concat(digit_str(nibs[i]));
        proof {
            assert(hd[i as int] == hex_digit(nibs@[i as int] as nat));
        }
        i = i + 1;
    }
    out
}

/// The decimal digits of `n`, most significant first, with no leading zero.
pub open spec fn decimal_digits(n: nat) -> Seq<char>
    decreases n,
{
    if n < 10 { seq![hex_digit(n)] } else { decimal_digits(n / 10).push(hex_digit(n % 10)) }
}

/// The decimal text of an unsigned integer, as `format!("{}", ..)` writes it.
pub open spec fn decimal_text(value: u64) -> Seq<char> {
    decimal_digits(value as nat)
}

/// Renders a number in decimal.
pub(crate) fn u64_text(value: u64) -> (r: String)
    ensures
        r@ == decimal_text(value),
    decreases value,
{
    if value < 10 {
        String::from_str(digit_str(value as u8))
    } else {
        let head = u64_text(value / 10);
        head.concat(digit_str((value % 10) as u8))
    }
}

} // verus!
