//! String helpers: equality of string slices, decimal rendering, and the
//! rewriting of a JSON payload so that it carries its routing id.

use vstd::prelude::*;
use vstd::string::*;
use vstd::utf8::*;

verus! {

/// Whether two string slices hold the same characters.
pub fn str_eq(a: &str, b: &str) -> (same: bool)
    ensures
        same == (a@ == b@),
{
    let x = a.as_bytes();
    let y = b.as_bytes();
    proof {
        encode_utf8_decode_utf8(a@);
        encode_utf8_decode_utf8(b@);
    }
    if x.len() != y.len() {
        return false;
    }
    let mut i: usize = 0;
    while i < x.len()
        invariant
            i <= x.len(),
            x.len() == y.len(),
            a@ == b@ ==> x@ == y@,
            forall|j: int| 0 <= j < i ==> x@[j] == y@[j],
        decreases x.len() - i,
    {
        if x[i] != y[i] {
            assert(x@[i as int] != y@[i as int]);
            return false;
        }
        i += 1;
    }
    assert(x@ =~= y@);
    true
}

/// The character that writes the digit `d`.
pub open spec fn digit_char(d: int) -> char
    recommends
        0 <= d < 10,
{
    if d == 0 {
        '0'
    } else if d == 1 {
        '1'
    } else if d == 2 {
        '2'
    } else if d == 3 {
        '3'
    } else if d == 4 {
        '4'
    } else if d == 5 {
        '5'
    } else if d == 6 {
        '6'
    } else if d == 7 {
        '7'
    } else if d == 8 {
        '8'
    } else {
        '9'
    }
}

/// The decimal numeral of `n`: most significant digit first, no sign and
/// no leading zero, `0` for zero.
pub open spec fn decimal_digits(n: nat) -> Seq<char>
    decreases n,
{
    if n < 10 {
        seq![digit_char(n as int)]
    } else {
        decimal_digits(n / 10).push(digit_char((n % 10) as int))
    }
}

fn digit_str(d: u64) -> (s: &'static str)
    requires
        d < 10,
    ensures
        s@ == seq![digit_char(d as int)],
{
    proof {
        reveal_strlit("0");
        reveal_strlit("1");
        reveal_strlit("2");
        reveal_strlit("3");
        reveal_strlit("4");
        reveal_strlit("5");
        reveal_strlit("6");
        reveal_strlit("7");
        reveal_strlit("8");
        reveal_strlit("9");
    }
    let s = if d == 0 {
        "0"
    } else if d == 1 {
        "1"
    } else if d == 2 {
        "2"
    } else if d == 3 {
        "3"
    } else if d == 4 {
        "4"
    } else if d == 5 {
        "5"
    } else if d == 6 {
        "6"
    } else if d == 7 {
        "7"
    } else if d == 8 {
        "8"
    } else {
        "9"
    };
    assert(s@ =~= seq![digit_char(d as int)]);
    s
}

/// Writes `n` in decimal.
pub fn render_decimal(n: u64) -> (s: String)
    ensures
        s@ == decimal_digits(n as nat),
    decreases n,
{
    if n < 10 {
        String::from_str(digit_str(n))
    } else {
        let mut s = render_decimal(n / 10);
        s.append(digit_str(n % 10));
        assert(s@ =~= decimal_digits(n as nat));
        s
    }
}

/// What opens every rewritten payload: `{"id":`.
pub open spec fn id_key() -> Seq<char> {
    seq!['{', '"', 'i', 'd', '"', ':']
}

/// Whether a payload can be rewritten: it has a first character, and that
/// character takes a single byte in UTF-8.
pub open spec fn has_replaceable_head(json: Seq<char>) -> bool {
    json.len() > 0 && (json[0] as u32) < 0x80
}

/// The payload with the routing id injected as its first key: `{"id":`,
/// the id in decimal, a comma, and the payload without its first character.
pub open spec fn inject_id(id: u64, json: Seq<char>) -> Seq<char> {
    id_key() + decimal_digits(id as nat) + seq![','] + json.drop_first()
}

/// Tests whether `json` can be rewritten.
pub fn check_replaceable_head(json: &str) -> (ok: bool)
    ensures
        ok == has_replaceable_head(json@),
{
    if json.unicode_len() == 0 {
        return false;
    }
    let head = json.get_char(0);
    (head as u32) < 0x80
}

/// Rewrites `json` so that it carries `id` as its first key.
pub fn rewrite_payload(id: u64, json: &str) -> (out: String)
    requires
        has_replaceable_head(json@),
    ensures
        out@ == inject_id(id, json@),
{
    proof {
        reveal_strlit("{\"id\":");
        reveal_strlit(",");
    }
    let mut out = String::from_str("{\"id\":");
    assert(out@ =~= id_key());
    let digits = render_decimal(id);
    out.append(digits.as_str());
    out.append(",");
    let n = json.unicode_len();
    let tail = json.substring_char(1, n);
    out.append(tail);
    assert(json@.subrange(1, n as int) =~= json@.drop_first());
    assert(out@ =~= inject_id(id, json@));
    out
}

} // verus!
