//! JSON text: what serde_json computes, and the library's framing around it.
use vstd::prelude::*;

verus! {

/// The JSON string literal for `s`: quoted, with the characters that JSON
/// requires escaped.
pub uninterp spec fn json_string_literal(s: Seq<char>) -> Seq<char>;

/// For the bytes of a JSON document and a key: `None` where the bytes are not
/// one JSON document, else `Some` of the key's member in the top-level object
/// where that member is a string, else `Some(None)`.
pub uninterp spec fn json_member_text(doc: Seq<u8>, key: Seq<char>) -> Option<Option<Seq<char>>>;

pub open spec fn opt_text(m: Option<String>) -> Option<Seq<char>> {
    match m {
        Some(t) => Some(t@),
        None => None,
    }
}

/// Relies on serde_json's `Display` for `Value::String`, which writes the
/// string as a JSON string literal.
#[verifier::external_body]
pub(crate) fn json_quoted(s: &str) -> (r: String)
    ensures
        r@ == json_string_literal(s@),
{
    serde_json::Value::String(s.to_string()).to_string()
}

/// Relies on `serde_json::from_slice` into a `Value`, then `Value::get` and
/// `Value::as_str` to read one string member of the top-level object.
#[verifier::external_body]
pub(crate) fn json_str_member(doc: &[u8], key: &str) -> (r: Option<Option<String>>)
    ensures
        match r {
            None => json_member_text(doc@, key@) is None,
            Some(m) => json_member_text(doc@, key@) == Some(opt_text(m)),
        },
{
    serde_json::from_slice::<serde_json::Value>(doc).ok().map(
        |v| v.get(key).and_then(serde_json::Value::as_str).map(str::to_string),
    )
}

pub open spec fn digit_text(d: nat) -> Seq<char> {
    if d == 0 {
        "0"@
    } else if d == 1 {
        "1"@
    } else if d == 2 {
        "2"@
    } else if d == 3 {
        "3"@
    } else if d == 4 {
        "4"@
    } else if d == 5 {
        "5"@
    } else if d == 6 {
        "6"@
    } else if d == 7 {
        "7"@
    } else if d == 8 {
        "8"@
    } else {
        "9"@
    }
}

/// The decimal digits of `n`, most significant first, without leading zeros.
pub open spec fn decimal(n: nat) -> Seq<char>
    decreases n,
{
    if n < 10 {
        digit_text(n)
    } else {
        decimal(n / 10) + digit_text(n % 10)
    }
}

fn digit_str(d: u16) -> (r: &'static str)
    requires
        d < 10,
    ensures
        r@ == digit_text(d as nat),
{
    if d == 0 {
        "0"
    } else if d == 1 {
        "1"
    } else if d == 2 {
        "2"
    } else if d == 3 {
        "3"
    } else if d == 4 {
        "4"
    } else if d == 5 {
        "5"
    } else if d == 6 {
        "6"
    } else if d == 7 {
        "7"
    } else if d == 8 {
        "8"
    } else {
        "9"
    }
}

/// Appends the decimal digits of `n`.
pub(crate) fn append_decimal(out: &mut String, n: u16)
    ensures
        final(out)@ == old(out)@ + decimal(n as nat),
    decreases n,
{
    let ghost start = out@;
    if n >= 10 {
        append_decimal(out, n / 10);
    }
    out.append(digit_str(n % 10));
    proof {
        if n >= 10 {
            assert(out@ =~= start + decimal(n as nat));
        }
    }
}

} // verus!
