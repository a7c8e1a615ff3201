use vstd::prelude::*;
use vstd::string::StringSliceAdditionalSpecFns;

verus! {

/// The decimal digit of `d`, for `d < 10`.
pub open spec fn digit(d: nat) -> char {
    ((d + 48) as u8) as char
}

/// The decimal form of `n`, without leading zeros.
pub open spec fn decimal(n: nat) -> Seq<char>
    decreases n,
{
    if n < 10 {
        seq![digit(n)]
    } else {
        decimal(n / 10) + seq![digit(n % 10)]
    }
}

/// The bencoding of a text: its length in bytes, a colon, then the text.
pub open spec fn bencoded(s: &str) -> Seq<char> {
    decimal(s.spec_bytes().len()) + seq![':'] + s@
}

/// Relies on serde_bencode::to_string: a string serialises as a byte string,
/// its byte length in decimal, `:`, then its bytes, and the output of a
/// string is always UTF-8, so the call does not fail.
#[verifier::external_body]
fn bencode_str(s: &str) -> (r: String)
    ensures
        r@ == bencoded(s),
{
    serde_bencode::to_string(&s).unwrap_or_default()
}

/// The bencoding of a text value.
pub fn bencode_text(val: &str) -> (r: String)
    ensures
        r@ == bencoded(val),
{
    bencode_str(val)
}

} // verus!
