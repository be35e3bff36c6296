use vstd::prelude::*;

use vstd::string::StringExecFns;

verus! {

/// The 64 digits of the standard base64 alphabet, in value order.
pub open spec fn spec_b64_alphabet() -> Seq<char> {
    "ABCDEFGHIJKLMNOPQRSTUVWXYZabcdefghijklmnopqrstuvwxyz0123456789+/"@
}

/// The digit for a 6-bit value.
pub open spec fn spec_b64_digit(v: int) -> char {
    spec_b64_alphabet()[v]
}

/// Standard base64 with padding: each three-byte group becomes four
/// digits; a trailing group of one or two bytes is padded with `=`.
pub open spec fn spec_base64(b: Seq<u8>) -> Seq<char>
    decreases b.len(),
{
    if b.len() == 0 {
        Seq::empty()
    } else if b.len() == 1 {
        seq![
            spec_b64_digit(b[0] as int / 4),
            spec_b64_digit((b[0] as int % 4) * 16),
            '=',
            '=',
        ]
    } else if b.len() == 2 {
        seq![
            spec_b64_digit(b[0] as int / 4),
            spec_b64_digit((b[0] as int % 4) * 16 + b[1] as int / 16),
            spec_b64_digit((b[1] as int % 16) * 4),
            '=',
        ]
    } else {
        seq![
            spec_b64_digit(b[0] as int / 4),
            spec_b64_digit((b[0] as int % 4) * 16 + b[1] as int / 16),
            spec_b64_digit((b[1] as int % 16) * 4 + b[2] as int / 64),
            spec_b64_digit(b[2] as int % 64),
        ] + spec_base64(b.skip(3))
    }
}

/// Relies on the `base64` crate's `STANDARD` engine: the RFC 4648 alphabet
/// with `=` padding, four digits for each three-byte group.
#[verifier::external_body]
fn base64_encode(b: &Vec<u8>) -> (r: String)
    ensures
        r@ == spec_base64(b@),
{
    base64::Engine::encode(&base64::engine::general_purpose::STANDARD, b)
}

/// The data URL carrying a PNG stream: the fixed prefix, then the
/// stream's base64 form.
pub open spec fn spec_data_url(png: Seq<u8>) -> Seq<char> {
    "data:image/png;base64,"@ + spec_base64(png)
}

/// Wraps PNG bytes as a `data:` URL, the wire form handed to display and
/// persistence collaborators; the payload round-trips through base64.
pub fn png_data_url(png: &Vec<u8>) -> (r: String)
    ensures
        r@ == spec_data_url(png@),
{
    let mut s: String = "data:image/png;base64,".to_owned();
    let b = base64_encode(png);
    s.append(b.as_str());
    s
}

} // verus!
