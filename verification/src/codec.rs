use vstd::prelude::*;
use vstd::string::{StringExecFns, StringSliceAdditionalSpecFns};
use vstd::utf8::{decode_utf8, valid_utf8};

use base64::Engine;

verus! {

// ---------------------------------------------------------------------------
// Byte-level codecs the link decoders lean on.  Each call into an outside
// crate is trusted with a contract; the decisions made on the decoded bytes
// are verified.
// ---------------------------------------------------------------------------

/// The value of one ASCII hex digit byte, if it is one.
pub open spec fn spec_hex_val(b: u8) -> Option<u8> {
    if 48 <= b && b <= 57 {
        Some((b - 48) as u8)
    } else if 97 <= b && b <= 102 {
        Some((b - 87) as u8)
    } else if 65 <= b && b <= 70 {
        Some((b - 55) as u8)
    } else {
        None
    }
}

/// What percent-decoding yields: a `%` followed by two hex digits becomes
/// the byte they spell, any other byte — a lone or ill-followed `%` among
/// them — passes through unchanged.
pub open spec fn percent_decoded(b: Seq<u8>) -> Seq<u8>
    decreases b.len(),
{
    if b.len() == 0 {
        Seq::empty()
    } else if b[0] == 37 && b.len() >= 3 && spec_hex_val(b[1]) is Some && spec_hex_val(
        b[2],
    ) is Some {
        seq![
            ((spec_hex_val(b[1]).unwrap() as int) * 16 + spec_hex_val(b[2]).unwrap() as int) as u8,
        ] + percent_decoded(b.skip(3))
    } else {
        seq![b[0]] + percent_decoded(b.skip(1))
    }
}

/// Relies on `percent_encoding::percent_decode_str`: decodes every `%XX`
/// escape of the input's UTF-8 bytes exactly as `percent_decoded` spells it
/// out, passing everything else through.
#[verifier::external_body]
pub fn percent_decode(s: &str) -> (r: Vec<u8>)
    ensures
        r@ == percent_decoded(s.spec_bytes()),
{
    percent_encoding::percent_decode_str(s).collect()
}

/// What decoding `b` as standard-alphabet, padded base64 yields, if it is
/// well-formed.  The result depends on `b` alone.
pub uninterp spec fn base64_decoded(b: Seq<u8>) -> Option<Seq<u8>>;

/// Relies on the base64 crate's `BASE64_STANDARD` engine: decodes the
/// standard alphabet with mandatory padding, rejecting malformed input.
#[verifier::external_body]
pub fn base64_decode(b: &[u8]) -> (r: Option<Vec<u8>>)
    ensures
        match r {
            Some(v) => base64_decoded(b@) == Some(v@),
            None => base64_decoded(b@) is None,
        },
{
    base64::prelude::BASE64_STANDARD.decode(b).ok()
}

/// A URI fragment as shown to people: percent-decoded when the decoded bytes
/// are valid UTF-8, verbatim otherwise.
pub open spec fn spec_display_name(f: Seq<char>) -> Seq<char> {
    if valid_utf8(percent_decoded(vstd::utf8::encode_utf8(f))) {
        decode_utf8(percent_decoded(vstd::utf8::encode_utf8(f)))
    } else {
        f
    }
}

/// Turns a URI fragment into the display name it encodes.
pub fn display_name(f: &str) -> (r: String)
    ensures
        r@ == spec_display_name(f@),
{
    let bytes = percent_decode(f);
    match utf8_to_string(bytes) {
        Some(s) => s,
        None => String::from_str(f),
    }
}

/// Relies on `String::from_utf8`: succeeds exactly on valid UTF-8, decoding
/// the bytes to their character sequence, as vstd's UTF-8 theory states it.
#[verifier::external_body]
pub fn utf8_to_string(b: Vec<u8>) -> (r: Option<String>)
    ensures
        match r {
            Some(s) => valid_utf8(b@) && s@ == decode_utf8(b@),
            None => !valid_utf8(b@),
        },
{
    String::from_utf8(b).ok()
}

} // verus!
