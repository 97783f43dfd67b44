use vstd::prelude::*;
use vstd::string::{StrSliceExecFns, StringExecFns};
use vstd::utf8::{decode_utf8, valid_utf8};

use crate::canonical::spec_canonical;
use crate::codec::{base64_decode, base64_decoded, utf8_to_string};
use crate::model::{XrayOutboundClientConfig, XrayOutboundClientConfigV};
use crate::outbound::{
    spec_batch, spec_is_supported_scheme, work, is_supported_scheme, OutboundClientConfig,
    ParseError, ParseErrorV, spec_has_prefix,
};
use crate::strutil::spec_lines;

verus! {

// ---------------------------------------------------------------------------
// Whole-payload handling: classifying a blob as raw links, base64, or a URL
// to fetch, and decoding the text forms into canonical outbounds.
// ---------------------------------------------------------------------------

pub open spec fn spec_is_ascii_ws(c: char) -> bool {
    c == ' ' || c == '\t' || c == '\r' || c == '\n'
}

pub open spec fn spec_trim_start(s: Seq<char>) -> Seq<char>
    decreases s.len(),
{
    if s.len() > 0 && spec_is_ascii_ws(s[0]) {
        spec_trim_start(s.drop_first())
    } else {
        s
    }
}

pub open spec fn spec_trim_end(s: Seq<char>) -> Seq<char>
    decreases s.len(),
{
    if s.len() > 0 && spec_is_ascii_ws(s.last()) {
        spec_trim_end(s.drop_last())
    } else {
        s
    }
}

/// `s` without leading and trailing ASCII whitespace.
pub open spec fn spec_trim(s: Seq<char>) -> Seq<char> {
    spec_trim_end(spec_trim_start(s))
}

fn is_ascii_ws(c: char) -> (r: bool)
    ensures
        r == spec_is_ascii_ws(c),
{
    c == ' ' || c == '\t' || c == '\r' || c == '\n'
}

/// Strips leading and trailing ASCII whitespace.
pub fn trim_ascii(s: &str) -> (r: String)
    ensures
        r@ == spec_trim(s@),
{
    let n = s.unicode_len();
    let mut a: usize = 0;
    proof {
        assert(s@.skip(0) =~= s@);
    }
    while a < n && is_ascii_ws(s.get_char(a))
        invariant
            a <= n,
            n == s@.len(),
            spec_trim_start(s@) == spec_trim_start(s@.skip(a as int)),
        decreases n - a,
    {
        proof {
            assert(s@.skip(a as int).drop_first() =~= s@.skip(a + 1));
        }
        a = a + 1;
    }
    let mut b: usize = n;
    proof {
        assert(spec_trim_start(s@) =~= s@.skip(a as int));
        assert(s@.skip(a as int).take(n - a) =~= s@.skip(a as int));
    }
    while b > a && is_ascii_ws(s.get_char(b - 1))
        invariant
            a <= b <= n,
            n == s@.len(),
            spec_trim_start(s@) == s@.skip(a as int),
            spec_trim_end(s@.skip(a as int)) == spec_trim_end(
                s@.skip(a as int).take(b - a as int),
            ),
        decreases b,
    {
        proof {
            assert(s@.skip(a as int).take(b - a as int).last() == s@[b - 1]);
            assert(s@.skip(a as int).take(b - a as int).drop_last() =~= s@.skip(a as int).take(
                b - 1 - a as int,
            ));
        }
        b = b - 1;
    }
    proof {
        if b > a {
            assert(s@.skip(a as int).take(b - a as int).last() == s@[b - 1]);
        }
        assert(spec_trim(s@) =~= s@.subrange(a as int, b as int));
    }
    String::from_str(s.substring_char(a, b))
}

/// How a raw payload is to be treated: links as given, a base64 blob to
/// decode first, or a URL whose fetched body holds the links.
#[derive(Debug, Clone, PartialEq, Eq)]
pub enum ConfigType {
    RAW,
    BASE64,
    URL,
}

/// The classification a payload gets: scheme-prefixed text is raw, an
/// http(s)-prefixed one is a URL to fetch, a blob that base64-decodes whole
/// is base64, and anything else is rejected.  Text that merely happens to be
/// valid base64 is misclassified by construction; the classification is
/// syntactic only.
pub open spec fn spec_config_type(s: Seq<char>, sb: Seq<u8>) -> Result<ConfigType, ParseErrorV> {
    if spec_is_supported_scheme(s) {
        Ok(ConfigType::RAW)
    } else if spec_has_prefix(spec_trim(s), "http"@) {
        Ok(ConfigType::URL)
    } else if base64_decoded(sb) is Some {
        Ok(ConfigType::BASE64)
    } else {
        Err(ParseErrorV::InvalidFormat(s))
    }
}

/// Classifies a payload.  The base64 test decodes the trimmed payload; `sb`
/// in the contract names those trimmed bytes.
pub fn determine_config_type(config: &str) -> (r: Result<ConfigType, ParseError>)
    ensures
        ({
            let sb = vstd::utf8::encode_utf8(spec_trim(config@));
            match r {
                Ok(t) => spec_config_type(config@, sb) == Ok::<ConfigType, ParseErrorV>(t),
                Err(e) => spec_config_type(config@, sb) == Err::<
                    ConfigType,
                    ParseErrorV,
                >(e@),
            }
        }),
{
    if is_supported_scheme(config) {
        return Ok(ConfigType::RAW);
    }
    let trimmed = trim_ascii(config);
    if crate::strutil::str_starts_with(trimmed.as_str(), "http") {
        return Ok(ConfigType::URL);
    }
    let bytes = trimmed.as_str().as_bytes_vec();
    match base64_decode(bytes.as_slice()) {
        Some(_) => Ok(ConfigType::BASE64),
        None => Err(ParseError::InvalidFormat(String::from_str(config))),
    }
}

/// What decoding a whole payload from base64 yields: the decoded text when
/// the trimmed payload is well-formed base64 of UTF-8 bytes, the trimmed
/// payload itself when it is not base64 at all, and a decode failure only
/// when it is base64 of something that is not text.
pub open spec fn spec_decoded_payload(s: Seq<char>) -> Result<Seq<char>, ParseErrorV> {
    let t = spec_trim(s);
    match base64_decoded(vstd::utf8::encode_utf8(t)) {
        Some(b) => if valid_utf8(b) {
            Ok(decode_utf8(b))
        } else {
            Err(ParseErrorV::Utf8Error)
        },
        None => Ok(t),
    }
}

/// Decodes a payload that may be a base64 wrapping of its text form.
pub fn decode_config_from_base64(payload: &str) -> (r: Result<String, ParseError>)
    ensures
        match r {
            Ok(s) => spec_decoded_payload(payload@) == Ok::<Seq<char>, ParseErrorV>(s@),
            Err(e) => spec_decoded_payload(payload@) == Err::<Seq<char>, ParseErrorV>(e@),
        },
{
    let body = trim_ascii(payload);
    let bytes = body.as_str().as_bytes_vec();
    match base64_decode(bytes.as_slice()) {
        Some(decoded) => {
            match utf8_to_string(decoded) {
                Some(text) => Ok(text),
                None => Err(ParseError::Utf8Error),
            }
        },
        None => Ok(body),
    }
}

/// The canonical outbounds of a batch payload.
pub open spec fn spec_canonical_batch(text: Seq<char>) -> Seq<XrayOutboundClientConfigV> {
    spec_batch(spec_lines(text)).map_values(|c| spec_canonical(c))
}

/// Normalizes every descriptor a payload's lines decode to.
pub fn parse_payload_text(text: &str) -> (r: Vec<XrayOutboundClientConfig>)
    ensures
        r@.map_values(|c: XrayOutboundClientConfig| c@) == spec_canonical_batch(text@),
{
    let configs = match work(text) {
        Ok(cs) => cs,
        Err(()) => Vec::new(),
    };
    let ghost cv = configs@.map_values(|c: OutboundClientConfig| c@);
    let mut out: Vec<XrayOutboundClientConfig> = Vec::new();
    let mut i: usize = 0;
    while i < configs.len()
        invariant
            i <= configs@.len(),
            cv == configs@.map_values(|c: OutboundClientConfig| c@),
            out@.map_values(|c: XrayOutboundClientConfig| c@) =~= cv.take(i as int).map_values(
                |c| spec_canonical(c),
            ),
        decreases configs@.len() - i,
    {
        let x = XrayOutboundClientConfig::new(&configs[i]);
        proof {
            assert(cv[i as int] == configs@[i as int]@);
            assert(x@ == spec_canonical(cv[i as int]));
        }
        let ghost pre = out@.map_values(|c: XrayOutboundClientConfig| c@);
        let ghost xv = x@;
        out.push(x);
        proof {
            assert(out@.map_values(|c: XrayOutboundClientConfig| c@) =~= pre + seq![xv]);
            assert(cv.take(i + 1).drop_last() =~= cv.take(i as int));
            assert(cv.take(i + 1)[i as int] == cv[i as int]);
            assert(out@.map_values(|c: XrayOutboundClientConfig| c@) =~= cv.take(i + 1).map_values(
                |c| spec_canonical(c),
            ));
        }
        i = i + 1;
    }
    proof {
        assert(cv.take(configs@.len() as int) =~= cv);
    }
    out
}

} // verus!
