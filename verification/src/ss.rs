use vstd::prelude::*;

use crate::codec::{
    base64_decode, base64_decoded, display_name, percent_decode, percent_decoded,
    spec_display_name, utf8_to_string,
};
use crate::model::{ExtraOutboundClientConfig, ExtraOutboundClientConfigV};
use crate::outbound::{ParseError, ParseErrorV};
use crate::strutil::{find_char_from, lemma_find_char_absent, lemma_find_char_at, spec_find_char};
use crate::urlparts::{UrlParts, UrlPartsV};

verus! {

/// Typed descriptor decoded from an `ss://` link.
#[derive(Debug, Clone, PartialEq)]
pub struct Shadowsocks {
    pub method: String,
    pub password: String,
    pub address: String,
    pub port: u16,
    pub extra: ExtraOutboundClientConfig,
}

#[verifier::ext_equal]
pub ghost struct ShadowsocksV {
    pub method: Seq<char>,
    pub password: Seq<char>,
    pub address: Seq<char>,
    pub port: u16,
    pub extra: ExtraOutboundClientConfigV,
}

impl View for Shadowsocks {
    type V = ShadowsocksV;

    open spec fn view(&self) -> ShadowsocksV {
        ShadowsocksV {
            method: self.method@,
            password: self.password@,
            address: self.address@,
            port: self.port,
            extra: self.extra@,
        }
    }
}

pub trait ShadowsocksClientConfigAccessor {
    fn method(&self) -> &String;

    fn password(&self) -> &String;

    fn network(&self) -> Option<&'static str>;
}

impl ShadowsocksClientConfigAccessor for Shadowsocks {
    fn method(&self) -> (r: &String)
        ensures
            r == &self.method,
    {
        &self.method
    }

    fn password(&self) -> (r: &String)
        ensures
            r == &self.password,
    {
        &self.password
    }

    fn network(&self) -> (r: Option<&'static str>)
        ensures
            r matches Some(s) && s@ == "tcp"@,
    {
        Some("tcp")
    }
}

} // verus!
use vstd::string::{StrSliceExecFns, StringExecFns};
use vstd::utf8::{decode_utf8, valid_utf8};

verus! {

// ---------------------------------------------------------------------------
// Parsing a shadowsocks link: the user-info is percent-decoded, then
// base64-decoded, then split on the first `:` into method and password.
// ---------------------------------------------------------------------------

/// What parsing an ss link yields from its URI components.
pub open spec fn spec_parse_ss(p: UrlPartsV) -> Result<ShadowsocksV, ParseErrorV> {
    if p.host is None {
        Err(ParseErrorV::FieldMissing("address"@))
    } else if p.port is None {
        Err(ParseErrorV::FieldMissing("port"@))
    } else {
        match base64_decoded(percent_decoded(vstd::utf8::encode_utf8(p.username))) {
            None => Err(ParseErrorV::Base64DecodeError),
            Some(b) => if !valid_utf8(b) {
                Err(ParseErrorV::Utf8Error)
            } else {
                let creds = decode_utf8(b);
                let i = spec_find_char(creds, ':');
                if i >= creds.len() {
                    Err(ParseErrorV::FieldMissing("credentials"@))
                } else {
                    Ok(
                        ShadowsocksV {
                            method: creds.take(i as int),
                            password: creds.skip(i as int + 1),
                            address: p.host->Some_0,
                            port: p.port->Some_0,
                            extra: ExtraOutboundClientConfigV {
                                client_name: match p.fragment {
                                    Some(f) => Some(spec_display_name(f)),
                                    None => None,
                                },
                            },
                        },
                    )
                }
            },
        }
    }
}

impl Shadowsocks {
    /// Decodes an ss link from its URI components.
    pub fn parse(parts: &UrlParts) -> (r: Result<Shadowsocks, ParseError>)
        ensures
            match r {
                Ok(v) => spec_parse_ss(parts@) matches Ok(vv) && v@ == vv,
                Err(e) => spec_parse_ss(parts@) matches Err(ev) && e@ == ev,
            },
    {
        let address: String = match &parts.host {
            Some(h) => h.clone(),
            None => {
                return Err(ParseError::FieldMissing(String::from_str("address")));
            },
        };
        let port: u16 = match parts.port {
            Some(p) => p,
            None => {
                return Err(ParseError::FieldMissing(String::from_str("port")));
            },
        };
        let pct = percent_decode(parts.username.as_str());
        let decoded: Vec<u8> = match base64_decode(pct.as_slice()) {
            Some(d) => d,
            None => {
                return Err(ParseError::Base64DecodeError);
            },
        };
        let ghost db = decoded@;
        let creds: String = match utf8_to_string(decoded) {
            Some(c) => c,
            None => {
                return Err(ParseError::Utf8Error);
            },
        };
        let n = creds.as_str().unicode_len();
        let i = find_char_from(creds.as_str(), 0, ':');
        proof {
            if i < n {
                lemma_find_char_at(creds@, ':', i as int);
            } else {
                lemma_find_char_absent(creds@, ':');
            }
        }
        if i >= n {
            return Err(ParseError::FieldMissing(String::from_str("credentials")));
        }
        let method = String::from_str(creds.as_str().substring_char(0, i));
        let password = String::from_str(creds.as_str().substring_char(i + 1, n));
        let client_name: Option<String> = match &parts.fragment {
            Some(f) => Some(display_name(f.as_str())),
            None => None,
        };
        let config = Shadowsocks {
            method,
            password,
            address,
            port,
            extra: ExtraOutboundClientConfig { client_name },
        };
        proof {
            assert(config@.method =~= decode_utf8(db).take(i as int));
            assert(config@.password =~= decode_utf8(db).skip(i as int + 1));
            assert(spec_parse_ss(parts@) matches Ok(vv) && config@ =~= vv);
        }
        Ok(config)
    }
}

} // verus!
