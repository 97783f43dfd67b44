use vstd::prelude::*;

use crate::model::{
    tls_none, ExtraOutboundClientConfig, ExtraOutboundClientConfigV, TlsSettings, TlsSettingsV,
};
use crate::outbound::{ParseError, ParseErrorV};
use crate::urlparts::{query_get, spec_query_get, UrlParts, UrlPartsV};

verus! {

/// Typed descriptor decoded from a `trojan://` link.
#[derive(Debug, Clone, PartialEq)]
pub struct Trojan {
    pub address: String,
    pub port: u16,
    pub password: String,
    pub flow: Option<String>,
    pub network: Option<String>,
    pub security: Option<String>,
    pub path: Option<String>,
    pub host: Option<String>,
    pub tls: Option<TlsSettings>,
    pub extra: ExtraOutboundClientConfig,
}

#[verifier::ext_equal]
pub ghost struct TrojanV {
    pub address: Seq<char>,
    pub port: u16,
    pub password: Seq<char>,
    pub flow: Option<Seq<char>>,
    pub network: Option<Seq<char>>,
    pub security: Option<Seq<char>>,
    pub path: Option<Seq<char>>,
    pub host: Option<Seq<char>>,
    pub tls: Option<TlsSettingsV>,
    pub extra: ExtraOutboundClientConfigV,
}

impl View for Trojan {
    type V = TrojanV;

    open spec fn view(&self) -> TrojanV {
        TrojanV {
            address: self.address@,
            port: self.port,
            password: self.password@,
            flow: self.flow.deep_view(),
            network: self.network.deep_view(),
            security: self.security.deep_view(),
            path: self.path.deep_view(),
            host: self.host.deep_view(),
            tls: match self.tls {
                Some(t) => Some(t@),
                None => None,
            },
            extra: self.extra@,
        }
    }
}

pub trait TrojanClientConfigAccessor {
    fn flow(&self) -> Option<&String>;

    fn password(&self) -> &String;

    fn network(&self) -> Option<&String>;

    fn security(&self) -> Option<&String>;

    fn path(&self) -> Option<&String>;

    fn host(&self) -> Option<&String>;

    fn tls(&self) -> Option<&TlsSettings>;
}

impl TrojanClientConfigAccessor for Trojan {
    fn flow(&self) -> (r: Option<&String>)
        ensures
            (r is Some) == (self.flow is Some),
            r matches Some(x) ==> self.flow == Some(*x),
    {
        self.flow.as_ref()
    }

    fn password(&self) -> (r: &String)
        ensures
            r == &self.password,
    {
        &self.password
    }

    fn network(&self) -> (r: Option<&String>)
        ensures
            (r is Some) == (self.network is Some),
            r matches Some(x) ==> self.network == Some(*x),
    {
        self.network.as_ref()
    }

    fn security(&self) -> (r: Option<&String>)
        ensures
            (r is Some) == (self.security is Some),
            r matches Some(x) ==> self.security == Some(*x),
    {
        self.security.as_ref()
    }

    fn path(&self) -> (r: Option<&String>)
        ensures
            (r is Some) == (self.path is Some),
            r matches Some(x) ==> self.path == Some(*x),
    {
        self.path.as_ref()
    }

    fn host(&self) -> (r: Option<&String>)
        ensures
            (r is Some) == (self.host is Some),
            r matches Some(x) ==> self.host == Some(*x),
    {
        self.host.as_ref()
    }

    fn tls(&self) -> (r: Option<&TlsSettings>)
        ensures
            (r is Some) == (self.tls is Some),
            r matches Some(x) ==> self.tls == Some(*x),
    {
        self.tls.as_ref()
    }
}

} // verus!
use vstd::string::StringExecFns;

verus! {

// ---------------------------------------------------------------------------
// Parsing a trojan link: the user-info is the password verbatim; a tls block
// is built only when the link says `security=tls`.
// ---------------------------------------------------------------------------

/// The tls block of a trojan link: present exactly when `security` is `tls`,
/// carrying whatever `sni` and `fp` the link supplied.
pub open spec fn spec_trojan_tls(q: Seq<(Seq<char>, Seq<char>)>) -> Option<TlsSettingsV> {
    if spec_query_get(q, "security"@) == Some("tls"@) {
        Some(
            TlsSettingsV {
                server_name: spec_query_get(q, "sni"@),
                fingerprint: spec_query_get(q, "fp"@),
                ..tls_none()
            },
        )
    } else {
        None
    }
}

/// What parsing a trojan link yields from its URI components: address and
/// port are required, the password is the user-info verbatim, the transport
/// defaults to `tcp`.
pub open spec fn spec_parse_trojan(p: UrlPartsV) -> Result<TrojanV, ParseErrorV> {
    if p.host is None {
        Err(ParseErrorV::FieldMissing("address"@))
    } else if p.port is None {
        Err(ParseErrorV::FieldMissing("port"@))
    } else {
        Ok(
            TrojanV {
                address: p.host->Some_0,
                port: p.port->Some_0,
                password: p.username,
                flow: spec_query_get(p.query, "flow"@),
                network: match spec_query_get(p.query, "type"@) {
                    Some(t) => Some(t),
                    None => Some("tcp"@),
                },
                security: spec_query_get(p.query, "security"@),
                path: spec_query_get(p.query, "path"@),
                host: spec_query_get(p.query, "host"@),
                tls: spec_trojan_tls(p.query),
                extra: ExtraOutboundClientConfigV {
                    client_name: match p.fragment {
                        Some(f) => Some(crate::codec::spec_display_name(f)),
                        None => None,
                    },
                },
            },
        )
    }
}

impl Trojan {
    /// Decodes a trojan link from its URI components.
    pub fn parse(parts: &UrlParts) -> (r: Result<Trojan, ParseError>)
        ensures
            match r {
                Ok(v) => spec_parse_trojan(parts@) matches Ok(vv) && v@ == vv,
                Err(e) => spec_parse_trojan(parts@) matches Err(ev) && e@ == ev,
            },
    {
        let address: String = match &parts.host {
            Some(h) => h.clone(),
            None => {
                return Err(ParseError::FieldMissing(String::from_str("address")));
            },
        };
        let port: u16 = match parts.port {
            Some(p) => p,
            None => {
                return Err(ParseError::FieldMissing(String::from_str("port")));
            },
        };
        let flow: Option<String> = match query_get(&parts.query, "flow") {
            Some(f) => Some(f.clone()),
            None => None,
        };
        let network: String = match query_get(&parts.query, "type") {
            Some(t) => t.clone(),
            None => String::from_str("tcp"),
        };
        let security: Option<String> = match query_get(&parts.query, "security") {
            Some(s) => Some(s.clone()),
            None => None,
        };
        let path: Option<String> = match query_get(&parts.query, "path") {
            Some(s) => Some(s.clone()),
            None => None,
        };
        let host: Option<String> = match query_get(&parts.query, "host") {
            Some(s) => Some(s.clone()),
            None => None,
        };
        let sni: Option<String> = match query_get(&parts.query, "sni") {
            Some(s) => Some(s.clone()),
            None => None,
        };
        let fingerprint: Option<String> = match query_get(&parts.query, "fp") {
            Some(s) => Some(s.clone()),
            None => None,
        };
        let tls_on = match &security {
            Some(s) => crate::strutil::str_eq(s.as_str(), "tls"),
            None => false,
        };
        let tls: Option<TlsSettings> = if tls_on {
            Some(TlsSettings::from_sni_fp(sni, fingerprint))
        } else {
            None
        };
        let client_name: Option<String> = match &parts.fragment {
            Some(f) => Some(crate::codec::display_name(f.as_str())),
            None => None,
        };
        let config = Trojan {
            address,
            port,
            password: parts.username.clone(),
            flow,
            network: Some(network),
            security,
            path,
            host,
            tls,
            extra: ExtraOutboundClientConfig { client_name },
        };
        proof {
            assert(spec_parse_trojan(parts@) matches Ok(vv) && config@ =~= vv);
        }
        Ok(config)
    }
}

} // verus!
