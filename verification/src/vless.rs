use vstd::prelude::*;

use crate::codec::{percent_decode, utf8_to_string};
use crate::model::{
    tls_none, ExtraOutboundClientConfig, ExtraOutboundClientConfigV, GRPCSettings, GRPCSettingsV,
    RealitySettings, RealitySettingsV, TlsSettings, TlsSettingsV, User, UserV,
};
use crate::outbound::{ParseError, ParseErrorV};
use crate::urlparts::{query_get, spec_query_get, UrlParts, UrlPartsV};

verus! {

/// Typed descriptor decoded from a `vless://` link.
#[derive(Debug, Clone, PartialEq)]
pub struct Vless {
    pub user: User,
    pub address: String,
    pub port: u16,
    pub transport: String,
    pub security: Option<String>,
    pub path: Option<String>,
    pub host: Option<String>,
    pub reality: Option<RealitySettings>,
    pub grpc: Option<GRPCSettings>,
    pub tls: Option<TlsSettings>,
    pub extra: ExtraOutboundClientConfig,
}

#[verifier::ext_equal]
pub ghost struct VlessV {
    pub user: UserV,
    pub address: Seq<char>,
    pub port: u16,
    pub transport: Seq<char>,
    pub security: Option<Seq<char>>,
    pub path: Option<Seq<char>>,
    pub host: Option<Seq<char>>,
    pub reality: Option<RealitySettingsV>,
    pub grpc: Option<GRPCSettingsV>,
    pub tls: Option<TlsSettingsV>,
    pub extra: ExtraOutboundClientConfigV,
}

impl View for Vless {
    type V = VlessV;

    open spec fn view(&self) -> VlessV {
        VlessV {
            user: self.user@,
            address: self.address@,
            port: self.port,
            transport: self.transport@,
            security: self.security.deep_view(),
            path: self.path.deep_view(),
            host: self.host.deep_view(),
            reality: match self.reality {
                Some(r) => Some(r@),
                None => None,
            },
            grpc: match self.grpc {
                Some(g) => Some(g@),
                None => None,
            },
            tls: match self.tls {
                Some(t) => Some(t@),
                None => None,
            },
            extra: self.extra@,
        }
    }
}

pub trait VlessClientConfigAccessor {
    fn user(&self) -> Option<&User>;

    fn name(&self) -> Option<&String>;

    fn security(&self) -> Option<&String>;

    fn transport(&self) -> Option<&String>;

    fn reality_settings(&self) -> Option<&RealitySettings>;

    fn grpc_settings(&self) -> Option<&GRPCSettings>;

    fn tls_settings(&self) -> Option<&TlsSettings>;
}

impl VlessClientConfigAccessor for Vless {
    fn user(&self) -> (r: Option<&User>)
        ensures
            r == Some(&self.user),
    {
        Some(&self.user)
    }

    fn name(&self) -> (r: Option<&String>)
        ensures
            (r is Some) == (self.extra.client_name is Some),
            r matches Some(x) ==> self.extra.client_name == Some(*x),
    {
        self.extra.client_name.as_ref()
    }

    fn security(&self) -> (r: Option<&String>)
        ensures
            (r is Some) == (self.security is Some),
            r matches Some(x) ==> self.security == Some(*x),
    {
        self.security.as_ref()
    }

    fn transport(&self) -> (r: Option<&String>)
        ensures
            r == Some(&self.transport),
    {
        Some(&self.transport)
    }

    fn reality_settings(&self) -> (r: Option<&RealitySettings>)
        ensures
            (r is Some) == (self.reality is Some),
            r matches Some(x) ==> self.reality == Some(*x),
    {
        self.reality.as_ref()
    }

    fn grpc_settings(&self) -> (r: Option<&GRPCSettings>)
        ensures
            (r is Some) == (self.grpc is Some),
            r matches Some(x) ==> self.grpc == Some(*x),
    {
        self.grpc.as_ref()
    }

    fn tls_settings(&self) -> (r: Option<&TlsSettings>)
        ensures
            (r is Some) == (self.tls is Some),
            r matches Some(x) ==> self.tls == Some(*x),
    {
        self.tls.as_ref()
    }
}

} // verus!
use vstd::string::StringExecFns;

verus! {

// ---------------------------------------------------------------------------
// Parsing a vless link from its URI components.  `spec_parse_vless` is the
// definition; `Vless::parse` computes it.
// ---------------------------------------------------------------------------

/// The fingerprint named by the `fp` query key, `"chrome"` when absent.
pub open spec fn spec_vless_fingerprint(q: Seq<(Seq<char>, Seq<char>)>) -> Seq<char> {
    match spec_query_get(q, "fp"@) {
        Some(f) => f,
        None => "chrome"@,
    }
}

/// The grpc block, present exactly when a `mode` key is: multi-mode when the
/// mode is `multi`, a `serviceName` kept only when non-empty, and the fixed
/// keep-alive parameters every parsed outbound carries.
pub open spec fn spec_vless_grpc(q: Seq<(Seq<char>, Seq<char>)>) -> Option<GRPCSettingsV> {
    match spec_query_get(q, "mode"@) {
        Some(mode) => Some(
            GRPCSettingsV {
                service_name: match spec_query_get(q, "serviceName"@) {
                    Some(sn) => if sn.len() == 0 {
                        None
                    } else {
                        Some(sn)
                    },
                    None => None,
                },
                multi_mode: mode == "multi"@,
                idle_timeout: Some(60u64),
                health_check_timeout: Some(20u64),
                permit_without_stream: Some(true),
                initial_windows_size: Some(35536u64),
            },
        ),
        None => None,
    }
}

/// The reality block, present exactly when `pbk`, `sni` and `sid` all are.
pub open spec fn spec_vless_reality(q: Seq<(Seq<char>, Seq<char>)>) -> Option<RealitySettingsV> {
    match (spec_query_get(q, "pbk"@), spec_query_get(q, "sni"@), spec_query_get(q, "sid"@)) {
        (Some(pbk), Some(sni), Some(sid)) => Some(
            RealitySettingsV {
                fingerprint: Some(spec_vless_fingerprint(q)),
                spider_x: spec_query_get(q, "spx"@),
                public_key: pbk,
                server_name: sni,
                short_id: sid,
            },
        ),
        _ => None,
    }
}

/// The tls block, present exactly when `sni` is, independent of reality.
pub open spec fn spec_vless_tls(q: Seq<(Seq<char>, Seq<char>)>) -> Option<TlsSettingsV> {
    match spec_query_get(q, "sni"@) {
        Some(sni) => Some(
            TlsSettingsV {
                server_name: Some(sni),
                fingerprint: Some(spec_vless_fingerprint(q)),
                ..tls_none()
            },
        ),
        None => None,
    }
}

/// What parsing a vless link yields from its URI components: the user id,
/// address, port and transport are required; everything else is optional with
/// the defaults spelled out above.
pub open spec fn spec_parse_vless(p: UrlPartsV) -> Result<VlessV, ParseErrorV> {
    if p.username.len() == 0 {
        Err(ParseErrorV::FieldMissing("user_id"@))
    } else if p.host is None {
        Err(ParseErrorV::FieldMissing("address"@))
    } else if p.port is None {
        Err(ParseErrorV::FieldMissing("port"@))
    } else if spec_query_get(p.query, "type"@) is None {
        Err(ParseErrorV::FieldMissing("type"@))
    } else {
        Ok(
            VlessV {
                user: UserV {
                    id: p.username,
                    encryption: match spec_query_get(p.query, "encryption"@) {
                        Some(e) => e,
                        None => "none"@,
                    },
                    flow: spec_query_get(p.query, "flow"@),
                },
                address: p.host->Some_0,
                port: p.port->Some_0,
                transport: spec_query_get(p.query, "type"@)->Some_0,
                security: spec_query_get(p.query, "security"@),
                path: spec_query_get(p.query, "path"@),
                host: spec_query_get(p.query, "host"@),
                reality: spec_vless_reality(p.query),
                grpc: spec_vless_grpc(p.query),
                tls: spec_vless_tls(p.query),
                extra: ExtraOutboundClientConfigV {
                    client_name: match p.fragment {
                        Some(f) => Some(crate::codec::spec_display_name(f)),
                        None => None,
                    },
                },
            },
        )
    }
}

impl Vless {
    /// Decodes a vless link from its URI components.
    pub fn parse(parts: &UrlParts) -> (r: Result<Vless, ParseError>)
        ensures
            match r {
                Ok(v) => spec_parse_vless(parts@) matches Ok(vv) && v@ == vv,
                Err(e) => spec_parse_vless(parts@) matches Err(ev) && e@ == ev,
            },
    {
        if parts.username.as_str().is_empty() {
            return Err(ParseError::FieldMissing(String::from_str("user_id")));
        }
        let address: String = match &parts.host {
            Some(h) => h.clone(),
            None => {
                return Err(ParseError::FieldMissing(String::from_str("address")));
            },
        };
        let port: u16 = match parts.port {
            Some(p) => p,
            None => {
                return Err(ParseError::FieldMissing(String::from_str("port")));
            },
        };
        let transport: String = match query_get(&parts.query, "type") {
            Some(t) => t.clone(),
            None => {
                return Err(ParseError::FieldMissing(String::from_str("type")));
            },
        };
        let flow: Option<String> = match query_get(&parts.query, "flow") {
            Some(f) => Some(f.clone()),
            None => None,
        };
        let encryption: String = match query_get(&parts.query, "encryption") {
            Some(e) => e.clone(),
            None => String::from_str("none"),
        };
        let fingerprint: String = match query_get(&parts.query, "fp") {
            Some(f) => f.clone(),
            None => String::from_str("chrome"),
        };
        let grpc: Option<GRPCSettings> = match query_get(&parts.query, "mode") {
            Some(mode) => {
                let multi_mode = crate::strutil::str_eq(mode.as_str(), "multi");
                let service_name: Option<String> = match query_get(&parts.query, "serviceName") {
                    Some(sn) => if sn.as_str().is_empty() {
                        None
                    } else {
                        Some(sn.clone())
                    },
                    None => None,
                };
                Some(
                    GRPCSettings {
                        service_name,
                        multi_mode,
                        idle_timeout: Some(60),
                        health_check_timeout: Some(20),
                        permit_without_stream: Some(true),
                        initial_windows_size: Some(35536),
                    },
                )
            },
            None => None,
        };
        let spx: Option<String> = match query_get(&parts.query, "spx") {
            Some(s) => Some(s.clone()),
            None => None,
        };
        let reality: Option<RealitySettings> = match (
            query_get(&parts.query, "pbk"),
            query_get(&parts.query, "sni"),
            query_get(&parts.query, "sid"),
        ) {
            (Some(pbk), Some(sni), Some(sid)) => Some(
                RealitySettings {
                    fingerprint: Some(fingerprint.clone()),
                    spider_x: spx,
                    public_key: pbk.clone(),
                    server_name: sni.clone(),
                    short_id: sid.clone(),
                },
            ),
            _ => None,
        };
        let tls: Option<TlsSettings> = match query_get(&parts.query, "sni") {
            Some(sni) => Some(
                TlsSettings::from_sni_fp(Some(sni.clone()), Some(fingerprint.clone())),
            ),
            None => None,
        };
        let client_name: Option<String> = match &parts.fragment {
            Some(f) => Some(crate::codec::display_name(f.as_str())),
            None => None,
        };
        let security: Option<String> = match query_get(&parts.query, "security") {
            Some(s) => Some(s.clone()),
            None => None,
        };
        let path: Option<String> = match query_get(&parts.query, "path") {
            Some(s) => Some(s.clone()),
            None => None,
        };
        let host: Option<String> = match query_get(&parts.query, "host") {
            Some(s) => Some(s.clone()),
            None => None,
        };
        let config = Vless {
            user: User { id: parts.username.clone(), encryption, flow },
            address,
            port,
            transport,
            security,
            path,
            host,
            reality,
            grpc,
            tls,
            extra: ExtraOutboundClientConfig { client_name },
        };
        proof {
            assert(spec_parse_vless(parts@) matches Ok(vv) && config@ =~= vv);
        }
        Ok(config)
    }
}

} // verus!
