use vstd::prelude::*;

use crate::model::ExtraOutboundClientConfig;
use crate::ss::Shadowsocks;
use crate::trojan::Trojan;
use crate::vless::{Vless, VlessV};
use crate::ss::ShadowsocksV;
use crate::trojan::TrojanV;

verus! {

/// Why one line of a batch failed to decode.  Failures are per line and never
/// abort a batch.
#[derive(Debug, Clone, PartialEq)]
pub enum ParseError {
    InvalidFormat(String),
    FieldMissing(String),
    UnsupportedScheme(String),
    Base64DecodeError,
    Utf8Error,
}

#[verifier::ext_equal]
pub ghost enum ParseErrorV {
    InvalidFormat(Seq<char>),
    FieldMissing(Seq<char>),
    UnsupportedScheme(Seq<char>),
    Base64DecodeError,
    Utf8Error,
}

impl View for ParseError {
    type V = ParseErrorV;

    open spec fn view(&self) -> ParseErrorV {
        match self {
            ParseError::InvalidFormat(s) => ParseErrorV::InvalidFormat(s@),
            ParseError::FieldMissing(s) => ParseErrorV::FieldMissing(s@),
            ParseError::UnsupportedScheme(s) => ParseErrorV::UnsupportedScheme(s@),
            ParseError::Base64DecodeError => ParseErrorV::Base64DecodeError,
            ParseError::Utf8Error => ParseErrorV::Utf8Error,
        }
    }
}

/// One decoded share link, tagged by scheme.
#[derive(Debug, Clone, PartialEq)]
pub enum OutboundClientConfig {
    Vless(Vless),
    Shadowsocks(Shadowsocks),
    Trojan(Trojan),
}

#[verifier::ext_equal]
pub ghost enum OutboundClientConfigV {
    Vless(VlessV),
    Shadowsocks(ShadowsocksV),
    Trojan(TrojanV),
}

impl View for OutboundClientConfig {
    type V = OutboundClientConfigV;

    open spec fn view(&self) -> OutboundClientConfigV {
        match self {
            OutboundClientConfig::Vless(v) => OutboundClientConfigV::Vless(v@),
            OutboundClientConfig::Shadowsocks(s) => OutboundClientConfigV::Shadowsocks(s@),
            OutboundClientConfig::Trojan(t) => OutboundClientConfigV::Trojan(t@),
        }
    }
}

pub trait ClientConfigCommon {
    fn address(&self) -> &String;

    fn port(&self) -> u16;

    fn protocol(&self) -> &'static str;

    fn extra(&self) -> &ExtraOutboundClientConfig;
}

/// The protocol name each scheme normalizes to.
pub open spec fn spec_protocol(c: OutboundClientConfigV) -> Seq<char> {
    match c {
        OutboundClientConfigV::Vless(_) => "vless"@,
        OutboundClientConfigV::Shadowsocks(_) => "shadowsocks"@,
        OutboundClientConfigV::Trojan(_) => "trojan"@,
    }
}

pub open spec fn spec_address(c: OutboundClientConfigV) -> Seq<char> {
    match c {
        OutboundClientConfigV::Vless(v) => v.address,
        OutboundClientConfigV::Shadowsocks(s) => s.address,
        OutboundClientConfigV::Trojan(t) => t.address,
    }
}

pub open spec fn spec_port(c: OutboundClientConfigV) -> u16 {
    match c {
        OutboundClientConfigV::Vless(v) => v.port,
        OutboundClientConfigV::Shadowsocks(s) => s.port,
        OutboundClientConfigV::Trojan(t) => t.port,
    }
}

pub open spec fn spec_extra(c: OutboundClientConfigV) -> crate::model::ExtraOutboundClientConfigV {
    match c {
        OutboundClientConfigV::Vless(v) => v.extra,
        OutboundClientConfigV::Shadowsocks(s) => s.extra,
        OutboundClientConfigV::Trojan(t) => t.extra,
    }
}

impl ClientConfigCommon for OutboundClientConfig {
    fn address(&self) -> (r: &String)
        ensures
            r@ == spec_address(self@),
    {
        match self {
            OutboundClientConfig::Vless(v) => &v.address,
            OutboundClientConfig::Shadowsocks(s) => &s.address,
            OutboundClientConfig::Trojan(t) => &t.address,
        }
    }

    fn port(&self) -> (r: u16)
        ensures
            r == spec_port(self@),
    {
        match self {
            OutboundClientConfig::Vless(v) => v.port,
            OutboundClientConfig::Shadowsocks(s) => s.port,
            OutboundClientConfig::Trojan(t) => t.port,
        }
    }

    fn protocol(&self) -> (r: &'static str)
        ensures
            r@ == spec_protocol(self@),
    {
        match self {
            OutboundClientConfig::Vless(_) => "vless",
            OutboundClientConfig::Shadowsocks(_) => "shadowsocks",
            OutboundClientConfig::Trojan(_) => "trojan",
        }
    }

    fn extra(&self) -> (r: &ExtraOutboundClientConfig)
        ensures
            r@ == spec_extra(self@),
    {
        match self {
            OutboundClientConfig::Vless(v) => &v.extra,
            OutboundClientConfig::Shadowsocks(s) => &s.extra,
            OutboundClientConfig::Trojan(t) => &t.extra,
        }
    }
}

} // verus!
use vstd::string::StringExecFns;

use crate::ss::spec_parse_ss;
use crate::strutil::{spec_lines, split_lines, str_starts_with};
use crate::trojan::spec_parse_trojan;
use crate::urlparts::{split_url, url_parts_of, UrlParts, UrlPartsV};
use crate::vless::spec_parse_vless;

verus! {

// ---------------------------------------------------------------------------
// Scheme dispatch and batch parsing.  A batch never fails as a whole: each
// line is decoded independently and the failures are dropped.
// ---------------------------------------------------------------------------

pub open spec fn spec_has_prefix(s: Seq<char>, p: Seq<char>) -> bool {
    p.len() <= s.len() && s.subrange(0, p.len() as int) == p
}

/// A line is recognized as a proxy link when it starts like one of the known
/// schemes, parseable into a descriptor or not.
pub open spec fn spec_is_supported_scheme(l: Seq<char>) -> bool {
    spec_has_prefix(l, "vless"@) || spec_has_prefix(l, "vmess"@) || spec_has_prefix(l, "ss"@)
        || spec_has_prefix(l, "hysteria"@) || spec_has_prefix(l, "trojan"@)
}

/// Recognizes the link schemes this system routes as proxy links.
pub fn is_supported_scheme(line: &str) -> (r: bool)
    ensures
        r == spec_is_supported_scheme(line@),
{
    str_starts_with(line, "vless") || str_starts_with(line, "vmess") || str_starts_with(line, "ss")
        || str_starts_with(line, "hysteria") || str_starts_with(line, "trojan")
}

/// What dispatching one URI on its scheme yields: `vless`, `ss` and `trojan`
/// decode; every other scheme is unsupported.
pub open spec fn spec_parse_parts(p: UrlPartsV) -> Result<OutboundClientConfigV, ParseErrorV> {
    if p.scheme == "vless"@ {
        match spec_parse_vless(p) {
            Ok(v) => Ok(OutboundClientConfigV::Vless(v)),
            Err(e) => Err(e),
        }
    } else if p.scheme == "ss"@ {
        match spec_parse_ss(p) {
            Ok(v) => Ok(OutboundClientConfigV::Shadowsocks(v)),
            Err(e) => Err(e),
        }
    } else if p.scheme == "trojan"@ {
        match spec_parse_trojan(p) {
            Ok(v) => Ok(OutboundClientConfigV::Trojan(v)),
            Err(e) => Err(e),
        }
    } else {
        Err(ParseErrorV::UnsupportedScheme(p.scheme))
    }
}

/// What one line of a batch yields: its descriptor, or why it was dropped.
pub open spec fn spec_line_result(line: Seq<char>) -> Result<OutboundClientConfigV, ParseErrorV> {
    match url_parts_of(line) {
        None => Err(ParseErrorV::InvalidFormat(line)),
        Some(p) => spec_parse_parts(p),
    }
}

/// Dispatches one split URI on its scheme.
pub fn parse_line(parts: &UrlParts) -> (r: Result<OutboundClientConfig, ParseError>)
    ensures
        match r {
            Ok(c) => spec_parse_parts(parts@) matches Ok(cv) && c@ == cv,
            Err(e) => spec_parse_parts(parts@) matches Err(ev) && e@ == ev,
        },
{
    if crate::strutil::str_eq(parts.scheme.as_str(), "vless") {
        match crate::vless::Vless::parse(parts) {
            Ok(v) => Ok(OutboundClientConfig::Vless(v)),
            Err(e) => Err(e),
        }
    } else if crate::strutil::str_eq(parts.scheme.as_str(), "ss") {
        match crate::ss::Shadowsocks::parse(parts) {
            Ok(v) => Ok(OutboundClientConfig::Shadowsocks(v)),
            Err(e) => Err(e),
        }
    } else if crate::strutil::str_eq(parts.scheme.as_str(), "trojan") {
        match crate::trojan::Trojan::parse(parts) {
            Ok(v) => Ok(OutboundClientConfig::Trojan(v)),
            Err(e) => Err(e),
        }
    } else {
        Err(ParseError::UnsupportedScheme(parts.scheme.clone()))
    }
}

/// The descriptors of the lines that decode, in order, failures dropped.
pub open spec fn spec_batch(lines: Seq<Seq<char>>) -> Seq<OutboundClientConfigV>
    decreases lines.len(),
{
    if lines.len() == 0 {
        Seq::empty()
    } else {
        match spec_line_result(lines[0]) {
            Ok(c) => seq![c] + spec_batch(lines.drop_first()),
            Err(_) => spec_batch(lines.drop_first()),
        }
    }
}

/// How many of the lines decode.
pub open spec fn spec_ok_count(lines: Seq<Seq<char>>) -> nat
    decreases lines.len(),
{
    if lines.len() == 0 {
        0
    } else {
        (if spec_line_result(lines[0]) is Ok {
            1nat
        } else {
            0nat
        }) + spec_ok_count(lines.drop_first())
    }
}

/// A batch of N decodable lines among M yields exactly N descriptors,
/// whatever the other lines hold.
pub proof fn lemma_batch_count(lines: Seq<Seq<char>>)
    ensures
        spec_batch(lines).len() == spec_ok_count(lines),
    decreases lines.len(),
{
    if lines.len() > 0 {
        lemma_batch_count(lines.drop_first());
    }
}

/// Decodes every line of a payload that will decode; never fails as a whole.
pub fn work(payload: &str) -> (r: Result<Vec<OutboundClientConfig>, ()>)
    ensures
        r matches Ok(cs) && cs@.map_values(|c: OutboundClientConfig| c@) == spec_batch(
            spec_lines(payload@),
        ),
        r matches Ok(cs) && cs@.len() == spec_ok_count(spec_lines(payload@)),
{
    let lines = split_lines(payload);
    let ghost lv = lines.deep_view();
    let mut configs: Vec<OutboundClientConfig> = Vec::new();
    let mut i: usize = 0;
    proof {
        assert(lv.skip(0) =~= lv);
        assert(configs@.map_values(|c: OutboundClientConfig| c@) =~= Seq::<
            OutboundClientConfigV,
        >::empty());
    }
    while i < lines.len()
        invariant
            i <= lines@.len(),
            lv == lines.deep_view(),
            spec_batch(lv) == configs@.map_values(|c: OutboundClientConfig| c@) + spec_batch(
                lv.skip(i as int),
            ),
        decreases lines@.len() - i,
    {
        let line = &lines[i];
        let ghost pre = configs@.map_values(|c: OutboundClientConfig| c@);
        proof {
            assert(lv.skip(i as int)[0] == line@);
            assert(lv.skip(i as int).drop_first() =~= lv.skip(i + 1));
        }
        match split_url(line.as_str()) {
            Some(parts) => {
                match parse_line(&parts) {
                    Ok(config) => {
                        let ghost cv = config@;
                        configs.push(config);
                        proof {
                            assert(configs@.map_values(|c: OutboundClientConfig| c@) =~= pre
                                + seq![cv]);
                            assert(pre + spec_batch(lv.skip(i as int)) =~= configs@.map_values(
                                |c: OutboundClientConfig| c@,
                            ) + spec_batch(lv.skip(i + 1)));
                        }
                    },
                    Err(_) => {},
                }
            },
            None => {},
        }
        i = i + 1;
    }
    proof {
        assert(lv.skip(lines@.len() as int).len() == 0);
        assert(spec_batch(lv) =~= configs@.map_values(|c: OutboundClientConfig| c@));
        lemma_batch_count(lv);
    }
    Ok(configs)
}

} // verus!
