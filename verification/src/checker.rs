use vstd::prelude::*;
use vstd::string::StringExecFns;

use crate::document::{inbounds_json, outbounds_json, XrayFileCore};
use crate::jsonval::JModel;
use crate::model::{
    XrayInboundClientConfig, XrayInboundClientConfigV, XrayInboundSettings, XrayInboundSettingsV,
    XrayOutboundClientConfig, XrayOutboundClientConfigV,
};
use crate::numstr::{dec_str, u64_to_string};

verus! {

// ---------------------------------------------------------------------------
// The connectivity-checker file: the given outbounds under throwaway test
// tags, plus one local socks inbound for the checker to probe through.
// ---------------------------------------------------------------------------

/// The throwaway tag the checker file gives the outbound at position `i`.
pub open spec fn spec_test_tag(i: nat) -> Seq<char> {
    "test-outbound-"@ + dec_str(i)
}

pub open spec fn spec_test_tagged(cs: Seq<XrayOutboundClientConfigV>) -> Seq<
    XrayOutboundClientConfigV,
> {
    Seq::new(cs.len(), |i: int| XrayOutboundClientConfigV { tag: Some(spec_test_tag(i as nat)), ..cs[i] })
}

/// The one local inbound the checker probes through.
pub open spec fn spec_checker_inbound() -> XrayInboundClientConfigV {
    XrayInboundClientConfigV {
        tag: "inbound"@,
        port: 2050,
        listen: "127.0.0.1"@,
        protocol: "socks"@,
        settings: XrayInboundSettingsV { auth: "noauth"@, udp: true },
    }
}

/// Whether every outbound of a payload carries a non-empty tag.
pub open spec fn spec_all_tagged(cs: Seq<XrayOutboundClientConfigV>) -> bool {
    forall|i: int| 0 <= i < cs.len() ==> ((#[trigger] cs[i].tag) matches Some(t) && t.len() > 0)
}

/// Rejects a payload in which some outbound misses its tag or has an empty
/// one.
pub fn check_tags_exist(payload: &Vec<XrayOutboundClientConfig>) -> (r: Result<(), &'static str>)
    ensures
        (r is Ok) == spec_all_tagged(payload@.map_values(|c: XrayOutboundClientConfig| c@)),
{
    let ghost cs = payload@.map_values(|c: XrayOutboundClientConfig| c@);
    let mut i: usize = 0;
    while i < payload.len()
        invariant
            i <= payload@.len(),
            cs == payload@.map_values(|c: XrayOutboundClientConfig| c@),
            forall|m: int| 0 <= m < i ==> ((#[trigger] cs[m].tag) matches Some(t) && t.len() > 0),
        decreases payload@.len() - i,
    {
        let bad = match &payload[i].tag {
            Some(t) => t.as_str().is_empty(),
            None => true,
        };
        if bad {
            proof {
                assert(cs[i as int] == payload@[i as int]@);
                assert(!(cs[i as int].tag matches Some(t) && t.len() > 0));
                assert(!spec_all_tagged(cs));
            }
            return Err("One or more elements in the payload are missing a 'tag' or have an empty 'tag'.");
        }
        i = i + 1;
    }
    Ok(())
}

/// Crafts the checker document: the payload under test tags in `outbounds`,
/// the fixed local inbound in `inbounds`, every other section untouched.
pub fn ping(core: &mut XrayFileCore, payload: Vec<XrayOutboundClientConfig>)
    requires
        old(core).wf(),
    ensures
        final(core).wf(),
        final(core).xray_config_path == old(core).xray_config_path,
        final(core).doc() == old(core).doc().insert(
            "outbounds"@,
            JModel::Arr(
                outbounds_json(
                    spec_test_tagged(payload@.map_values(|c: XrayOutboundClientConfig| c@)),
                ),
            ),
        ).insert("inbounds"@, JModel::Arr(inbounds_json(seq![spec_checker_inbound()]))),
{
    let ghost cs = payload@.map_values(|c: XrayOutboundClientConfig| c@);
    let mut payload = payload;
    let mut tagged: Vec<XrayOutboundClientConfig> = Vec::new();
    while payload.len() > 0
        invariant
            tagged@.len() + payload@.len() == cs.len(),
            forall|m: int|
                0 <= m < payload@.len() ==> (#[trigger] payload@[m])@ == cs[tagged@.len() + m],
            tagged@.map_values(|c: XrayOutboundClientConfig| c@) =~= spec_test_tagged(cs).take(
                tagged@.len() as int,
            ),
        decreases payload@.len(),
    {
        let i = tagged.len();
        let c = payload.remove(0);
        let mut tag = String::from_str("test-outbound-");
        let num = u64_to_string(i as u64);
        tag.append(num.as_str());
        proof {
            assert(tag@ =~= spec_test_tag(i as nat));
        }
        let entry = XrayOutboundClientConfig { tag: Some(tag), ..c };
        proof {
            assert(entry@ =~= spec_test_tagged(cs)[i as int]);
        }
        let ghost pre = tagged@.map_values(|x: XrayOutboundClientConfig| x@);
        let ghost ev = entry@;
        tagged.push(entry);
        proof {
            assert(tagged@.map_values(|x: XrayOutboundClientConfig| x@) =~= pre.push(ev));
            assert(tagged@.map_values(|x: XrayOutboundClientConfig| x@) =~= spec_test_tagged(
                cs,
            ).take(i + 1));
        }
    }
    proof {
        assert(spec_test_tagged(cs).take(cs.len() as int) =~= spec_test_tagged(cs));
    }
    core.write_xray_outbounds(&tagged);
    let inbound = XrayInboundClientConfig {
        tag: String::from_str("inbound"),
        port: 2050,
        listen: String::from_str("127.0.0.1"),
        protocol: String::from_str("socks"),
        settings: XrayInboundSettings {
            auth: String::from_str("noauth"),
            udp: true,
        },
    };
    proof {
        assert(inbound@ =~= spec_checker_inbound());
    }
    let mut inbounds: Vec<XrayInboundClientConfig> = Vec::new();
    inbounds.push(inbound);
    proof {
        assert(inbounds@.map_values(|x: XrayInboundClientConfig| x@) =~= seq![
            spec_checker_inbound(),
        ]);
    }
    core.write_xray_inbounds(&inbounds);
}

} // verus!
