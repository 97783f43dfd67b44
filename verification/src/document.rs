use vstd::prelude::*;
use vstd::string::StringExecFns;

use serde_json::Value;

use crate::jser::{
    inbound_of_value, inbound_to_value, outbound_of_value, outbound_to_value, spec_engine_form,
    spec_inbound_json, spec_inbound_of_json, spec_outbound_json, spec_outbound_of_json, JMap,
};
use crate::jsonval::{
    jparse_of, jv_arr_get, jv_arr_len, jv_arr_push, jv_clone, jv_is_obj, jv_new_arr, jv_new_obj,
    jv_obj_get, jv_obj_insert, jv_obj_remove, jv_parse, jv_to_pretty, jv_as_str, vmodel, JModel,
};
use crate::model::{
    XrayInboundClientConfig, XrayInboundClientConfigV, XrayOutboundClientConfig,
    XrayOutboundClientConfigV,
};
use crate::numstr::{parse_u64_dec, spec_num_u64};

verus! {

// ---------------------------------------------------------------------------
// The engine-config document store.  A document is one JSON object with named
// top-level sections; this system only ever rewrites the sections it manages
// and passes every other key through untouched, which each contract states by
// speaking of single-key updates of the whole document map.  Reading and
// writing the file itself is the caller's: the store works on the loaded
// document.
// ---------------------------------------------------------------------------

/// The engine's config document: its file path and the loaded JSON root.
pub struct XrayFileCore {
    pub xray_config_path: String,
    pub root: Value,
}

impl XrayFileCore {
    /// The document is always an object.
    pub open spec fn wf(&self) -> bool {
        vmodel(self.root) is Obj
    }

    /// The sections of the document.
    pub open spec fn doc(&self) -> JMap {
        vmodel(self.root)->Obj_0
    }

    /// An empty document at the given path.
    pub fn new(xray_config_path: String) -> (r: XrayFileCore)
        ensures
            r.wf(),
            r.doc() == Map::<Seq<char>, JModel>::empty(),
            r.xray_config_path@ == xray_config_path@,
    {
        XrayFileCore { xray_config_path, root: jv_new_obj() }
    }

    pub fn get_path_string(&self) -> (r: String)
        ensures
            r@ == self.xray_config_path@,
    {
        self.xray_config_path.clone()
    }

    /// Replaces the document with the parse of `text`: a missing, unparsable
    /// or non-object file reads as the empty document, never as an error.
    pub fn load_document(&mut self, text: &str)
        ensures
            final(self).wf(),
            final(self).xray_config_path == old(self).xray_config_path,
            match jparse_of(text@) {
                Some(j) => final(self).doc() == (if j is Obj {
                    j->Obj_0
                } else {
                    Map::<Seq<char>, JModel>::empty()
                }),
                None => final(self).doc() == Map::<Seq<char>, JModel>::empty(),
            },
    {
        let _ = self.load_document_reporting(text);
    }

    /// `load_document`, reporting whether the text was taken as given: false
    /// means it did not parse as a JSON object and the document fell back to
    /// empty, so a caller holding a non-empty file can log the data loss
    /// instead of perpetuating it silently.
    pub fn load_document_reporting(&mut self, text: &str) -> (r: bool)
        ensures
            final(self).wf(),
            final(self).xray_config_path == old(self).xray_config_path,
            r == (jparse_of(text@) matches Some(j) && j is Obj),
            match jparse_of(text@) {
                Some(j) => final(self).doc() == (if j is Obj {
                    j->Obj_0
                } else {
                    Map::<Seq<char>, JModel>::empty()
                }),
                None => final(self).doc() == Map::<Seq<char>, JModel>::empty(),
            },
    {
        match jv_parse(text) {
            Some(v) => {
                if jv_is_obj(&v) {
                    self.root = v;
                    true
                } else {
                    self.root = jv_new_obj();
                    false
                }
            },
            None => {
                self.root = jv_new_obj();
                false
            },
        }
    }

    /// Renders the whole document.  Whenever the text parses back at all it
    /// parses to this document, and below the parser's recursion limit it is
    /// owed to: a write-then-load cycle of a document deeper than that falls
    /// back to the empty document, the known gap a corrupt file falls into.
    pub fn render(&self) -> (r: String)
        ensures
            jparse_of(r@) matches Some(j) ==> j == vmodel(self.root),
            crate::jsonval::jbounded(
                vmodel(self.root),
                (crate::jsonval::json_parse_depth() - 1) as nat,
            ) ==> jparse_of(r@) == Some(vmodel(self.root)),
    {
        jv_to_pretty(&self.root)
    }

    /// Removes one section, leaving every other key untouched.
    pub fn delete_section(&mut self, key: &str)
        requires
            old(self).wf(),
        ensures
            final(self).wf(),
            final(self).xray_config_path == old(self).xray_config_path,
            final(self).doc() == old(self).doc().remove(key@),
    {
        jv_obj_remove(&mut self.root, key);
    }

    /// The elements of a section: the empty list when the key is absent or
    /// not an array.
    pub fn get_section_values(&self, key: &str) -> (r: Vec<Value>)
        requires
            self.wf(),
        ensures
            r@.map_values(|v: Value| vmodel(v)) == spec_section(self.doc(), key@),
    {
        let mut out: Vec<Value> = Vec::new();
        let ghost target = spec_section(self.doc(), key@);
        match jv_obj_get(&self.root, key) {
            Some(sec) => {
                if crate::jsonval::jv_is_arr(sec) {
                    let n = jv_arr_len(sec);
                    let mut i: usize = 0;
                    while i < n
                        invariant
                            i <= n,
                            vmodel(*sec) is Arr,
                            n == vmodel(*sec)->Arr_0.len(),
                            out@.map_values(|v: Value| vmodel(v)) =~= vmodel(*sec)->Arr_0.take(
                                i as int,
                            ),
                        decreases n - i,
                    {
                        let x = jv_clone(jv_arr_get(sec, i));
                        let ghost pre = out@.map_values(|v: Value| vmodel(v));
                        let ghost xv = vmodel(x);
                        out.push(x);
                        proof {
                            assert(out@.map_values(|v: Value| vmodel(v)) =~= pre.push(xv));
                        }
                        i = i + 1;
                    }
                    proof {
                        assert(vmodel(*sec)->Arr_0.take(n as int) =~= vmodel(*sec)->Arr_0);
                    }
                }
            },
            None => {},
        }
        proof {
            assert(out@.map_values(|v: Value| vmodel(v)) =~= target);
        }
        out
    }

    /// Replaces one section with the given elements, leaving every other key
    /// untouched.
    pub fn set_section_values(&mut self, key: &str, items: Vec<Value>)
        requires
            old(self).wf(),
        ensures
            final(self).wf(),
            final(self).xray_config_path == old(self).xray_config_path,
            final(self).doc() == old(self).doc().insert(
                key@,
                JModel::Arr(items@.map_values(|v: Value| vmodel(v))),
            ),
    {
        let ghost iv = items@.map_values(|v: Value| vmodel(v));
        let mut arr = jv_new_arr();
        let mut items = items;
        let mut i: usize = 0;
        proof {
            assert(iv.take(0) =~= Seq::<JModel>::empty());
        }
        while i < items.len()
            invariant
                i <= items@.len(),
                iv == items@.map_values(|v: Value| vmodel(v)),
                vmodel(arr) == JModel::Arr(iv.take(i as int)),
            decreases items@.len() - i,
        {
            let x = jv_clone(&items[i]);
            jv_arr_push(&mut arr, x);
            proof {
                assert(iv.take(i + 1).drop_last() =~= iv.take(i as int));
                assert(iv.take(i + 1) =~= iv.take(i as int).push(iv[i as int]));
            }
            i = i + 1;
        }
        proof {
            assert(iv.take(items@.len() as int) =~= iv);
        }
        jv_obj_insert(&mut self.root, key, arr);
    }
}

/// The elements of one section of a document: empty when the key is absent or
/// holds anything but an array.
pub open spec fn spec_section(m: JMap, key: Seq<char>) -> Seq<JModel> {
    if m.contains_key(key) && m[key] is Arr {
        m[key]->Arr_0
    } else {
        Seq::empty()
    }
}

/// The outbounds a section's elements decode to, malformed elements dropped.
pub open spec fn spec_outbounds_read(a: Seq<JModel>) -> Seq<XrayOutboundClientConfigV>
    decreases a.len(),
{
    if a.len() == 0 {
        Seq::empty()
    } else {
        match spec_outbound_of_json(a[0]) {
            Some(c) => seq![c] + spec_outbounds_read(a.drop_first()),
            None => spec_outbounds_read(a.drop_first()),
        }
    }
}

/// The inbounds a section's elements decode to, malformed elements dropped.
pub open spec fn spec_inbounds_read(a: Seq<JModel>) -> Seq<XrayInboundClientConfigV>
    decreases a.len(),
{
    if a.len() == 0 {
        Seq::empty()
    } else {
        match spec_inbound_of_json(a[0]) {
            Some(c) => seq![c] + spec_inbounds_read(a.drop_first()),
            None => spec_inbounds_read(a.drop_first()),
        }
    }
}

pub open spec fn outbounds_json(xs: Seq<XrayOutboundClientConfigV>) -> Seq<JModel> {
    xs.map_values(|c: XrayOutboundClientConfigV| spec_outbound_json(c))
}

pub open spec fn inbounds_json(xs: Seq<XrayInboundClientConfigV>) -> Seq<JModel> {
    xs.map_values(|c: XrayInboundClientConfigV| spec_inbound_json(c))
}

/// Reading a written outbounds section yields the written outbounds, up to
/// the display metadata the file never carries: the section accessor pair is
/// a round trip.
pub proof fn lemma_outbounds_section_roundtrip(xs: Seq<XrayOutboundClientConfigV>)
    ensures
        spec_outbounds_read(outbounds_json(xs)) == xs.map_values(
            |c: XrayOutboundClientConfigV| spec_engine_form(c),
        ),
    decreases xs.len(),
{
    if xs.len() == 0 {
        assert(spec_outbounds_read(outbounds_json(xs)) =~= xs.map_values(
            |c: XrayOutboundClientConfigV| spec_engine_form(c),
        ));
    } else {
        crate::jser::lemma_outbound_roundtrip(xs[0]);
        lemma_outbounds_section_roundtrip(xs.drop_first());
        assert(outbounds_json(xs).drop_first() =~= outbounds_json(xs.drop_first()));
        assert(spec_outbounds_read(outbounds_json(xs)) =~= xs.map_values(
            |c: XrayOutboundClientConfigV| spec_engine_form(c),
        ));
    }
}

/// The same round trip for the inbounds section, with nothing lost at all.
pub proof fn lemma_inbounds_section_roundtrip(xs: Seq<XrayInboundClientConfigV>)
    ensures
        spec_inbounds_read(inbounds_json(xs)) == xs,
    decreases xs.len(),
{
    if xs.len() == 0 {
        assert(spec_inbounds_read(inbounds_json(xs)) =~= xs);
    } else {
        crate::jser::lemma_inbound_roundtrip(xs[0]);
        lemma_inbounds_section_roundtrip(xs.drop_first());
        assert(inbounds_json(xs).drop_first() =~= inbounds_json(xs.drop_first()));
        assert(spec_inbounds_read(inbounds_json(xs)) =~= xs);
    }
}

impl XrayFileCore {
    /// Reads the `outbounds` section as typed entries, dropping malformed
    /// elements rather than failing the call.
    pub fn read_xray_outbounds(&self) -> (r: Vec<XrayOutboundClientConfig>)
        requires
            self.wf(),
        ensures
            r@.map_values(|c: XrayOutboundClientConfig| c@) == spec_outbounds_read(
                spec_section(self.doc(), "outbounds"@),
            ),
    {
        let section = self.get_section_values("outbounds");
        let ghost a = section@.map_values(|v: Value| vmodel(v));
        let mut out: Vec<XrayOutboundClientConfig> = Vec::new();
        let mut i: usize = 0;
        proof {
            assert(a.skip(0) =~= a);
            assert(out@.map_values(|c: XrayOutboundClientConfig| c@) =~= Seq::<
                XrayOutboundClientConfigV,
            >::empty());
        }
        while i < section.len()
            invariant
                i <= section@.len(),
                a == section@.map_values(|v: Value| vmodel(v)),
                spec_outbounds_read(a) == out@.map_values(|c: XrayOutboundClientConfig| c@)
                    + spec_outbounds_read(a.skip(i as int)),
            decreases section@.len() - i,
        {
            let ghost pre = out@.map_values(|c: XrayOutboundClientConfig| c@);
            proof {
                assert(a.skip(i as int)[0] == a[i as int]);
                assert(a.skip(i as int).drop_first() =~= a.skip(i + 1));
            }
            match outbound_of_value(&section[i]) {
                Some(c) => {
                    let ghost cv = c@;
                    out.push(c);
                    proof {
                        assert(out@.map_values(|c: XrayOutboundClientConfig| c@) =~= pre
                            + seq![cv]);
                        assert(pre + spec_outbounds_read(a.skip(i as int)) =~= out@.map_values(
                            |c: XrayOutboundClientConfig| c@,
                        ) + spec_outbounds_read(a.skip(i + 1)));
                    }
                },
                None => {},
            }
            i = i + 1;
        }
        proof {
            assert(a.skip(section@.len() as int).len() == 0);
            assert(spec_outbounds_read(a) =~= out@.map_values(
                |c: XrayOutboundClientConfig| c@,
            ));
        }
        out
    }

    /// Replaces the `outbounds` section with the given entries, every other
    /// key untouched.
    pub fn write_xray_outbounds(&mut self, data: &Vec<XrayOutboundClientConfig>)
        requires
            old(self).wf(),
        ensures
            final(self).wf(),
            final(self).xray_config_path == old(self).xray_config_path,
            final(self).doc() == old(self).doc().insert(
                "outbounds"@,
                JModel::Arr(
                    outbounds_json(data@.map_values(|c: XrayOutboundClientConfig| c@)),
                ),
            ),
    {
        let ghost dv = data@.map_values(|c: XrayOutboundClientConfig| c@);
        let mut items: Vec<Value> = Vec::new();
        let mut i: usize = 0;
        proof {
            assert(outbounds_json(dv.take(0)) =~= Seq::<JModel>::empty());
            assert(items@.map_values(|v: Value| vmodel(v)) =~= outbounds_json(dv.take(0)));
        }
        while i < data.len()
            invariant
                i <= data@.len(),
                dv == data@.map_values(|c: XrayOutboundClientConfig| c@),
                items@.map_values(|v: Value| vmodel(v)) == outbounds_json(dv.take(i as int)),
            decreases data@.len() - i,
        {
            let x = outbound_to_value(&data[i]);
            let ghost pre = items@.map_values(|v: Value| vmodel(v));
            let ghost xv = vmodel(x);
            items.push(x);
            proof {
                assert(items@.map_values(|v: Value| vmodel(v)) =~= pre.push(xv));
                assert(outbounds_json(dv.take(i + 1)) =~= outbounds_json(dv.take(i as int)).push(
                    spec_outbound_json(dv[i as int]),
                ));
            }
            i = i + 1;
        }
        proof {
            assert(dv.take(data@.len() as int) =~= dv);
        }
        self.set_section_values("outbounds", items);
    }

    /// Reads the `inbounds` section as typed entries, dropping malformed
    /// elements.
    pub fn read_xray_inbounds(&self) -> (r: Vec<XrayInboundClientConfig>)
        requires
            self.wf(),
        ensures
            r@.map_values(|c: XrayInboundClientConfig| c@) == spec_inbounds_read(
                spec_section(self.doc(), "inbounds"@),
            ),
    {
        let section = self.get_section_values("inbounds");
        let ghost a = section@.map_values(|v: Value| vmodel(v));
        let mut out: Vec<XrayInboundClientConfig> = Vec::new();
        let mut i: usize = 0;
        proof {
            assert(a.skip(0) =~= a);
            assert(out@.map_values(|c: XrayInboundClientConfig| c@) =~= Seq::<
                XrayInboundClientConfigV,
            >::empty());
        }
        while i < section.len()
            invariant
                i <= section@.len(),
                a == section@.map_values(|v: Value| vmodel(v)),
                spec_inbounds_read(a) == out@.map_values(|c: XrayInboundClientConfig| c@)
                    + spec_inbounds_read(a.skip(i as int)),
            decreases section@.len() - i,
        {
            let ghost pre = out@.map_values(|c: XrayInboundClientConfig| c@);
            proof {
                assert(a.skip(i as int)[0] == a[i as int]);
                assert(a.skip(i as int).drop_first() =~= a.skip(i + 1));
            }
            match inbound_of_value(&section[i]) {
                Some(c) => {
                    let ghost cv = c@;
                    out.push(c);
                    proof {
                        assert(out@.map_values(|c: XrayInboundClientConfig| c@) =~= pre
                            + seq![cv]);
                        assert(pre + spec_inbounds_read(a.skip(i as int)) =~= out@.map_values(
                            |c: XrayInboundClientConfig| c@,
                        ) + spec_inbounds_read(a.skip(i + 1)));
                    }
                },
                None => {},
            }
            i = i + 1;
        }
        proof {
            assert(a.skip(section@.len() as int).len() == 0);
            assert(spec_inbounds_read(a) =~= out@.map_values(
                |c: XrayInboundClientConfig| c@,
            ));
        }
        out
    }

    /// Replaces the `inbounds` section, every other key untouched.
    pub fn write_xray_inbounds(&mut self, data: &Vec<XrayInboundClientConfig>)
        requires
            old(self).wf(),
        ensures
            final(self).wf(),
            final(self).xray_config_path == old(self).xray_config_path,
            final(self).doc() == old(self).doc().insert(
                "inbounds"@,
                JModel::Arr(inbounds_json(data@.map_values(|c: XrayInboundClientConfig| c@))),
            ),
    {
        let ghost dv = data@.map_values(|c: XrayInboundClientConfig| c@);
        let mut items: Vec<Value> = Vec::new();
        let mut i: usize = 0;
        proof {
            assert(inbounds_json(dv.take(0)) =~= Seq::<JModel>::empty());
            assert(items@.map_values(|v: Value| vmodel(v)) =~= inbounds_json(dv.take(0)));
        }
        while i < data.len()
            invariant
                i <= data@.len(),
                dv == data@.map_values(|c: XrayInboundClientConfig| c@),
                items@.map_values(|v: Value| vmodel(v)) == inbounds_json(dv.take(i as int)),
            decreases data@.len() - i,
        {
            let x = inbound_to_value(&data[i]);
            let ghost pre = items@.map_values(|v: Value| vmodel(v));
            let ghost xv = vmodel(x);
            items.push(x);
            proof {
                assert(items@.map_values(|v: Value| vmodel(v)) =~= pre.push(xv));
                assert(inbounds_json(dv.take(i + 1)) =~= inbounds_json(dv.take(i as int)).push(
                    spec_inbound_json(dv[i as int]),
                ));
            }
            i = i + 1;
        }
        proof {
            assert(dv.take(data@.len() as int) =~= dv);
        }
        self.set_section_values("inbounds", items);
    }
}

} // verus!

verus! {

// ---------------------------------------------------------------------------
// Tag-based outbound identity.  Every entry this system writes carries a tag
// holding the decimal form of its persistent id; an entry without such a tag
// is foreign and is never touched by id-based deletion.
// ---------------------------------------------------------------------------

/// The id an entry's tag denotes, if the entry is an object whose `tag` is a
/// canonical decimal string.
pub open spec fn spec_tag_id(j: JModel) -> Option<u64> {
    match j {
        JModel::Obj(m) => {
            if m.contains_key("tag"@) && m["tag"@] is Str {
                spec_num_u64(m["tag"@]->Str_0)
            } else {
                None
            }
        },
        _ => None,
    }
}

/// Whether id-based deletion keeps an entry: everything but an entry whose
/// tag denotes one of the given ids survives.
pub open spec fn spec_keeps(ids: Seq<u64>) -> spec_fn(JModel) -> bool {
    |j: JModel| !(spec_tag_id(j) matches Some(t) && ids.contains(t))
}

/// The outbounds section after deleting the given ids.
pub open spec fn spec_delete_ids(a: Seq<JModel>, ids: Seq<u64>) -> Seq<JModel> {
    a.filter(spec_keeps(ids))
}

/// The whole document after deleting the given ids from `outbounds`: only
/// that section changes, and only when it is an array.
pub open spec fn spec_after_delete(m: JMap, ids: Seq<u64>) -> JMap {
    if m.contains_key("outbounds"@) && m["outbounds"@] is Arr {
        m.insert("outbounds"@, JModel::Arr(spec_delete_ids(m["outbounds"@]->Arr_0, ids)))
    } else {
        m
    }
}

fn contains_u64(ids: &Vec<u64>, x: u64) -> (r: bool)
    ensures
        r == ids@.contains(x),
{
    let mut i: usize = 0;
    while i < ids.len()
        invariant
            i <= ids@.len(),
            forall|m: int| 0 <= m < i ==> ids@[m] != x,
        decreases ids@.len() - i,
    {
        if ids[i] == x {
            return true;
        }
        i = i + 1;
    }
    false
}

/// Reads an entry's tag as an id, exactly when the entry is an object whose
/// tag is a canonical decimal string.
fn tag_id_of_value(v: &Value) -> (r: Option<u64>)
    ensures
        r == spec_tag_id(vmodel(*v)),
{
    if !jv_is_obj(v) {
        return None;
    }
    match jv_obj_get(v, "tag") {
        Some(t) => match jv_as_str(t) {
            Some(s) => parse_u64_dec(s),
            None => None,
        },
        None => None,
    }
}

impl XrayFileCore {
    /// Removes from `outbounds` every entry whose tag denotes one of the
    /// given ids.  Entries with a missing or non-numeric tag are foreign and
    /// pass through; every other section is untouched.
    pub fn delete_outbounds_by_ids(&mut self, ids: &Vec<u64>)
        requires
            old(self).wf(),
        ensures
            final(self).wf(),
            final(self).xray_config_path == old(self).xray_config_path,
            final(self).doc() == spec_after_delete(old(self).doc(), ids@),
    {
        let has_arr = match jv_obj_get(&self.root, "outbounds") {
            Some(sec) => crate::jsonval::jv_is_arr(sec),
            None => false,
        };
        if !has_arr {
            return ;
        }
        let section = self.get_section_values("outbounds");
        let ghost a = section@.map_values(|v: Value| vmodel(v));
        let mut kept: Vec<Value> = Vec::new();
        let mut i: usize = 0;
        proof {
            assert(a.take(0) =~= Seq::<JModel>::empty());
            assert(kept@.map_values(|v: Value| vmodel(v)) =~= spec_delete_ids(a.take(0), ids@));
        }
        while i < section.len()
            invariant
                i <= section@.len(),
                a == section@.map_values(|v: Value| vmodel(v)),
                kept@.map_values(|v: Value| vmodel(v)) == spec_delete_ids(a.take(i as int), ids@),
            decreases section@.len() - i,
        {
            let keep = match tag_id_of_value(&section[i]) {
                Some(t) => !contains_u64(ids, t),
                None => true,
            };
            proof {
                assert(a.take(i + 1).drop_last() =~= a.take(i as int));
                assert(a.take(i + 1).last() == a[i as int]);
                assert(keep == spec_keeps(ids@)(a[i as int]));
            }
            if keep {
                let x = jv_clone(&section[i]);
                let ghost pre = kept@.map_values(|v: Value| vmodel(v));
                let ghost xv = vmodel(x);
                kept.push(x);
                proof {
                    reveal(Seq::filter);
                    assert(kept@.map_values(|v: Value| vmodel(v)) =~= pre.push(xv));
                    assert(spec_delete_ids(a.take(i + 1), ids@) =~= spec_delete_ids(
                        a.take(i as int),
                        ids@,
                    ).push(a[i as int]));
                }
            } else {
                proof {
                    reveal(Seq::filter);
                    assert(spec_delete_ids(a.take(i + 1), ids@) =~= spec_delete_ids(
                        a.take(i as int),
                        ids@,
                    ));
                }
            }
            i = i + 1;
        }
        proof {
            assert(a.take(section@.len() as int) =~= a);
        }
        self.set_section_values("outbounds", kept);
        proof {
            assert(final(self).doc() =~= spec_after_delete(old(self).doc(), ids@));
        }
    }

    /// Removes the one entry the given id tags, if it is there.
    pub fn delete_xray_outbound_by_id(&mut self, id: u64)
        requires
            old(self).wf(),
        ensures
            final(self).wf(),
            final(self).xray_config_path == old(self).xray_config_path,
            final(self).doc() == spec_after_delete(old(self).doc(), seq![id]),
    {
        let mut ids: Vec<u64> = Vec::new();
        ids.push(id);
        proof {
            assert(ids@ =~= seq![id]);
        }
        self.delete_outbounds_by_ids(&ids);
    }
}

/// Filtering twice with one predicate filters once.
proof fn lemma_filter_idempotent(a: Seq<JModel>, pred: spec_fn(JModel) -> bool)
    ensures
        a.filter(pred).filter(pred) == a.filter(pred),
    decreases a.len(),
{
    reveal(Seq::filter);
    if a.len() == 0 {
        assert(a.filter(pred).filter(pred) =~= a.filter(pred));
    } else {
        lemma_filter_idempotent(a.drop_last(), pred);
        let sub = a.drop_last().filter(pred);
        if pred(a.last()) {
            assert(a.filter(pred) == sub.push(a.last()));
            assert(sub.push(a.last()).drop_last() =~= sub);
            assert(sub.push(a.last()).last() == a.last());
            assert(sub.push(a.last()).filter(pred) == sub.push(a.last()).drop_last().filter(
                pred,
            ).push(a.last()));
            assert(sub.push(a.last()).drop_last().filter(pred) == sub.filter(pred));
            assert(sub.filter(pred) == sub);
            assert(a.filter(pred).filter(pred) =~= a.filter(pred));
        } else {
            assert(a.filter(pred) == sub);
            assert(a.filter(pred).filter(pred) =~= a.filter(pred));
        }
    }
}

/// A filter that keeps everything changes nothing.
proof fn lemma_filter_all_kept(a: Seq<JModel>, pred: spec_fn(JModel) -> bool)
    requires
        forall|i: int| 0 <= i < a.len() ==> pred(#[trigger] a[i]),
    ensures
        a.filter(pred) == a,
    decreases a.len(),
{
    reveal(Seq::filter);
    if a.len() > 0 {
        assert(forall|i: int| 0 <= i < a.drop_last().len() ==> pred(#[trigger] a.drop_last()[i]));
        lemma_filter_all_kept(a.drop_last(), pred);
        assert(pred(a.last())) by {
            assert(a.last() == a[a.len() - 1]);
        }
        assert(a.filter(pred) == a.drop_last().filter(pred).push(a.last()));
        assert(a.drop_last().push(a.last()) =~= a);
        assert(a.filter(pred) =~= a);
    } else {
        assert(a.filter(pred) =~= a);
    }
}

/// Deleting an id set is idempotent: a second deletion with the same ids
/// leaves the document as the first left it.
pub proof fn lemma_delete_idempotent(m: JMap, ids: Seq<u64>)
    requires
        m.contains_key("outbounds"@) ==> m["outbounds"@] is Arr,
    ensures
        spec_after_delete(spec_after_delete(m, ids), ids) == spec_after_delete(m, ids),
{
    if m.contains_key("outbounds"@) && m["outbounds"@] is Arr {
        let a = m["outbounds"@]->Arr_0;
        lemma_filter_idempotent(a, spec_keeps(ids));
        let m1 = spec_after_delete(m, ids);
        assert(m1["outbounds"@] == JModel::Arr(spec_delete_ids(a, ids)));
        assert(spec_after_delete(m1, ids) =~= m1);
    }
}

/// Deleting ids that tag no entry is a no-op on the document.
pub proof fn lemma_delete_absent_ids(m: JMap, ids: Seq<u64>)
    requires
        m.contains_key("outbounds"@) ==> m["outbounds"@] is Arr,
        forall|i: int|
            0 <= i < spec_section(m, "outbounds"@).len() ==> !(spec_tag_id(
                #[trigger] spec_section(m, "outbounds"@)[i],
            ) matches Some(t) && ids.contains(t)),
    ensures
        spec_after_delete(m, ids) == m,
{
    if m.contains_key("outbounds"@) && m["outbounds"@] is Arr {
        let a = m["outbounds"@]->Arr_0;
        assert(a == spec_section(m, "outbounds"@));
        assert forall|i: int| 0 <= i < a.len() implies spec_keeps(ids)(#[trigger] a[i]) by {
            assert(!(spec_tag_id(spec_section(m, "outbounds"@)[i]) matches Some(t)
                && ids.contains(t)));
        }
        lemma_filter_all_kept(a, spec_keeps(ids));
        assert(spec_after_delete(m, ids) =~= m);
    }
}

} // verus!
