use vstd::prelude::*;
use vstd::string::StringExecFns;

use serde_json::Value;

use crate::document::XrayFileCore;
use crate::jser::JMap;
use crate::jsonval::{
    jv_arr_get, jv_arr_len, jv_arr_push, jv_as_str, jv_clone, jv_is_arr, jv_is_obj, jv_new_arr,
    jv_new_obj, jv_obj_get, jv_obj_insert, jv_string, vmodel, JModel,
};
use crate::numstr::{dec_str, u64_to_string};
use crate::strutil::str_eq;

verus! {

// ---------------------------------------------------------------------------
// Selector synchronization: the balancer selector lists under
// `routing.balancers[].selector` and the observatory `subjectSelector` list
// are kept equal to the current set of active outbound tags.  `add` is a
// union that keeps order and never duplicates, `remove` a set difference,
// `set` a wholesale replacement.
// ---------------------------------------------------------------------------

/// The tags' string forms.
pub open spec fn spec_id_strs(ids: Seq<u64>) -> Seq<Seq<char>> {
    ids.map_values(|n: u64| dec_str(n as nat))
}

/// Appends each id's string once: ids already present keep their place, new
/// ones go to the end in order, and nothing is duplicated.
pub open spec fn spec_sel_add(sel: Seq<JModel>, ids: Seq<Seq<char>>) -> Seq<JModel>
    decreases ids.len(),
{
    if ids.len() == 0 {
        sel
    } else {
        let next = if sel.contains(JModel::Str(ids[0])) {
            sel
        } else {
            sel.push(JModel::Str(ids[0]))
        };
        spec_sel_add(next, ids.drop_first())
    }
}

/// Drops every element whose string is one of the ids; anything that is not a
/// string stays.
pub open spec fn spec_sel_remove(sel: Seq<JModel>, ids: Seq<Seq<char>>) -> Seq<JModel> {
    sel.filter(|j: JModel| !(j is Str && ids.contains(j->Str_0)))
}

/// The wholesale replacement.
pub open spec fn spec_sel_set(ids: Seq<Seq<char>>) -> Seq<JModel> {
    ids.map_values(|s: Seq<char>| JModel::Str(s))
}

/// Turns the ids into the tag strings the selector lists hold.
pub fn ids_to_strings(ids: &Vec<u64>) -> (r: Vec<String>)
    ensures
        r.deep_view() == spec_id_strs(ids@),
{
    let mut r: Vec<String> = Vec::new();
    let mut i: usize = 0;
    while i < ids.len()
        invariant
            i <= ids@.len(),
            r.deep_view() =~= spec_id_strs(ids@.take(i as int)),
        decreases ids@.len() - i,
    {
        let ghost pre = r.deep_view();
        r.push(u64_to_string(ids[i]));
        proof {
            assert(r.deep_view() =~= pre.push(dec_str(ids@[i as int] as nat)));
            assert(spec_id_strs(ids@.take(i + 1)) =~= spec_id_strs(ids@.take(i as int)).push(
                dec_str(ids@[i as int] as nat),
            ));
        }
        i = i + 1;
    }
    proof {
        assert(ids@.take(ids@.len() as int) =~= ids@);
    }
    r
}

fn arr_contains_str(sel: &Value, s: &str) -> (r: bool)
    requires
        vmodel(*sel) is Arr,
    ensures
        r == vmodel(*sel)->Arr_0.contains(JModel::Str(s@)),
{
    let ghost a = vmodel(*sel)->Arr_0;
    let n = jv_arr_len(sel);
    let mut i: usize = 0;
    while i < n
        invariant
            i <= n,
            vmodel(*sel) is Arr,
            a == vmodel(*sel)->Arr_0,
            n == a.len(),
            forall|m: int| 0 <= m < i ==> a[m] != JModel::Str(s@),
        decreases n - i,
    {
        let x = jv_arr_get(sel, i);
        match jv_as_str(x) {
            Some(t) => {
                if str_eq(t, s) {
                    return true;
                }
            },
            None => {},
        }
        i = i + 1;
    }
    false
}

/// Adds each id once to a selector array.
fn sel_add_ids(sel: &mut Value, ids: &Vec<String>)
    requires
        vmodel(*old(sel)) is Arr,
    ensures
        vmodel(*final(sel)) == JModel::Arr(
            spec_sel_add(vmodel(*old(sel))->Arr_0, ids.deep_view()),
        ),
{
    let ghost iv = ids.deep_view();
    let mut i: usize = 0;
    proof {
        assert(iv.skip(0) =~= iv);
    }
    while i < ids.len()
        invariant
            i <= ids@.len(),
            iv == ids.deep_view(),
            vmodel(*sel) is Arr,
            spec_sel_add(vmodel(*old(sel))->Arr_0, iv) == spec_sel_add(
                vmodel(*sel)->Arr_0,
                iv.skip(i as int),
            ),
        decreases ids@.len() - i,
    {
        let ghost pre_arr = vmodel(*sel)->Arr_0;
        proof {
            assert(iv.skip(i as int)[0] == iv[i as int]);
            assert(iv.skip(i as int).drop_first() =~= iv.skip(i + 1));
        }
        if !arr_contains_str(sel, ids[i].as_str()) {
            let x = jv_string(ids[i].as_str());
            jv_arr_push(sel, x);
            proof {
                assert(spec_sel_add(pre_arr, iv.skip(i as int)) == spec_sel_add(
                    vmodel(*sel)->Arr_0,
                    iv.skip(i + 1),
                ));
            }
        } else {
            proof {
                assert(spec_sel_add(pre_arr, iv.skip(i as int)) == spec_sel_add(
                    vmodel(*sel)->Arr_0,
                    iv.skip(i + 1),
                ));
            }
        }
        i = i + 1;
    }
    proof {
        assert(iv.skip(ids@.len() as int) =~= Seq::<Seq<char>>::empty());
    }
}

/// Drops the given ids from a selector array.
fn sel_remove_ids(sel: &Value, ids: &Vec<String>) -> (r: Value)
    requires
        vmodel(*sel) is Arr,
    ensures
        vmodel(r) == JModel::Arr(spec_sel_remove(vmodel(*sel)->Arr_0, ids.deep_view())),
{
    let ghost a = vmodel(*sel)->Arr_0;
    let ghost iv = ids.deep_view();
    let mut out = jv_new_arr();
    let n = jv_arr_len(sel);
    let mut i: usize = 0;
    proof {
        reveal(Seq::filter);
        assert(a.take(0) =~= Seq::<JModel>::empty());
        assert(spec_sel_remove(a.take(0), iv) =~= Seq::<JModel>::empty());
        assert(vmodel(out) == JModel::Arr(spec_sel_remove(a.take(0), iv)));
    }
    while i < n
        invariant
            i <= n,
            vmodel(*sel) is Arr,
            a == vmodel(*sel)->Arr_0,
            iv == ids.deep_view(),
            n == a.len(),
            vmodel(out) == JModel::Arr(spec_sel_remove(a.take(i as int), iv)),
        decreases n - i,
    {
        let x = jv_arr_get(sel, i);
        let drop = match jv_as_str(x) {
            Some(t) => contains_string(ids, t),
            None => false,
        };
        proof {
            reveal(Seq::filter);
            assert(a.take(i + 1).drop_last() =~= a.take(i as int));
            assert(a.take(i + 1).last() == a[i as int]);
            assert(drop == (a[i as int] is Str && iv.contains(a[i as int]->Str_0)));
        }
        if !drop {
            let kept = jv_clone(x);
            jv_arr_push(&mut out, kept);
            proof {
                reveal(Seq::filter);
                assert(spec_sel_remove(a.take(i + 1), iv) =~= spec_sel_remove(
                    a.take(i as int),
                    iv,
                ).push(a[i as int]));
            }
        } else {
            proof {
                reveal(Seq::filter);
                assert(spec_sel_remove(a.take(i + 1), iv) =~= spec_sel_remove(
                    a.take(i as int),
                    iv,
                ));
            }
        }
        i = i + 1;
    }
    proof {
        assert(a.take(n as int) =~= a);
    }
    out
}

fn contains_string(ids: &Vec<String>, s: &str) -> (r: bool)
    ensures
        r == ids.deep_view().contains(s@),
{
    let mut i: usize = 0;
    while i < ids.len()
        invariant
            i <= ids@.len(),
            forall|m: int| 0 <= m < i ==> ids.deep_view()[m] != s@,
        decreases ids@.len() - i,
    {
        if str_eq(ids[i].as_str(), s) {
            proof {
                assert(ids.deep_view()[i as int] == s@);
            }
            return true;
        }
        i = i + 1;
    }
    false
}

/// A selector array holding exactly the given ids, in order.
fn sel_from_ids(ids: &Vec<String>) -> (r: Value)
    ensures
        vmodel(r) == JModel::Arr(spec_sel_set(ids.deep_view())),
{
    let ghost iv = ids.deep_view();
    let mut out = jv_new_arr();
    let mut i: usize = 0;
    proof {
        assert(spec_sel_set(iv.take(0)) =~= Seq::<JModel>::empty());
    }
    while i < ids.len()
        invariant
            i <= ids@.len(),
            iv == ids.deep_view(),
            vmodel(out) == JModel::Arr(spec_sel_set(iv.take(i as int))),
        decreases ids@.len() - i,
    {
        let x = jv_string(ids[i].as_str());
        jv_arr_push(&mut out, x);
        proof {
            assert(spec_sel_set(iv.take(i + 1)) =~= spec_sel_set(iv.take(i as int)).push(
                JModel::Str(iv[i as int]),
            ));
        }
        i = i + 1;
    }
    proof {
        assert(iv.take(ids@.len() as int) =~= iv);
    }
    out
}

// ---- the observatory list ----------------------------------------------------

/// The observatory object of a document, empty when absent or malformed.
pub open spec fn spec_obs_obj(m: JMap) -> JMap {
    if m.contains_key("observatory"@) && m["observatory"@] is Obj {
        m["observatory"@]->Obj_0
    } else {
        Map::empty()
    }
}

/// Its subjectSelector list, empty when absent or malformed.
pub open spec fn spec_obs_sel(m: JMap) -> Seq<JModel> {
    let obs = spec_obs_obj(m);
    if obs.contains_key("subjectSelector"@) && obs["subjectSelector"@] is Arr {
        obs["subjectSelector"@]->Arr_0
    } else {
        Seq::empty()
    }
}

/// A document whose observatory selector was replaced by `sel`, everything
/// else untouched.
pub open spec fn spec_obs_with_sel(m: JMap, sel: Seq<JModel>) -> JMap {
    m.insert(
        "observatory"@,
        JModel::Obj(spec_obs_obj(m).insert("subjectSelector"@, JModel::Arr(sel))),
    )
}

impl XrayFileCore {
    fn observatory_selector(&self) -> (r: Value)
        requires
            self.wf(),
        ensures
            vmodel(r) == JModel::Arr(spec_obs_sel(self.doc())),
    {
        match jv_obj_get(&self.root, "observatory") {
            Some(obs) => {
                if jv_is_obj(obs) {
                    match jv_obj_get(obs, "subjectSelector") {
                        Some(sel) => {
                            if jv_is_arr(sel) {
                                jv_clone(sel)
                            } else {
                                jv_new_arr()
                            }
                        },
                        None => jv_new_arr(),
                    }
                } else {
                    jv_new_arr()
                }
            },
            None => jv_new_arr(),
        }
    }

    fn store_observatory_selector(&mut self, sel: Value)
        requires
            old(self).wf(),
        ensures
            final(self).wf(),
            final(self).xray_config_path == old(self).xray_config_path,
            vmodel(sel) is Arr ==> final(self).doc() == spec_obs_with_sel(
                old(self).doc(),
                vmodel(sel)->Arr_0,
            ),
    {
        let mut obs = match jv_obj_get(&self.root, "observatory") {
            Some(o) => {
                if jv_is_obj(o) {
                    jv_clone(o)
                } else {
                    jv_new_obj()
                }
            },
            None => jv_new_obj(),
        };
        jv_obj_insert(&mut obs, "subjectSelector", sel);
        jv_obj_insert(&mut self.root, "observatory", obs);
    }

    /// Appends each id's tag string to the observatory selector once,
    /// creating the list when missing; existing entries and their order stay.
    pub fn add_observatory_ids(&mut self, ids: &Vec<u64>)
        requires
            old(self).wf(),
        ensures
            final(self).wf(),
            final(self).xray_config_path == old(self).xray_config_path,
            final(self).doc() == spec_obs_with_sel(
                old(self).doc(),
                spec_sel_add(spec_obs_sel(old(self).doc()), spec_id_strs(ids@)),
            ),
    {
        let strs = ids_to_strings(ids);
        let mut sel = self.observatory_selector();
        sel_add_ids(&mut sel, &strs);
        self.store_observatory_selector(sel);
    }

    /// Drops each id's tag string from the observatory selector; everything
    /// else, foreign entries included, stays.  On a document without an
    /// observatory selector this leaves an empty list behind, so that the
    /// section the engine reads always exists after a sync.
    pub fn remove_observatory_ids(&mut self, ids: &Vec<u64>)
        requires
            old(self).wf(),
        ensures
            final(self).wf(),
            final(self).xray_config_path == old(self).xray_config_path,
            final(self).doc() == spec_obs_with_sel(
                old(self).doc(),
                spec_sel_remove(spec_obs_sel(old(self).doc()), spec_id_strs(ids@)),
            ),
    {
        let strs = ids_to_strings(ids);
        let cur = self.observatory_selector();
        let sel = sel_remove_ids(&cur, &strs);
        self.store_observatory_selector(sel);
    }

    /// Replaces the observatory selector wholesale with the given ids, in the
    /// given order.
    pub fn set_observatory_ids(&mut self, ids: &Vec<u64>)
        requires
            old(self).wf(),
        ensures
            final(self).wf(),
            final(self).xray_config_path == old(self).xray_config_path,
            final(self).doc() == spec_obs_with_sel(
                old(self).doc(),
                spec_sel_set(spec_id_strs(ids@)),
            ),
    {
        let strs = ids_to_strings(ids);
        let sel = sel_from_ids(&strs);
        self.store_observatory_selector(sel);
    }
}

// ---- the balancer lists --------------------------------------------------------

/// One balancer with its selector replaced; anything that is not an object is
/// left as it stands.
pub open spec fn spec_balancer_sel(j: JModel) -> Seq<JModel> {
    match j {
        JModel::Obj(b) => {
            if b.contains_key("selector"@) && b["selector"@] is Arr {
                b["selector"@]->Arr_0
            } else {
                Seq::empty()
            }
        },
        _ => Seq::empty(),
    }
}

pub open spec fn spec_balancer_with(j: JModel, sel: Seq<JModel>) -> JModel {
    match j {
        JModel::Obj(b) => JModel::Obj(b.insert("selector"@, JModel::Arr(sel))),
        _ => j,
    }
}

/// The balancer list of a document, if `routing.balancers` is an array.
pub open spec fn spec_balancers(m: JMap) -> Option<Seq<JModel>> {
    if m.contains_key("routing"@) && m["routing"@] is Obj {
        let routing = m["routing"@]->Obj_0;
        if routing.contains_key("balancers"@) && routing["balancers"@] is Arr {
            Some(routing["balancers"@]->Arr_0)
        } else {
            None
        }
    } else {
        None
    }
}

/// The document with its balancer list replaced; untouched when there is no
/// balancer list to speak of.
pub open spec fn spec_with_balancers(m: JMap, bs: Seq<JModel>) -> JMap {
    if spec_balancers(m) is Some {
        m.insert(
            "routing"@,
            JModel::Obj(m["routing"@]->Obj_0.insert("balancers"@, JModel::Arr(bs))),
        )
    } else {
        m
    }
}

impl XrayFileCore {
    /// Rewrites every balancer's selector with `f`-like update handed in as
    /// prebuilt values; shared by the three balancer operations.
    fn map_balancer_selectors(&mut self, ids: &Vec<String>, mode: u8)
        requires
            old(self).wf(),
            mode == 0 || mode == 1 || mode == 2,
        ensures
            final(self).wf(),
            final(self).xray_config_path == old(self).xray_config_path,
            final(self).doc() == spec_with_balancers(
                old(self).doc(),
                spec_balancers_updated(
                    match spec_balancers(old(self).doc()) {
                        Some(bs) => bs,
                        None => Seq::empty(),
                    },
                    ids.deep_view(),
                    mode,
                ),
            ),
    {
        let routing_val = match jv_obj_get(&self.root, "routing") {
            Some(x) => {
                if jv_is_obj(x) {
                    jv_clone(x)
                } else {
                    return ;
                }
            },
            None => {
                return ;
            },
        };
        let balancers = match jv_obj_get(&routing_val, "balancers") {
            Some(x) => {
                if jv_is_arr(x) {
                    x
                } else {
                    return ;
                }
            },
            None => {
                return ;
            },
        };
        let ghost bs = vmodel(*balancers)->Arr_0;
        let n = jv_arr_len(balancers);
        let mut rebuilt = jv_new_arr();
        let mut i: usize = 0;
        proof {
            assert(spec_balancers_updated(bs.take(0), ids.deep_view(), mode) =~= Seq::<
                JModel,
            >::empty());
        }
        while i < n
            invariant
                i <= n,
                mode == 0 || mode == 1 || mode == 2,
                vmodel(*balancers) is Arr,
                bs == vmodel(*balancers)->Arr_0,
                n == bs.len(),
                vmodel(rebuilt) == JModel::Arr(
                    spec_balancers_updated(bs.take(i as int), ids.deep_view(), mode),
                ),
            decreases n - i,
        {
            let b = jv_arr_get(balancers, i);
            let nb = if jv_is_obj(b) {
                let mut nb = jv_clone(b);
                let cur = if jv_is_obj(&nb) {
                    match jv_obj_get(&nb, "selector") {
                        Some(sel) => {
                            if jv_is_arr(sel) {
                                jv_clone(sel)
                            } else {
                                jv_new_arr()
                            }
                        },
                        None => jv_new_arr(),
                    }
                } else {
                    jv_new_arr()
                };
                let newsel = if mode == 0 {
                    let mut cur = cur;
                    sel_add_ids(&mut cur, ids);
                    cur
                } else if mode == 1 {
                    sel_remove_ids(&cur, ids)
                } else {
                    sel_from_ids(ids)
                };
                jv_obj_insert(&mut nb, "selector", newsel);
                nb
            } else {
                jv_clone(b)
            };
            jv_arr_push(&mut rebuilt, nb);
            proof {
                assert(bs.take(i + 1).drop_last() =~= bs.take(i as int));
                assert(spec_balancers_updated(bs.take(i + 1), ids.deep_view(), mode)
                    =~= spec_balancers_updated(bs.take(i as int), ids.deep_view(), mode).push(
                    spec_balancer_update(bs[i as int], ids.deep_view(), mode),
                ));
            }
            i = i + 1;
        }
        proof {
            assert(bs.take(n as int) =~= bs);
        }
        let mut routing_val = routing_val;
        jv_obj_insert(&mut routing_val, "balancers", rebuilt);
        jv_obj_insert(&mut self.root, "routing", routing_val);
    }

    /// Appends each id's tag string once to every balancer's selector.
    pub fn add_balancer_ids(&mut self, ids: &Vec<u64>)
        requires
            old(self).wf(),
        ensures
            final(self).wf(),
            final(self).xray_config_path == old(self).xray_config_path,
            final(self).doc() == spec_with_balancers(
                old(self).doc(),
                spec_balancers_updated(
                    match spec_balancers(old(self).doc()) {
                        Some(bs) => bs,
                        None => Seq::empty(),
                    },
                    spec_id_strs(ids@),
                    0,
                ),
            ),
    {
        let strs = ids_to_strings(ids);
        self.map_balancer_selectors(&strs, 0);
    }

    /// Drops each id's tag string from every balancer's selector.
    pub fn remove_balancer_ids(&mut self, ids: &Vec<u64>)
        requires
            old(self).wf(),
        ensures
            final(self).wf(),
            final(self).xray_config_path == old(self).xray_config_path,
            final(self).doc() == spec_with_balancers(
                old(self).doc(),
                spec_balancers_updated(
                    match spec_balancers(old(self).doc()) {
                        Some(bs) => bs,
                        None => Seq::empty(),
                    },
                    spec_id_strs(ids@),
                    1,
                ),
            ),
    {
        let strs = ids_to_strings(ids);
        self.map_balancer_selectors(&strs, 1);
    }

    /// Replaces every balancer's selector wholesale with the given ids.
    pub fn set_balancer_ids(&mut self, ids: &Vec<u64>)
        requires
            old(self).wf(),
        ensures
            final(self).wf(),
            final(self).xray_config_path == old(self).xray_config_path,
            final(self).doc() == spec_with_balancers(
                old(self).doc(),
                spec_balancers_updated(
                    match spec_balancers(old(self).doc()) {
                        Some(bs) => bs,
                        None => Seq::empty(),
                    },
                    spec_id_strs(ids@),
                    2,
                ),
            ),
    {
        let strs = ids_to_strings(ids);
        self.map_balancer_selectors(&strs, 2);
    }
}

/// One balancer after one of the three operations.
pub open spec fn spec_balancer_update(j: JModel, ids: Seq<Seq<char>>, mode: u8) -> JModel {
    if j is Obj {
        if mode == 0 {
            spec_balancer_with(j, spec_sel_add(spec_balancer_sel(j), ids))
        } else if mode == 1 {
            spec_balancer_with(j, spec_sel_remove(spec_balancer_sel(j), ids))
        } else {
            spec_balancer_with(j, spec_sel_set(ids))
        }
    } else {
        j
    }
}

pub open spec fn spec_balancers_updated(bs: Seq<JModel>, ids: Seq<Seq<char>>, mode: u8) -> Seq<
    JModel,
> {
    bs.map_values(|j: JModel| spec_balancer_update(j, ids, mode))
}

} // verus!
