use vstd::prelude::*;
use vstd::string::StringExecFns;

use serde_json::Value;

use crate::jsonval::{
    jbounded, jv_as_bool, jv_as_str, jv_as_u64, jv_bool, jv_new_arr, jv_new_obj, jv_null,
    jv_num_u64, jv_obj_get, jv_obj_insert, jv_string, jv_arr_get, jv_arr_len, jv_arr_push, JModel,
    vmodel,
};
use crate::model::{
    GRPCSettings, GRPCSettingsV, RealitySettings, RealitySettingsV, Settings, SettingsV,
    ShadowsocksServer, ShadowsocksServerV, StreamSettings, StreamSettingsV, TlsSettings,
    TlsSettingsV, User, UserV, VNext, VNextV, MuxSettings, MuxSettingsV,
    XrayInboundClientConfig, XrayInboundClientConfigV, XrayInboundSettings, XrayInboundSettingsV,
    XrayOutboundClientConfig, XrayOutboundClientConfigV,
};
use crate::numstr::{dec_str, spec_num_u64, u64_to_string, parse_u64_dec};

verus! {

// ---------------------------------------------------------------------------
// Rendering typed outbound and inbound models into JSON and reading them
// back.  The snake-case fields map to the engine's camelCase names through
// the fixed table spelled out in the `spec_*_json` functions; an absent
// optional field is omitted, not emitted as null, except where the engine
// shape historically carried nulls (the grpc keep-alive numbers and the mux
// concurrency).
// ---------------------------------------------------------------------------

pub type JMap = Map<Seq<char>, JModel>;

// ---- spec-side builders ----------------------------------------------------

pub open spec fn with_str(m: JMap, k: Seq<char>, v: Seq<char>) -> JMap {
    m.insert(k, JModel::Str(v))
}

pub open spec fn with_opt_str(m: JMap, k: Seq<char>, o: Option<Seq<char>>) -> JMap {
    match o {
        Some(s) => m.insert(k, JModel::Str(s)),
        None => m,
    }
}

pub open spec fn with_bool(m: JMap, k: Seq<char>, b: bool) -> JMap {
    m.insert(k, JModel::Bool(b))
}

pub open spec fn with_opt_bool(m: JMap, k: Seq<char>, o: Option<bool>) -> JMap {
    match o {
        Some(b) => m.insert(k, JModel::Bool(b)),
        None => m,
    }
}

pub open spec fn with_num(m: JMap, k: Seq<char>, n: u64) -> JMap {
    m.insert(k, JModel::Num(dec_str(n as nat)))
}

/// A numeric field the engine shape carries even when absent: null then.
pub open spec fn with_num_or_null(m: JMap, k: Seq<char>, o: Option<u64>) -> JMap {
    match o {
        Some(n) => m.insert(k, JModel::Num(dec_str(n as nat))),
        None => m.insert(k, JModel::Null),
    }
}

pub open spec fn with_bool_or_null(m: JMap, k: Seq<char>, o: Option<bool>) -> JMap {
    match o {
        Some(b) => m.insert(k, JModel::Bool(b)),
        None => m.insert(k, JModel::Null),
    }
}

pub open spec fn strs_json(a: Seq<Seq<char>>) -> Seq<JModel> {
    a.map_values(|s: Seq<char>| JModel::Str(s))
}

pub open spec fn with_opt_strs(m: JMap, k: Seq<char>, o: Option<Seq<Seq<char>>>) -> JMap {
    match o {
        Some(a) => m.insert(k, JModel::Arr(strs_json(a))),
        None => m,
    }
}

// ---- spec-side readers -----------------------------------------------------

/// A required string field: its characters, or nothing on a missing key or a
/// wrong shape.
pub open spec fn get_str(m: JMap, k: Seq<char>) -> Option<Seq<char>> {
    if m.contains_key(k) && m[k] is Str {
        Some(m[k]->Str_0)
    } else {
        None
    }
}

/// An optional string field: absent and null read as `None`; a wrong shape is
/// a type error, read as nothing.
pub open spec fn get_opt_str(m: JMap, k: Seq<char>) -> Option<Option<Seq<char>>> {
    if !m.contains_key(k) || m[k] is Null {
        Some(None)
    } else if m[k] is Str {
        Some(Some(m[k]->Str_0))
    } else {
        None
    }
}

pub open spec fn get_bool(m: JMap, k: Seq<char>) -> Option<bool> {
    if m.contains_key(k) && m[k] is Bool {
        Some(m[k]->Bool_0)
    } else {
        None
    }
}

pub open spec fn get_opt_bool(m: JMap, k: Seq<char>) -> Option<Option<bool>> {
    if !m.contains_key(k) || m[k] is Null {
        Some(None)
    } else if m[k] is Bool {
        Some(Some(m[k]->Bool_0))
    } else {
        None
    }
}

pub open spec fn get_u64(m: JMap, k: Seq<char>) -> Option<u64> {
    if m.contains_key(k) && m[k] is Num {
        spec_num_u64(m[k]->Num_0)
    } else {
        None
    }
}

pub open spec fn get_opt_u64(m: JMap, k: Seq<char>) -> Option<Option<u64>> {
    if !m.contains_key(k) || m[k] is Null {
        Some(None)
    } else if m[k] is Num && spec_num_u64(m[k]->Num_0) is Some {
        Some(spec_num_u64(m[k]->Num_0))
    } else {
        None
    }
}

pub open spec fn all_strs(a: Seq<JModel>) -> bool {
    forall|i: int| 0 <= i < a.len() ==> a[i] is Str
}

pub open spec fn strs_of_json(a: Seq<JModel>) -> Option<Seq<Seq<char>>> {
    if all_strs(a) {
        Some(Seq::new(a.len(), |i: int| a[i]->Str_0))
    } else {
        None
    }
}

pub open spec fn get_opt_strs(m: JMap, k: Seq<char>) -> Option<Option<Seq<Seq<char>>>> {
    if !m.contains_key(k) || m[k] is Null {
        Some(None)
    } else if m[k] is Arr && strs_of_json(m[k]->Arr_0) is Some {
        Some(strs_of_json(m[k]->Arr_0))
    } else {
        None
    }
}

/// Rendering then reading a string array is the identity.
pub proof fn lemma_strs_roundtrip(a: Seq<Seq<char>>)
    ensures
        strs_of_json(strs_json(a)) == Some(a),
{
    assert(all_strs(strs_json(a)));
    assert(strs_of_json(strs_json(a)).unwrap() =~= a);
}

// ---- exec-side builders ----------------------------------------------------

pub fn put_str(o: &mut Value, k: &str, s: &str)
    requires
        vmodel(*old(o)) is Obj,
    ensures
        vmodel(*final(o)) == JModel::Obj(with_str(vmodel(*old(o))->Obj_0, k@, s@)),
{
    let x = jv_string(s);
    jv_obj_insert(o, k, x);
}

pub fn put_opt_str(o: &mut Value, k: &str, s: &Option<String>)
    requires
        vmodel(*old(o)) is Obj,
    ensures
        vmodel(*final(o)) == JModel::Obj(with_opt_str(vmodel(*old(o))->Obj_0, k@, s.deep_view())),
{
    match s {
        Some(v) => {
            let x = jv_string(v.as_str());
            jv_obj_insert(o, k, x);
        },
        None => {},
    }
}

pub fn put_bool(o: &mut Value, k: &str, b: bool)
    requires
        vmodel(*old(o)) is Obj,
    ensures
        vmodel(*final(o)) == JModel::Obj(with_bool(vmodel(*old(o))->Obj_0, k@, b)),
{
    let x = jv_bool(b);
    jv_obj_insert(o, k, x);
}

pub fn put_opt_bool(o: &mut Value, k: &str, b: &Option<bool>)
    requires
        vmodel(*old(o)) is Obj,
    ensures
        vmodel(*final(o)) == JModel::Obj(with_opt_bool(vmodel(*old(o))->Obj_0, k@, *b)),
{
    match b {
        Some(v) => {
            let x = jv_bool(*v);
            jv_obj_insert(o, k, x);
        },
        None => {},
    }
}

pub fn put_num(o: &mut Value, k: &str, n: u64)
    requires
        vmodel(*old(o)) is Obj,
    ensures
        vmodel(*final(o)) == JModel::Obj(with_num(vmodel(*old(o))->Obj_0, k@, n)),
{
    let x = jv_num_u64(n);
    jv_obj_insert(o, k, x);
}

pub fn put_num_or_null(o: &mut Value, k: &str, n: &Option<u64>)
    requires
        vmodel(*old(o)) is Obj,
    ensures
        vmodel(*final(o)) == JModel::Obj(with_num_or_null(vmodel(*old(o))->Obj_0, k@, *n)),
{
    let x = match n {
        Some(v) => jv_num_u64(*v),
        None => jv_null(),
    };
    jv_obj_insert(o, k, x);
}

pub fn put_bool_or_null(o: &mut Value, k: &str, b: &Option<bool>)
    requires
        vmodel(*old(o)) is Obj,
    ensures
        vmodel(*final(o)) == JModel::Obj(with_bool_or_null(vmodel(*old(o))->Obj_0, k@, *b)),
{
    let x = match b {
        Some(v) => jv_bool(*v),
        None => jv_null(),
    };
    jv_obj_insert(o, k, x);
}

pub fn strs_to_value(a: &Vec<String>) -> (r: Value)
    ensures
        vmodel(r) == JModel::Arr(strs_json(a.deep_view())),
{
    let mut r = jv_new_arr();
    let mut i: usize = 0;
    proof {
        assert(strs_json(a.deep_view().take(0)) =~= Seq::<JModel>::empty());
    }
    while i < a.len()
        invariant
            i <= a@.len(),
            vmodel(r) == JModel::Arr(strs_json(a.deep_view().take(i as int))),
        decreases a@.len() - i,
    {
        let x = jv_string(a[i].as_str());
        jv_arr_push(&mut r, x);
        proof {
            assert(a.deep_view().take(i + 1).drop_last() =~= a.deep_view().take(i as int));
            assert(strs_json(a.deep_view().take(i + 1)) =~= strs_json(
                a.deep_view().take(i as int),
            ).push(JModel::Str(a@[i as int]@)));
        }
        i = i + 1;
    }
    proof {
        assert(a.deep_view().take(a@.len() as int) =~= a.deep_view());
    }
    r
}

pub fn put_opt_strs(o: &mut Value, k: &str, a: &Option<Vec<String>>)
    requires
        vmodel(*old(o)) is Obj,
    ensures
        vmodel(*final(o)) == JModel::Obj(with_opt_strs(vmodel(*old(o))->Obj_0, k@, a.deep_view())),
{
    match a {
        Some(v) => {
            let x = strs_to_value(v);
            jv_obj_insert(o, k, x);
        },
        None => {},
    }
}

// ---- exec-side readers -----------------------------------------------------

pub fn read_str(v: &Value, k: &str) -> (r: Option<String>)
    requires
        vmodel(*v) is Obj,
    ensures
        match r {
            Some(s) => get_str(vmodel(*v)->Obj_0, k@) == Some(s@),
            None => get_str(vmodel(*v)->Obj_0, k@) is None,
        },
{
    match jv_obj_get(v, k) {
        Some(x) => match jv_as_str(x) {
            Some(s) => Some(String::from_str(s)),
            None => None,
        },
        None => None,
    }
}

pub fn read_opt_str(v: &Value, k: &str) -> (r: Option<Option<String>>)
    requires
        vmodel(*v) is Obj,
    ensures
        match r {
            Some(o) => get_opt_str(vmodel(*v)->Obj_0, k@) == Some(o.deep_view()),
            None => get_opt_str(vmodel(*v)->Obj_0, k@) is None,
        },
{
    match jv_obj_get(v, k) {
        Some(x) => {
            if crate::jsonval::jv_is_null(x) {
                Some(None)
            } else {
                match jv_as_str(x) {
                    Some(s) => Some(Some(String::from_str(s))),
                    None => None,
                }
            }
        },
        None => Some(None),
    }
}

pub fn read_bool(v: &Value, k: &str) -> (r: Option<bool>)
    requires
        vmodel(*v) is Obj,
    ensures
        r == get_bool(vmodel(*v)->Obj_0, k@),
{
    match jv_obj_get(v, k) {
        Some(x) => jv_as_bool(x),
        None => None,
    }
}

pub fn read_opt_bool(v: &Value, k: &str) -> (r: Option<Option<bool>>)
    requires
        vmodel(*v) is Obj,
    ensures
        r == get_opt_bool(vmodel(*v)->Obj_0, k@),
{
    match jv_obj_get(v, k) {
        Some(x) => {
            if crate::jsonval::jv_is_null(x) {
                Some(None)
            } else {
                match jv_as_bool(x) {
                    Some(b) => Some(Some(b)),
                    None => None,
                }
            }
        },
        None => Some(None),
    }
}

pub fn read_u64(v: &Value, k: &str) -> (r: Option<u64>)
    requires
        vmodel(*v) is Obj,
    ensures
        r == get_u64(vmodel(*v)->Obj_0, k@),
{
    match jv_obj_get(v, k) {
        Some(x) => jv_as_u64(x),
        None => None,
    }
}

pub fn read_opt_u64(v: &Value, k: &str) -> (r: Option<Option<u64>>)
    requires
        vmodel(*v) is Obj,
    ensures
        r == get_opt_u64(vmodel(*v)->Obj_0, k@),
{
    match jv_obj_get(v, k) {
        Some(x) => {
            if crate::jsonval::jv_is_null(x) {
                Some(None)
            } else {
                match jv_as_u64(x) {
                    Some(n) => Some(Some(n)),
                    None => None,
                }
            }
        },
        None => Some(None),
    }
}

pub fn strs_of_value(v: &Value) -> (r: Option<Vec<String>>)
    ensures
        match r {
            Some(a) => vmodel(*v) is Arr && strs_of_json(vmodel(*v)->Arr_0) == Some(a.deep_view()),
            None => !(vmodel(*v) is Arr) || strs_of_json(vmodel(*v)->Arr_0) is None,
        },
{
    if !crate::jsonval::jv_is_arr(v) {
        return None;
    }
    let ghost a = vmodel(*v)->Arr_0;
    let n = jv_arr_len(v);
    let mut out: Vec<String> = Vec::new();
    let mut i: usize = 0;
    while i < n
        invariant
            i <= n,
            vmodel(*v) is Arr,
            a == vmodel(*v)->Arr_0,
            n == a.len(),
            forall|m: int| 0 <= m < i ==> a[m] is Str,
            out.deep_view() =~= Seq::new(i as nat, |m: int| a[m]->Str_0),
        decreases n - i,
    {
        let x = jv_arr_get(v, i);
        match jv_as_str(x) {
            Some(s) => {
                let ghost pre = out.deep_view();
                out.push(String::from_str(s));
                proof {
                    assert(out.deep_view() =~= pre.push(s@));
                    assert(out.deep_view() =~= Seq::new((i + 1) as nat, |m: int| a[m]->Str_0));
                }
            },
            None => {
                proof {
                    assert(!all_strs(a));
                }
                return None;
            },
        }
        i = i + 1;
    }
    proof {
        assert(all_strs(a));
        assert(out.deep_view() =~= strs_of_json(a).unwrap());
    }
    Some(out)
}

pub fn read_opt_strs(v: &Value, k: &str) -> (r: Option<Option<Vec<String>>>)
    requires
        vmodel(*v) is Obj,
    ensures
        match r {
            Some(o) => get_opt_strs(vmodel(*v)->Obj_0, k@) == Some(o.deep_view()),
            None => get_opt_strs(vmodel(*v)->Obj_0, k@) is None,
        },
{
    match jv_obj_get(v, k) {
        Some(x) => {
            if crate::jsonval::jv_is_null(x) {
                Some(None)
            } else {
                match strs_of_value(x) {
                    Some(a) => Some(Some(a)),
                    None => None,
                }
            }
        },
        None => Some(None),
    }
}

} // verus!

verus! {

// ---- users -----------------------------------------------------------------

pub open spec fn spec_user_json(u: UserV) -> JModel {
    JModel::Obj(
        with_opt_str(
            with_str(with_str(Map::empty(), "id"@, u.id), "encryption"@, u.encryption),
            "flow"@,
            u.flow,
        ),
    )
}

pub fn user_to_value(u: &User) -> (r: Value)
    ensures
        vmodel(r) == spec_user_json(u@),
{
    let mut r = jv_new_obj();
    put_str(&mut r, "id", u.id.as_str());
    put_str(&mut r, "encryption", u.encryption.as_str());
    put_opt_str(&mut r, "flow", &u.flow);
    r
}

pub open spec fn spec_user_of_json(j: JModel) -> Option<UserV> {
    match j {
        JModel::Obj(m) => match (get_str(m, "id"@), get_str(m, "encryption"@), get_opt_str(
            m,
            "flow"@,
        )) {
            (Some(id), Some(encryption), Some(flow)) => Some(UserV { id, encryption, flow }),
            _ => None,
        },
        _ => None,
    }
}

pub fn user_of_value(v: &Value) -> (r: Option<User>)
    ensures
        match r {
            Some(u) => spec_user_of_json(vmodel(*v)) == Some(u@),
            None => spec_user_of_json(vmodel(*v)) is None,
        },
{
    if !crate::jsonval::jv_is_obj(v) {
        return None;
    }
    let id = match read_str(v, "id") {
        Some(x) => x,
        None => {
            return None;
        },
    };
    let encryption = match read_str(v, "encryption") {
        Some(x) => x,
        None => {
            return None;
        },
    };
    let flow = match read_opt_str(v, "flow") {
        Some(x) => x,
        None => {
            return None;
        },
    };
    Some(User { id, encryption, flow })
}

pub proof fn lemma_user_roundtrip(u: UserV)
    ensures
        spec_user_of_json(spec_user_json(u)) == Some(u),
{
    reveal_strlit("id");
    reveal_strlit("encryption");
    reveal_strlit("flow");
    assert("id"@.len() == 2);
    assert("encryption"@.len() == 10);
    assert("flow"@.len() == 4);
    assert("id"@ != "encryption"@ && "id"@ != "flow"@ && "encryption"@ != "flow"@);
    let m = with_opt_str(
        with_str(with_str(Map::empty(), "id"@, u.id), "encryption"@, u.encryption),
        "flow"@,
        u.flow,
    );
    assert(get_str(m, "id"@) == Some(u.id));
    assert(get_str(m, "encryption"@) == Some(u.encryption));
    assert(get_opt_str(m, "flow"@) == Some(u.flow));
    assert(spec_user_of_json(spec_user_json(u)).unwrap() =~= u);
}

pub open spec fn users_json(a: Seq<UserV>) -> Seq<JModel> {
    a.map_values(|u: UserV| spec_user_json(u))
}

pub open spec fn all_users(a: Seq<JModel>) -> bool {
    forall|i: int| 0 <= i < a.len() ==> spec_user_of_json(a[i]) is Some
}

pub open spec fn users_of_json(a: Seq<JModel>) -> Option<Seq<UserV>> {
    if all_users(a) {
        Some(Seq::new(a.len(), |i: int| spec_user_of_json(a[i]).unwrap()))
    } else {
        None
    }
}

pub fn users_to_value(a: &Vec<User>) -> (r: Value)
    ensures
        vmodel(r) == JModel::Arr(users_json(a@.map_values(|u: User| u@))),
{
    let ghost av = a@.map_values(|u: User| u@);
    let mut r = jv_new_arr();
    let mut i: usize = 0;
    proof {
        assert(users_json(av.take(0)) =~= Seq::<JModel>::empty());
    }
    while i < a.len()
        invariant
            i <= a@.len(),
            av == a@.map_values(|u: User| u@),
            vmodel(r) == JModel::Arr(users_json(av.take(i as int))),
        decreases a@.len() - i,
    {
        let x = user_to_value(&a[i]);
        jv_arr_push(&mut r, x);
        proof {
            assert(av.take(i + 1).drop_last() =~= av.take(i as int));
            assert(users_json(av.take(i + 1)) =~= users_json(av.take(i as int)).push(
                spec_user_json(av[i as int]),
            ));
        }
        i = i + 1;
    }
    proof {
        assert(av.take(a@.len() as int) =~= av);
    }
    r
}

pub fn users_of_value(v: &Value) -> (r: Option<Vec<User>>)
    ensures
        match r {
            Some(a) => vmodel(*v) is Arr && users_of_json(vmodel(*v)->Arr_0) == Some(
                a@.map_values(|u: User| u@),
            ),
            None => !(vmodel(*v) is Arr) || users_of_json(vmodel(*v)->Arr_0) is None,
        },
{
    if !crate::jsonval::jv_is_arr(v) {
        return None;
    }
    let ghost a = vmodel(*v)->Arr_0;
    let n = jv_arr_len(v);
    let mut out: Vec<User> = Vec::new();
    let mut i: usize = 0;
    while i < n
        invariant
            i <= n,
            vmodel(*v) is Arr,
            a == vmodel(*v)->Arr_0,
            n == a.len(),
            forall|m: int| 0 <= m < i ==> spec_user_of_json(a[m]) is Some,
            out@.map_values(|u: User| u@) =~= Seq::new(
                i as nat,
                |m: int| spec_user_of_json(a[m]).unwrap(),
            ),
        decreases n - i,
    {
        let x = jv_arr_get(v, i);
        match user_of_value(x) {
            Some(u) => {
                let ghost pre = out@.map_values(|uu: User| uu@);
                let ghost uv = u@;
                out.push(u);
                proof {
                    assert(out@.map_values(|uu: User| uu@) =~= pre.push(uv));
                    assert(out@.map_values(|uu: User| uu@) =~= Seq::new(
                        (i + 1) as nat,
                        |m: int| spec_user_of_json(a[m]).unwrap(),
                    ));
                }
            },
            None => {
                proof {
                    assert(!all_users(a));
                }
                return None;
            },
        }
        i = i + 1;
    }
    proof {
        assert(all_users(a));
        assert(out@.map_values(|u: User| u@) =~= users_of_json(a).unwrap());
    }
    Some(out)
}

pub proof fn lemma_users_roundtrip(a: Seq<UserV>)
    ensures
        users_of_json(users_json(a)) == Some(a),
{
    assert forall|i: int| 0 <= i < a.len() implies spec_user_of_json(users_json(a)[i])
        is Some by {
        lemma_user_roundtrip(a[i]);
    }
    assert(all_users(users_json(a)));
    assert forall|i: int| 0 <= i < a.len() implies spec_user_of_json(users_json(a)[i]).unwrap()
        == a[i] by {
        lemma_user_roundtrip(a[i]);
    }
    assert(users_of_json(users_json(a)).unwrap() =~= a);
}

} // verus!

verus! {

// ---- grpc settings -----------------------------------------------------------

pub open spec fn opt_u32_widen(o: Option<u32>) -> Option<u64> {
    match o {
        Some(n) => Some(n as u64),
        None => None,
    }
}

pub open spec fn spec_grpc_json(g: GRPCSettingsV) -> JModel {
    JModel::Obj(
        with_num_or_null(
            with_bool_or_null(
                with_num_or_null(
                    with_num_or_null(
                        with_bool(
                            with_opt_str(Map::empty(), "serviceName"@, g.service_name),
                            "multiMode"@,
                            g.multi_mode,
                        ),
                        "idleTimeout"@,
                        g.idle_timeout,
                    ),
                    "healthCheckTimeout"@,
                    g.health_check_timeout,
                ),
                "permitWithoutStream"@,
                g.permit_without_stream,
            ),
            "initialWindowsSize"@,
            g.initial_windows_size,
        ),
    )
}

pub fn grpc_to_value(g: &GRPCSettings) -> (r: Value)
    ensures
        vmodel(r) == spec_grpc_json(g@),
{
    let mut r = jv_new_obj();
    put_opt_str(&mut r, "serviceName", &g.service_name);
    put_bool(&mut r, "multiMode", g.multi_mode);
    put_num_or_null(&mut r, "idleTimeout", &g.idle_timeout);
    put_num_or_null(&mut r, "healthCheckTimeout", &g.health_check_timeout);
    put_bool_or_null(&mut r, "permitWithoutStream", &g.permit_without_stream);
    put_num_or_null(&mut r, "initialWindowsSize", &g.initial_windows_size);
    r
}

pub open spec fn spec_grpc_of_json(j: JModel) -> Option<GRPCSettingsV> {
    match j {
        JModel::Obj(m) => match (get_opt_str(m, "serviceName"@), get_bool(m, "multiMode"@)) {
            (Some(service_name), Some(multi_mode)) => match (
                get_opt_u64(m, "idleTimeout"@),
                get_opt_u64(m, "healthCheckTimeout"@),
                get_opt_bool(m, "permitWithoutStream"@),
                get_opt_u64(m, "initialWindowsSize"@),
            ) {
                (Some(idle), Some(health), Some(permit), Some(init)) => Some(
                    GRPCSettingsV {
                        service_name,
                        multi_mode,
                        idle_timeout: idle,
                        health_check_timeout: health,
                        permit_without_stream: permit,
                        initial_windows_size: init,
                    },
                ),
                _ => None,
            },
            _ => None,
        },
        _ => None,
    }
}

pub fn grpc_of_value(v: &Value) -> (r: Option<GRPCSettings>)
    ensures
        match r {
            Some(g) => spec_grpc_of_json(vmodel(*v)) == Some(g@),
            None => spec_grpc_of_json(vmodel(*v)) is None,
        },
{
    if !crate::jsonval::jv_is_obj(v) {
        return None;
    }
    let service_name = match read_opt_str(v, "serviceName") {
        Some(x) => x,
        None => {
            return None;
        },
    };
    let multi_mode = match read_bool(v, "multiMode") {
        Some(x) => x,
        None => {
            return None;
        },
    };
    let idle_timeout = match read_opt_u64(v, "idleTimeout") {
        Some(x) => x,
        None => {
            return None;
        },
    };
    let health_check_timeout = match read_opt_u64(v, "healthCheckTimeout") {
        Some(x) => x,
        None => {
            return None;
        },
    };
    let permit_without_stream = match read_opt_bool(v, "permitWithoutStream") {
        Some(x) => x,
        None => {
            return None;
        },
    };
    let initial_windows_size = match read_opt_u64(v, "initialWindowsSize") {
        Some(x) => x,
        None => {
            return None;
        },
    };
    Some(
        GRPCSettings {
            service_name,
            multi_mode,
            idle_timeout,
            health_check_timeout,
            permit_without_stream,
            initial_windows_size,
        },
    )
}

pub proof fn lemma_grpc_roundtrip(g: GRPCSettingsV)
    ensures
        spec_grpc_of_json(spec_grpc_json(g)) == Some(g),
{
    reveal_strlit("serviceName");
    reveal_strlit("multiMode");
    reveal_strlit("idleTimeout");
    reveal_strlit("healthCheckTimeout");
    reveal_strlit("permitWithoutStream");
    reveal_strlit("initialWindowsSize");
    assert("serviceName"@.len() == 11 && "multiMode"@.len() == 9 && "idleTimeout"@.len() == 11
        && "healthCheckTimeout"@.len() == 18 && "permitWithoutStream"@.len() == 19
        && "initialWindowsSize"@.len() == 18);
    assert("serviceName"@[0] == 's' && "idleTimeout"@[0] == 'i');
    assert("healthCheckTimeout"@[0] == 'h' && "initialWindowsSize"@[0] == 'i');
    assert("serviceName"@ != "multiMode"@ && "serviceName"@ != "idleTimeout"@ && "serviceName"@
        != "healthCheckTimeout"@ && "serviceName"@ != "permitWithoutStream"@ && "serviceName"@
        != "initialWindowsSize"@);
    assert("multiMode"@ != "idleTimeout"@ && "multiMode"@ != "healthCheckTimeout"@ && "multiMode"@
        != "permitWithoutStream"@ && "multiMode"@ != "initialWindowsSize"@);
    assert("idleTimeout"@ != "healthCheckTimeout"@ && "idleTimeout"@ != "permitWithoutStream"@
        && "idleTimeout"@ != "initialWindowsSize"@);
    assert("healthCheckTimeout"@ != "permitWithoutStream"@ && "healthCheckTimeout"@
        != "initialWindowsSize"@);
    assert("permitWithoutStream"@ != "initialWindowsSize"@);
    let m = spec_grpc_json(g)->Obj_0;
    if g.idle_timeout is Some {
        crate::numstr::lemma_dec_str_canonical(g.idle_timeout.unwrap());
    }
    if g.health_check_timeout is Some {
        crate::numstr::lemma_dec_str_canonical(g.health_check_timeout.unwrap());
    }
    if g.initial_windows_size is Some {
        crate::numstr::lemma_dec_str_canonical(g.initial_windows_size.unwrap());
    }
    assert(get_opt_str(m, "serviceName"@) == Some(g.service_name));
    assert(get_bool(m, "multiMode"@) == Some(g.multi_mode));
    assert(get_opt_u64(m, "idleTimeout"@) == Some(g.idle_timeout));
    assert(get_opt_u64(m, "healthCheckTimeout"@) == Some(g.health_check_timeout));
    assert(get_opt_bool(m, "permitWithoutStream"@) == Some(g.permit_without_stream));
    assert(get_opt_u64(m, "initialWindowsSize"@) == Some(g.initial_windows_size));
    assert(spec_grpc_of_json(spec_grpc_json(g)).unwrap() =~= g);
}

// ---- reality settings --------------------------------------------------------

pub open spec fn spec_reality_json(x: RealitySettingsV) -> JModel {
    JModel::Obj(
        with_opt_str(
            with_str(
                with_str(
                    with_str(
                        with_opt_str(Map::empty(), "fingerprint"@, x.fingerprint),
                        "publicKey"@,
                        x.public_key,
                    ),
                    "serverName"@,
                    x.server_name,
                ),
                "shortId"@,
                x.short_id,
            ),
            "spiderX"@,
            x.spider_x,
        ),
    )
}

pub fn reality_to_value(x: &RealitySettings) -> (r: Value)
    ensures
        vmodel(r) == spec_reality_json(x@),
{
    let mut r = jv_new_obj();
    put_opt_str(&mut r, "fingerprint", &x.fingerprint);
    put_str(&mut r, "publicKey", x.public_key.as_str());
    put_str(&mut r, "serverName", x.server_name.as_str());
    put_str(&mut r, "shortId", x.short_id.as_str());
    put_opt_str(&mut r, "spiderX", &x.spider_x);
    r
}

pub open spec fn spec_reality_of_json(j: JModel) -> Option<RealitySettingsV> {
    match j {
        JModel::Obj(m) => match (
            get_opt_str(m, "fingerprint"@),
            get_str(m, "publicKey"@),
            get_str(m, "serverName"@),
            get_str(m, "shortId"@),
            get_opt_str(m, "spiderX"@),
        ) {
            (Some(fingerprint), Some(public_key), Some(server_name), Some(short_id), Some(
                spider_x,
            )) => Some(
                RealitySettingsV { fingerprint, public_key, server_name, short_id, spider_x },
            ),
            _ => None,
        },
        _ => None,
    }
}

pub fn reality_of_value(v: &Value) -> (r: Option<RealitySettings>)
    ensures
        match r {
            Some(x) => spec_reality_of_json(vmodel(*v)) == Some(x@),
            None => spec_reality_of_json(vmodel(*v)) is None,
        },
{
    if !crate::jsonval::jv_is_obj(v) {
        return None;
    }
    let fingerprint = match read_opt_str(v, "fingerprint") {
        Some(x) => x,
        None => {
            return None;
        },
    };
    let public_key = match read_str(v, "publicKey") {
        Some(x) => x,
        None => {
            return None;
        },
    };
    let server_name = match read_str(v, "serverName") {
        Some(x) => x,
        None => {
            return None;
        },
    };
    let short_id = match read_str(v, "shortId") {
        Some(x) => x,
        None => {
            return None;
        },
    };
    let spider_x = match read_opt_str(v, "spiderX") {
        Some(x) => x,
        None => {
            return None;
        },
    };
    Some(RealitySettings { fingerprint, public_key, server_name, short_id, spider_x })
}

pub proof fn lemma_reality_roundtrip(x: RealitySettingsV)
    ensures
        spec_reality_of_json(spec_reality_json(x)) == Some(x),
{
    reveal_strlit("fingerprint");
    reveal_strlit("publicKey");
    reveal_strlit("serverName");
    reveal_strlit("shortId");
    reveal_strlit("spiderX");
    assert("fingerprint"@.len() == 11);
    assert("publicKey"@.len() == 9);
    assert("serverName"@.len() == 10);
    assert("shortId"@.len() == 7);
    assert("spiderX"@.len() == 7);
    assert("shortId"@[1] == 'h' && "spiderX"@[1] == 'p');
    let m = spec_reality_json(x)->Obj_0;
    assert(get_opt_str(m, "fingerprint"@) == Some(x.fingerprint));
    assert(get_str(m, "publicKey"@) == Some(x.public_key));
    assert(get_str(m, "serverName"@) == Some(x.server_name));
    assert(get_str(m, "shortId"@) == Some(x.short_id));
    assert(get_opt_str(m, "spiderX"@) == Some(x.spider_x));
    assert(spec_reality_of_json(spec_reality_json(x)).unwrap() =~= x);
}

} // verus!

verus! {

// ---- tls settings ------------------------------------------------------------

pub open spec fn spec_tls_json(x: TlsSettingsV) -> JModel {
    let m = Map::<Seq<char>, JModel>::empty();
    let m = with_opt_str(m, "serverName"@, x.server_name);
    let m = with_opt_str(m, "verifyPeerCertInNames"@, x.verify_peer_cert_in_names);
    let m = with_opt_bool(m, "rejectUnknownSni"@, x.reject_unknown_sni);
    let m = with_opt_bool(m, "allowInsecure"@, x.allow_insecure);
    let m = with_opt_strs(m, "alpn"@, x.alpn);
    let m = with_opt_str(m, "minVersion"@, x.min_version);
    let m = with_opt_str(m, "maxVersion"@, x.max_version);
    let m = with_opt_str(m, "cipherSuites"@, x.cipher_suites);
    let m = with_opt_strs(m, "certificates"@, x.certificates);
    let m = with_opt_bool(m, "disableSystemRoot"@, x.disable_system_root);
    let m = with_opt_bool(m, "enableSessionResumption"@, x.enable_session_resumption);
    let m = with_opt_str(m, "fingerprint"@, x.fingerprint);
    let m = with_opt_strs(m, "pinnedPeerCertificateChainSha256"@, x.pinned_peer_certificate_chain_sha256);
    let m = with_opt_strs(m, "curvePreferences"@, x.curve_preferences);
    let m = with_opt_str(m, "masterKeyLog"@, x.master_key_log);
    let m = with_opt_str(m, "echConfigList"@, x.ech_config_list);
    let m = with_opt_str(m, "echServerKeys"@, x.ech_server_keys);
    let m = with_opt_str(m, "echForceQuery"@, x.ech_force_query);
    JModel::Obj(m)
}

pub fn tls_to_value(x: &TlsSettings) -> (r: Value)
    ensures
        vmodel(r) == spec_tls_json(x@),
{
    let mut r = jv_new_obj();
    put_opt_str(&mut r, "serverName", &x.server_name);
    put_opt_str(&mut r, "verifyPeerCertInNames", &x.verify_peer_cert_in_names);
    put_opt_bool(&mut r, "rejectUnknownSni", &x.reject_unknown_sni);
    put_opt_bool(&mut r, "allowInsecure", &x.allow_insecure);
    put_opt_strs(&mut r, "alpn", &x.alpn);
    put_opt_str(&mut r, "minVersion", &x.min_version);
    put_opt_str(&mut r, "maxVersion", &x.max_version);
    put_opt_str(&mut r, "cipherSuites", &x.cipher_suites);
    put_opt_strs(&mut r, "certificates", &x.certificates);
    put_opt_bool(&mut r, "disableSystemRoot", &x.disable_system_root);
    put_opt_bool(&mut r, "enableSessionResumption", &x.enable_session_resumption);
    put_opt_str(&mut r, "fingerprint", &x.fingerprint);
    put_opt_strs(&mut r, "pinnedPeerCertificateChainSha256", &x.pinned_peer_certificate_chain_sha256);
    put_opt_strs(&mut r, "curvePreferences", &x.curve_preferences);
    put_opt_str(&mut r, "masterKeyLog", &x.master_key_log);
    put_opt_str(&mut r, "echConfigList", &x.ech_config_list);
    put_opt_str(&mut r, "echServerKeys", &x.ech_server_keys);
    put_opt_str(&mut r, "echForceQuery", &x.ech_force_query);
    r
}

pub open spec fn spec_tls_of_json(j: JModel) -> Option<TlsSettingsV> {
    match j {
        JModel::Obj(m) => {
            if get_opt_str(m, "serverName"@) is Some
                && get_opt_str(m, "verifyPeerCertInNames"@) is Some
                && get_opt_bool(m, "rejectUnknownSni"@) is Some
                && get_opt_bool(m, "allowInsecure"@) is Some
                && get_opt_strs(m, "alpn"@) is Some
                && get_opt_str(m, "minVersion"@) is Some
                && get_opt_str(m, "maxVersion"@) is Some
                && get_opt_str(m, "cipherSuites"@) is Some
                && get_opt_strs(m, "certificates"@) is Some
                && get_opt_bool(m, "disableSystemRoot"@) is Some
                && get_opt_bool(m, "enableSessionResumption"@) is Some
                && get_opt_str(m, "fingerprint"@) is Some
                && get_opt_strs(m, "pinnedPeerCertificateChainSha256"@) is Some
                && get_opt_strs(m, "curvePreferences"@) is Some
                && get_opt_str(m, "masterKeyLog"@) is Some
                && get_opt_str(m, "echConfigList"@) is Some
                && get_opt_str(m, "echServerKeys"@) is Some
                && get_opt_str(m, "echForceQuery"@) is Some {
                Some(
                    TlsSettingsV {
                        server_name: get_opt_str(m, "serverName"@).unwrap(),
                        verify_peer_cert_in_names: get_opt_str(m, "verifyPeerCertInNames"@).unwrap(),
                        reject_unknown_sni: get_opt_bool(m, "rejectUnknownSni"@).unwrap(),
                        allow_insecure: get_opt_bool(m, "allowInsecure"@).unwrap(),
                        alpn: get_opt_strs(m, "alpn"@).unwrap(),
                        min_version: get_opt_str(m, "minVersion"@).unwrap(),
                        max_version: get_opt_str(m, "maxVersion"@).unwrap(),
                        cipher_suites: get_opt_str(m, "cipherSuites"@).unwrap(),
                        certificates: get_opt_strs(m, "certificates"@).unwrap(),
                        disable_system_root: get_opt_bool(m, "disableSystemRoot"@).unwrap(),
                        enable_session_resumption: get_opt_bool(m, "enableSessionResumption"@).unwrap(),
                        fingerprint: get_opt_str(m, "fingerprint"@).unwrap(),
                        pinned_peer_certificate_chain_sha256: get_opt_strs(m, "pinnedPeerCertificateChainSha256"@).unwrap(),
                        curve_preferences: get_opt_strs(m, "curvePreferences"@).unwrap(),
                        master_key_log: get_opt_str(m, "masterKeyLog"@).unwrap(),
                        ech_config_list: get_opt_str(m, "echConfigList"@).unwrap(),
                        ech_server_keys: get_opt_str(m, "echServerKeys"@).unwrap(),
                        ech_force_query: get_opt_str(m, "echForceQuery"@).unwrap(),
                    },
                )
            } else {
                None
            }
        },
        _ => None,
    }
}

pub fn tls_of_value(v: &Value) -> (r: Option<TlsSettings>)
    ensures
        match r {
            Some(x) => spec_tls_of_json(vmodel(*v)) == Some(x@),
            None => spec_tls_of_json(vmodel(*v)) is None,
        },
{
    if !crate::jsonval::jv_is_obj(v) {
        return None;
    }
    let server_name = match read_opt_str(v, "serverName") {
        Some(x) => x,
        None => {
            return None;
        },
    };
    let verify_peer_cert_in_names = match read_opt_str(v, "verifyPeerCertInNames") {
        Some(x) => x,
        None => {
            return None;
        },
    };
    let reject_unknown_sni = match read_opt_bool(v, "rejectUnknownSni") {
        Some(x) => x,
        None => {
            return None;
        },
    };
    let allow_insecure = match read_opt_bool(v, "allowInsecure") {
        Some(x) => x,
        None => {
            return None;
        },
    };
    let alpn = match read_opt_strs(v, "alpn") {
        Some(x) => x,
        None => {
            return None;
        },
    };
    let min_version = match read_opt_str(v, "minVersion") {
        Some(x) => x,
        None => {
            return None;
        },
    };
    let max_version = match read_opt_str(v, "maxVersion") {
        Some(x) => x,
        None => {
            return None;
        },
    };
    let cipher_suites = match read_opt_str(v, "cipherSuites") {
        Some(x) => x,
        None => {
            return None;
        },
    };
    let certificates = match read_opt_strs(v, "certificates") {
        Some(x) => x,
        None => {
            return None;
        },
    };
    let disable_system_root = match read_opt_bool(v, "disableSystemRoot") {
        Some(x) => x,
        None => {
            return None;
        },
    };
    let enable_session_resumption = match read_opt_bool(v, "enableSessionResumption") {
        Some(x) => x,
        None => {
            return None;
        },
    };
    let fingerprint = match read_opt_str(v, "fingerprint") {
        Some(x) => x,
        None => {
            return None;
        },
    };
    let pinned_peer_certificate_chain_sha256 = match read_opt_strs(v, "pinnedPeerCertificateChainSha256") {
        Some(x) => x,
        None => {
            return None;
        },
    };
    let curve_preferences = match read_opt_strs(v, "curvePreferences") {
        Some(x) => x,
        None => {
            return None;
        },
    };
    let master_key_log = match read_opt_str(v, "masterKeyLog") {
        Some(x) => x,
        None => {
            return None;
        },
    };
    let ech_config_list = match read_opt_str(v, "echConfigList") {
        Some(x) => x,
        None => {
            return None;
        },
    };
    let ech_server_keys = match read_opt_str(v, "echServerKeys") {
        Some(x) => x,
        None => {
            return None;
        },
    };
    let ech_force_query = match read_opt_str(v, "echForceQuery") {
        Some(x) => x,
        None => {
            return None;
        },
    };
    Some(
        TlsSettings {
            server_name,
            verify_peer_cert_in_names,
            reject_unknown_sni,
            allow_insecure,
            alpn,
            min_version,
            max_version,
            cipher_suites,
            certificates,
            disable_system_root,
            enable_session_resumption,
            fingerprint,
            pinned_peer_certificate_chain_sha256,
            curve_preferences,
            master_key_log,
            ech_config_list,
            ech_server_keys,
            ech_force_query,
        },
    )
}

#[verifier::rlimit(100)]
proof fn lemma_tls_keys_distinct()
    ensures
        "serverName"@ != "verifyPeerCertInNames"@,
        "serverName"@ != "rejectUnknownSni"@,
        "serverName"@ != "allowInsecure"@,
        "serverName"@ != "alpn"@,
        "serverName"@ != "minVersion"@,
        "serverName"@ != "maxVersion"@,
        "serverName"@ != "cipherSuites"@,
        "serverName"@ != "certificates"@,
        "serverName"@ != "disableSystemRoot"@,
        "serverName"@ != "enableSessionResumption"@,
        "serverName"@ != "fingerprint"@,
        "serverName"@ != "pinnedPeerCertificateChainSha256"@,
        "serverName"@ != "curvePreferences"@,
        "serverName"@ != "masterKeyLog"@,
        "serverName"@ != "echConfigList"@,
        "serverName"@ != "echServerKeys"@,
        "serverName"@ != "echForceQuery"@,
        "verifyPeerCertInNames"@ != "rejectUnknownSni"@,
        "verifyPeerCertInNames"@ != "allowInsecure"@,
        "verifyPeerCertInNames"@ != "alpn"@,
        "verifyPeerCertInNames"@ != "minVersion"@,
        "verifyPeerCertInNames"@ != "maxVersion"@,
        "verifyPeerCertInNames"@ != "cipherSuites"@,
        "verifyPeerCertInNames"@ != "certificates"@,
        "verifyPeerCertInNames"@ != "disableSystemRoot"@,
        "verifyPeerCertInNames"@ != "enableSessionResumption"@,
        "verifyPeerCertInNames"@ != "fingerprint"@,
        "verifyPeerCertInNames"@ != "pinnedPeerCertificateChainSha256"@,
        "verifyPeerCertInNames"@ != "curvePreferences"@,
        "verifyPeerCertInNames"@ != "masterKeyLog"@,
        "verifyPeerCertInNames"@ != "echConfigList"@,
        "verifyPeerCertInNames"@ != "echServerKeys"@,
        "verifyPeerCertInNames"@ != "echForceQuery"@,
        "rejectUnknownSni"@ != "allowInsecure"@,
        "rejectUnknownSni"@ != "alpn"@,
        "rejectUnknownSni"@ != "minVersion"@,
        "rejectUnknownSni"@ != "maxVersion"@,
        "rejectUnknownSni"@ != "cipherSuites"@,
        "rejectUnknownSni"@ != "certificates"@,
        "rejectUnknownSni"@ != "disableSystemRoot"@,
        "rejectUnknownSni"@ != "enableSessionResumption"@,
        "rejectUnknownSni"@ != "fingerprint"@,
        "rejectUnknownSni"@ != "pinnedPeerCertificateChainSha256"@,
        "rejectUnknownSni"@ != "curvePreferences"@,
        "rejectUnknownSni"@ != "masterKeyLog"@,
        "rejectUnknownSni"@ != "echConfigList"@,
        "rejectUnknownSni"@ != "echServerKeys"@,
        "rejectUnknownSni"@ != "echForceQuery"@,
        "allowInsecure"@ != "alpn"@,
        "allowInsecure"@ != "minVersion"@,
        "allowInsecure"@ != "maxVersion"@,
        "allowInsecure"@ != "cipherSuites"@,
        "allowInsecure"@ != "certificates"@,
        "allowInsecure"@ != "disableSystemRoot"@,
        "allowInsecure"@ != "enableSessionResumption"@,
        "allowInsecure"@ != "fingerprint"@,
        "allowInsecure"@ != "pinnedPeerCertificateChainSha256"@,
        "allowInsecure"@ != "curvePreferences"@,
        "allowInsecure"@ != "masterKeyLog"@,
        "allowInsecure"@ != "echConfigList"@,
        "allowInsecure"@ != "echServerKeys"@,
        "allowInsecure"@ != "echForceQuery"@,
        "alpn"@ != "minVersion"@,
        "alpn"@ != "maxVersion"@,
        "alpn"@ != "cipherSuites"@,
        "alpn"@ != "certificates"@,
        "alpn"@ != "disableSystemRoot"@,
        "alpn"@ != "enableSessionResumption"@,
        "alpn"@ != "fingerprint"@,
        "alpn"@ != "pinnedPeerCertificateChainSha256"@,
        "alpn"@ != "curvePreferences"@,
        "alpn"@ != "masterKeyLog"@,
        "alpn"@ != "echConfigList"@,
        "alpn"@ != "echServerKeys"@,
        "alpn"@ != "echForceQuery"@,
        "minVersion"@ != "maxVersion"@,
        "minVersion"@ != "cipherSuites"@,
        "minVersion"@ != "certificates"@,
        "minVersion"@ != "disableSystemRoot"@,
        "minVersion"@ != "enableSessionResumption"@,
        "minVersion"@ != "fingerprint"@,
        "minVersion"@ != "pinnedPeerCertificateChainSha256"@,
        "minVersion"@ != "curvePreferences"@,
        "minVersion"@ != "masterKeyLog"@,
        "minVersion"@ != "echConfigList"@,
        "minVersion"@ != "echServerKeys"@,
        "minVersion"@ != "echForceQuery"@,
        "maxVersion"@ != "cipherSuites"@,
        "maxVersion"@ != "certificates"@,
        "maxVersion"@ != "disableSystemRoot"@,
        "maxVersion"@ != "enableSessionResumption"@,
        "maxVersion"@ != "fingerprint"@,
        "maxVersion"@ != "pinnedPeerCertificateChainSha256"@,
        "maxVersion"@ != "curvePreferences"@,
        "maxVersion"@ != "masterKeyLog"@,
        "maxVersion"@ != "echConfigList"@,
        "maxVersion"@ != "echServerKeys"@,
        "maxVersion"@ != "echForceQuery"@,
        "cipherSuites"@ != "certificates"@,
        "cipherSuites"@ != "disableSystemRoot"@,
        "cipherSuites"@ != "enableSessionResumption"@,
        "cipherSuites"@ != "fingerprint"@,
        "cipherSuites"@ != "pinnedPeerCertificateChainSha256"@,
        "cipherSuites"@ != "curvePreferences"@,
        "cipherSuites"@ != "masterKeyLog"@,
        "cipherSuites"@ != "echConfigList"@,
        "cipherSuites"@ != "echServerKeys"@,
        "cipherSuites"@ != "echForceQuery"@,
        "certificates"@ != "disableSystemRoot"@,
        "certificates"@ != "enableSessionResumption"@,
        "certificates"@ != "fingerprint"@,
        "certificates"@ != "pinnedPeerCertificateChainSha256"@,
        "certificates"@ != "curvePreferences"@,
        "certificates"@ != "masterKeyLog"@,
        "certificates"@ != "echConfigList"@,
        "certificates"@ != "echServerKeys"@,
        "certificates"@ != "echForceQuery"@,
        "disableSystemRoot"@ != "enableSessionResumption"@,
        "disableSystemRoot"@ != "fingerprint"@,
        "disableSystemRoot"@ != "pinnedPeerCertificateChainSha256"@,
        "disableSystemRoot"@ != "curvePreferences"@,
        "disableSystemRoot"@ != "masterKeyLog"@,
        "disableSystemRoot"@ != "echConfigList"@,
        "disableSystemRoot"@ != "echServerKeys"@,
        "disableSystemRoot"@ != "echForceQuery"@,
        "enableSessionResumption"@ != "fingerprint"@,
        "enableSessionResumption"@ != "pinnedPeerCertificateChainSha256"@,
        "enableSessionResumption"@ != "curvePreferences"@,
        "enableSessionResumption"@ != "masterKeyLog"@,
        "enableSessionResumption"@ != "echConfigList"@,
        "enableSessionResumption"@ != "echServerKeys"@,
        "enableSessionResumption"@ != "echForceQuery"@,
        "fingerprint"@ != "pinnedPeerCertificateChainSha256"@,
        "fingerprint"@ != "curvePreferences"@,
        "fingerprint"@ != "masterKeyLog"@,
        "fingerprint"@ != "echConfigList"@,
        "fingerprint"@ != "echServerKeys"@,
        "fingerprint"@ != "echForceQuery"@,
        "pinnedPeerCertificateChainSha256"@ != "curvePreferences"@,
        "pinnedPeerCertificateChainSha256"@ != "masterKeyLog"@,
        "pinnedPeerCertificateChainSha256"@ != "echConfigList"@,
        "pinnedPeerCertificateChainSha256"@ != "echServerKeys"@,
        "pinnedPeerCertificateChainSha256"@ != "echForceQuery"@,
        "curvePreferences"@ != "masterKeyLog"@,
        "curvePreferences"@ != "echConfigList"@,
        "curvePreferences"@ != "echServerKeys"@,
        "curvePreferences"@ != "echForceQuery"@,
        "masterKeyLog"@ != "echConfigList"@,
        "masterKeyLog"@ != "echServerKeys"@,
        "masterKeyLog"@ != "echForceQuery"@,
        "echConfigList"@ != "echServerKeys"@,
        "echConfigList"@ != "echForceQuery"@,
        "echServerKeys"@ != "echForceQuery"@,
{

    reveal_strlit("serverName");
    reveal_strlit("verifyPeerCertInNames");
    reveal_strlit("rejectUnknownSni");
    reveal_strlit("allowInsecure");
    reveal_strlit("alpn");
    reveal_strlit("minVersion");
    reveal_strlit("maxVersion");
    reveal_strlit("cipherSuites");
    reveal_strlit("certificates");
    reveal_strlit("disableSystemRoot");
    reveal_strlit("enableSessionResumption");
    reveal_strlit("fingerprint");
    reveal_strlit("pinnedPeerCertificateChainSha256");
    reveal_strlit("curvePreferences");
    reveal_strlit("masterKeyLog");
    reveal_strlit("echConfigList");
    reveal_strlit("echServerKeys");
    reveal_strlit("echForceQuery");
    assert("serverName"@.len() == 10
        && "verifyPeerCertInNames"@.len() == 21
        && "rejectUnknownSni"@.len() == 16
        && "allowInsecure"@.len() == 13
        && "alpn"@.len() == 4
        && "minVersion"@.len() == 10
        && "maxVersion"@.len() == 10
        && "cipherSuites"@.len() == 12
        && "certificates"@.len() == 12
        && "disableSystemRoot"@.len() == 17
        && "enableSessionResumption"@.len() == 23
        && "fingerprint"@.len() == 11
        && "pinnedPeerCertificateChainSha256"@.len() == 32
        && "curvePreferences"@.len() == 16
        && "masterKeyLog"@.len() == 12
        && "echConfigList"@.len() == 13
        && "echServerKeys"@.len() == 13
        && "echForceQuery"@.len() == 13);
    assert("serverName"@[1] == 'e' && "minVersion"@[1] == 'i' && "maxVersion"@[1] == 'a');
    assert("cipherSuites"@[1] == 'i' && "certificates"@[1] == 'e' && "masterKeyLog"@[1] == 'a');
    assert("allowInsecure"@[0] == 'a' && "echConfigList"@[3] == 'C' && "echServerKeys"@[3] == 'S'
        && "echForceQuery"@[3] == 'F' && "echConfigList"@[0] == 'e' && "echServerKeys"@[0] == 'e'
        && "echForceQuery"@[0] == 'e');
    assert("rejectUnknownSni"@[0] == 'r' && "curvePreferences"@[0] == 'c');
    assert("serverName"@ != "verifyPeerCertInNames"@
        && "serverName"@ != "rejectUnknownSni"@
        && "serverName"@ != "allowInsecure"@
        && "serverName"@ != "alpn"@
        && "serverName"@ != "minVersion"@
        && "serverName"@ != "maxVersion"@);
    assert("serverName"@ != "cipherSuites"@
        && "serverName"@ != "certificates"@
        && "serverName"@ != "disableSystemRoot"@
        && "serverName"@ != "enableSessionResumption"@
        && "serverName"@ != "fingerprint"@
        && "serverName"@ != "pinnedPeerCertificateChainSha256"@);
    assert("serverName"@ != "curvePreferences"@
        && "serverName"@ != "masterKeyLog"@
        && "serverName"@ != "echConfigList"@
        && "serverName"@ != "echServerKeys"@
        && "serverName"@ != "echForceQuery"@
        && "verifyPeerCertInNames"@ != "rejectUnknownSni"@);
    assert("verifyPeerCertInNames"@ != "allowInsecure"@
        && "verifyPeerCertInNames"@ != "alpn"@
        && "verifyPeerCertInNames"@ != "minVersion"@
        && "verifyPeerCertInNames"@ != "maxVersion"@
        && "verifyPeerCertInNames"@ != "cipherSuites"@
        && "verifyPeerCertInNames"@ != "certificates"@);
    assert("verifyPeerCertInNames"@ != "disableSystemRoot"@
        && "verifyPeerCertInNames"@ != "enableSessionResumption"@
        && "verifyPeerCertInNames"@ != "fingerprint"@
        && "verifyPeerCertInNames"@ != "pinnedPeerCertificateChainSha256"@
        && "verifyPeerCertInNames"@ != "curvePreferences"@
        && "verifyPeerCertInNames"@ != "masterKeyLog"@);
    assert("verifyPeerCertInNames"@ != "echConfigList"@
        && "verifyPeerCertInNames"@ != "echServerKeys"@
        && "verifyPeerCertInNames"@ != "echForceQuery"@
        && "rejectUnknownSni"@ != "allowInsecure"@
        && "rejectUnknownSni"@ != "alpn"@
        && "rejectUnknownSni"@ != "minVersion"@);
    assert("rejectUnknownSni"@ != "maxVersion"@
        && "rejectUnknownSni"@ != "cipherSuites"@
        && "rejectUnknownSni"@ != "certificates"@
        && "rejectUnknownSni"@ != "disableSystemRoot"@
        && "rejectUnknownSni"@ != "enableSessionResumption"@
        && "rejectUnknownSni"@ != "fingerprint"@);
    assert("rejectUnknownSni"@ != "pinnedPeerCertificateChainSha256"@
        && "rejectUnknownSni"@ != "curvePreferences"@
        && "rejectUnknownSni"@ != "masterKeyLog"@
        && "rejectUnknownSni"@ != "echConfigList"@
        && "rejectUnknownSni"@ != "echServerKeys"@
        && "rejectUnknownSni"@ != "echForceQuery"@);
    assert("allowInsecure"@ != "alpn"@
        && "allowInsecure"@ != "minVersion"@
        && "allowInsecure"@ != "maxVersion"@
        && "allowInsecure"@ != "cipherSuites"@
        && "allowInsecure"@ != "certificates"@
        && "allowInsecure"@ != "disableSystemRoot"@);
    assert("allowInsecure"@ != "enableSessionResumption"@
        && "allowInsecure"@ != "fingerprint"@
        && "allowInsecure"@ != "pinnedPeerCertificateChainSha256"@
        && "allowInsecure"@ != "curvePreferences"@
        && "allowInsecure"@ != "masterKeyLog"@
        && "allowInsecure"@ != "echConfigList"@);
    assert("allowInsecure"@ != "echServerKeys"@
        && "allowInsecure"@ != "echForceQuery"@
        && "alpn"@ != "minVersion"@
        && "alpn"@ != "maxVersion"@
        && "alpn"@ != "cipherSuites"@
        && "alpn"@ != "certificates"@);
    assert("alpn"@ != "disableSystemRoot"@
        && "alpn"@ != "enableSessionResumption"@
        && "alpn"@ != "fingerprint"@
        && "alpn"@ != "pinnedPeerCertificateChainSha256"@
        && "alpn"@ != "curvePreferences"@
        && "alpn"@ != "masterKeyLog"@);
    assert("alpn"@ != "echConfigList"@
        && "alpn"@ != "echServerKeys"@
        && "alpn"@ != "echForceQuery"@
        && "minVersion"@ != "maxVersion"@
        && "minVersion"@ != "cipherSuites"@
        && "minVersion"@ != "certificates"@);
    assert("minVersion"@ != "disableSystemRoot"@
        && "minVersion"@ != "enableSessionResumption"@
        && "minVersion"@ != "fingerprint"@
        && "minVersion"@ != "pinnedPeerCertificateChainSha256"@
        && "minVersion"@ != "curvePreferences"@
        && "minVersion"@ != "masterKeyLog"@);
    assert("minVersion"@ != "echConfigList"@
        && "minVersion"@ != "echServerKeys"@
        && "minVersion"@ != "echForceQuery"@
        && "maxVersion"@ != "cipherSuites"@
        && "maxVersion"@ != "certificates"@
        && "maxVersion"@ != "disableSystemRoot"@);
    assert("maxVersion"@ != "enableSessionResumption"@
        && "maxVersion"@ != "fingerprint"@
        && "maxVersion"@ != "pinnedPeerCertificateChainSha256"@
        && "maxVersion"@ != "curvePreferences"@
        && "maxVersion"@ != "masterKeyLog"@
        && "maxVersion"@ != "echConfigList"@);
    assert("maxVersion"@ != "echServerKeys"@
        && "maxVersion"@ != "echForceQuery"@
        && "cipherSuites"@ != "certificates"@
        && "cipherSuites"@ != "disableSystemRoot"@
        && "cipherSuites"@ != "enableSessionResumption"@
        && "cipherSuites"@ != "fingerprint"@);
    assert("cipherSuites"@ != "pinnedPeerCertificateChainSha256"@
        && "cipherSuites"@ != "curvePreferences"@
        && "cipherSuites"@ != "masterKeyLog"@
        && "cipherSuites"@ != "echConfigList"@
        && "cipherSuites"@ != "echServerKeys"@
        && "cipherSuites"@ != "echForceQuery"@);
    assert("certificates"@ != "disableSystemRoot"@
        && "certificates"@ != "enableSessionResumption"@
        && "certificates"@ != "fingerprint"@
        && "certificates"@ != "pinnedPeerCertificateChainSha256"@
        && "certificates"@ != "curvePreferences"@
        && "certificates"@ != "masterKeyLog"@);
    assert("certificates"@ != "echConfigList"@
        && "certificates"@ != "echServerKeys"@
        && "certificates"@ != "echForceQuery"@
        && "disableSystemRoot"@ != "enableSessionResumption"@
        && "disableSystemRoot"@ != "fingerprint"@
        && "disableSystemRoot"@ != "pinnedPeerCertificateChainSha256"@);
    assert("disableSystemRoot"@ != "curvePreferences"@
        && "disableSystemRoot"@ != "masterKeyLog"@
        && "disableSystemRoot"@ != "echConfigList"@
        && "disableSystemRoot"@ != "echServerKeys"@
        && "disableSystemRoot"@ != "echForceQuery"@
        && "enableSessionResumption"@ != "fingerprint"@);
    assert("enableSessionResumption"@ != "pinnedPeerCertificateChainSha256"@
        && "enableSessionResumption"@ != "curvePreferences"@
        && "enableSessionResumption"@ != "masterKeyLog"@
        && "enableSessionResumption"@ != "echConfigList"@
        && "enableSessionResumption"@ != "echServerKeys"@
        && "enableSessionResumption"@ != "echForceQuery"@);
    assert("fingerprint"@ != "pinnedPeerCertificateChainSha256"@
        && "fingerprint"@ != "curvePreferences"@
        && "fingerprint"@ != "masterKeyLog"@
        && "fingerprint"@ != "echConfigList"@
        && "fingerprint"@ != "echServerKeys"@
        && "fingerprint"@ != "echForceQuery"@);
    assert("pinnedPeerCertificateChainSha256"@ != "curvePreferences"@
        && "pinnedPeerCertificateChainSha256"@ != "masterKeyLog"@
        && "pinnedPeerCertificateChainSha256"@ != "echConfigList"@
        && "pinnedPeerCertificateChainSha256"@ != "echServerKeys"@
        && "pinnedPeerCertificateChainSha256"@ != "echForceQuery"@
        && "curvePreferences"@ != "masterKeyLog"@);
    assert("curvePreferences"@ != "echConfigList"@
        && "curvePreferences"@ != "echServerKeys"@
        && "curvePreferences"@ != "echForceQuery"@
        && "masterKeyLog"@ != "echConfigList"@
        && "masterKeyLog"@ != "echServerKeys"@
        && "masterKeyLog"@ != "echForceQuery"@);
    assert("echConfigList"@ != "echServerKeys"@
        && "echConfigList"@ != "echForceQuery"@
        && "echServerKeys"@ != "echForceQuery"@);
}

#[verifier::rlimit(100)]
proof fn lemma_tls_gets_head(x: TlsSettingsV)
    ensures
        get_opt_str(spec_tls_json(x)->Obj_0, "serverName"@) == Some(x.server_name),
        get_opt_str(spec_tls_json(x)->Obj_0, "verifyPeerCertInNames"@) == Some(x.verify_peer_cert_in_names),
        get_opt_bool(spec_tls_json(x)->Obj_0, "rejectUnknownSni"@) == Some(x.reject_unknown_sni),
        get_opt_bool(spec_tls_json(x)->Obj_0, "allowInsecure"@) == Some(x.allow_insecure),
        get_opt_strs(spec_tls_json(x)->Obj_0, "alpn"@) == Some(x.alpn),
        get_opt_str(spec_tls_json(x)->Obj_0, "minVersion"@) == Some(x.min_version),
{
    lemma_tls_keys_distinct();
    let m0 = Map::<Seq<char>, JModel>::empty();
    let m1 = with_opt_str(m0, "serverName"@, x.server_name);
    let m2 = with_opt_str(m1, "verifyPeerCertInNames"@, x.verify_peer_cert_in_names);
    let m3 = with_opt_bool(m2, "rejectUnknownSni"@, x.reject_unknown_sni);
    let m4 = with_opt_bool(m3, "allowInsecure"@, x.allow_insecure);
    let m5 = with_opt_strs(m4, "alpn"@, x.alpn);
    let m6 = with_opt_str(m5, "minVersion"@, x.min_version);
    let m7 = with_opt_str(m6, "maxVersion"@, x.max_version);
    let m8 = with_opt_str(m7, "cipherSuites"@, x.cipher_suites);
    let m9 = with_opt_strs(m8, "certificates"@, x.certificates);
    let m10 = with_opt_bool(m9, "disableSystemRoot"@, x.disable_system_root);
    let m11 = with_opt_bool(m10, "enableSessionResumption"@, x.enable_session_resumption);
    let m12 = with_opt_str(m11, "fingerprint"@, x.fingerprint);
    let m13 = with_opt_strs(m12, "pinnedPeerCertificateChainSha256"@, x.pinned_peer_certificate_chain_sha256);
    let m14 = with_opt_strs(m13, "curvePreferences"@, x.curve_preferences);
    let m15 = with_opt_str(m14, "masterKeyLog"@, x.master_key_log);
    let m16 = with_opt_str(m15, "echConfigList"@, x.ech_config_list);
    let m17 = with_opt_str(m16, "echServerKeys"@, x.ech_server_keys);
    let m18 = with_opt_str(m17, "echForceQuery"@, x.ech_force_query);
    assert(spec_tls_json(x)->Obj_0 == m18);
    assert(get_opt_str(m1, "serverName"@) == Some(x.server_name));
    assert(get_opt_str(m2, "serverName"@) == get_opt_str(m1, "serverName"@));
    assert(get_opt_str(m3, "serverName"@) == get_opt_str(m2, "serverName"@));
    assert(get_opt_str(m4, "serverName"@) == get_opt_str(m3, "serverName"@));
    assert(get_opt_str(m5, "serverName"@) == get_opt_str(m4, "serverName"@));
    assert(get_opt_str(m6, "serverName"@) == get_opt_str(m5, "serverName"@));
    assert(get_opt_str(m7, "serverName"@) == get_opt_str(m6, "serverName"@));
    assert(get_opt_str(m8, "serverName"@) == get_opt_str(m7, "serverName"@));
    assert(get_opt_str(m9, "serverName"@) == get_opt_str(m8, "serverName"@));
    assert(get_opt_str(m10, "serverName"@) == get_opt_str(m9, "serverName"@));
    assert(get_opt_str(m11, "serverName"@) == get_opt_str(m10, "serverName"@));
    assert(get_opt_str(m12, "serverName"@) == get_opt_str(m11, "serverName"@));
    assert(get_opt_str(m13, "serverName"@) == get_opt_str(m12, "serverName"@));
    assert(get_opt_str(m14, "serverName"@) == get_opt_str(m13, "serverName"@));
    assert(get_opt_str(m15, "serverName"@) == get_opt_str(m14, "serverName"@));
    assert(get_opt_str(m16, "serverName"@) == get_opt_str(m15, "serverName"@));
    assert(get_opt_str(m17, "serverName"@) == get_opt_str(m16, "serverName"@));
    assert(get_opt_str(m18, "serverName"@) == get_opt_str(m17, "serverName"@));
    assert(get_opt_str(m2, "verifyPeerCertInNames"@) == Some(x.verify_peer_cert_in_names));
    assert(get_opt_str(m3, "verifyPeerCertInNames"@) == get_opt_str(m2, "verifyPeerCertInNames"@));
    assert(get_opt_str(m4, "verifyPeerCertInNames"@) == get_opt_str(m3, "verifyPeerCertInNames"@));
    assert(get_opt_str(m5, "verifyPeerCertInNames"@) == get_opt_str(m4, "verifyPeerCertInNames"@));
    assert(get_opt_str(m6, "verifyPeerCertInNames"@) == get_opt_str(m5, "verifyPeerCertInNames"@));
    assert(get_opt_str(m7, "verifyPeerCertInNames"@) == get_opt_str(m6, "verifyPeerCertInNames"@));
    assert(get_opt_str(m8, "verifyPeerCertInNames"@) == get_opt_str(m7, "verifyPeerCertInNames"@));
    assert(get_opt_str(m9, "verifyPeerCertInNames"@) == get_opt_str(m8, "verifyPeerCertInNames"@));
    assert(get_opt_str(m10, "verifyPeerCertInNames"@) == get_opt_str(m9, "verifyPeerCertInNames"@));
    assert(get_opt_str(m11, "verifyPeerCertInNames"@) == get_opt_str(m10, "verifyPeerCertInNames"@));
    assert(get_opt_str(m12, "verifyPeerCertInNames"@) == get_opt_str(m11, "verifyPeerCertInNames"@));
    assert(get_opt_str(m13, "verifyPeerCertInNames"@) == get_opt_str(m12, "verifyPeerCertInNames"@));
    assert(get_opt_str(m14, "verifyPeerCertInNames"@) == get_opt_str(m13, "verifyPeerCertInNames"@));
    assert(get_opt_str(m15, "verifyPeerCertInNames"@) == get_opt_str(m14, "verifyPeerCertInNames"@));
    assert(get_opt_str(m16, "verifyPeerCertInNames"@) == get_opt_str(m15, "verifyPeerCertInNames"@));
    assert(get_opt_str(m17, "verifyPeerCertInNames"@) == get_opt_str(m16, "verifyPeerCertInNames"@));
    assert(get_opt_str(m18, "verifyPeerCertInNames"@) == get_opt_str(m17, "verifyPeerCertInNames"@));
    assert(get_opt_bool(m3, "rejectUnknownSni"@) == Some(x.reject_unknown_sni));
    assert(get_opt_bool(m4, "rejectUnknownSni"@) == get_opt_bool(m3, "rejectUnknownSni"@));
    assert(get_opt_bool(m5, "rejectUnknownSni"@) == get_opt_bool(m4, "rejectUnknownSni"@));
    assert(get_opt_bool(m6, "rejectUnknownSni"@) == get_opt_bool(m5, "rejectUnknownSni"@));
    assert(get_opt_bool(m7, "rejectUnknownSni"@) == get_opt_bool(m6, "rejectUnknownSni"@));
    assert(get_opt_bool(m8, "rejectUnknownSni"@) == get_opt_bool(m7, "rejectUnknownSni"@));
    assert(get_opt_bool(m9, "rejectUnknownSni"@) == get_opt_bool(m8, "rejectUnknownSni"@));
    assert(get_opt_bool(m10, "rejectUnknownSni"@) == get_opt_bool(m9, "rejectUnknownSni"@));
    assert(get_opt_bool(m11, "rejectUnknownSni"@) == get_opt_bool(m10, "rejectUnknownSni"@));
    assert(get_opt_bool(m12, "rejectUnknownSni"@) == get_opt_bool(m11, "rejectUnknownSni"@));
    assert(get_opt_bool(m13, "rejectUnknownSni"@) == get_opt_bool(m12, "rejectUnknownSni"@));
    assert(get_opt_bool(m14, "rejectUnknownSni"@) == get_opt_bool(m13, "rejectUnknownSni"@));
    assert(get_opt_bool(m15, "rejectUnknownSni"@) == get_opt_bool(m14, "rejectUnknownSni"@));
    assert(get_opt_bool(m16, "rejectUnknownSni"@) == get_opt_bool(m15, "rejectUnknownSni"@));
    assert(get_opt_bool(m17, "rejectUnknownSni"@) == get_opt_bool(m16, "rejectUnknownSni"@));
    assert(get_opt_bool(m18, "rejectUnknownSni"@) == get_opt_bool(m17, "rejectUnknownSni"@));
    assert(get_opt_bool(m4, "allowInsecure"@) == Some(x.allow_insecure));
    assert(get_opt_bool(m5, "allowInsecure"@) == get_opt_bool(m4, "allowInsecure"@));
    assert(get_opt_bool(m6, "allowInsecure"@) == get_opt_bool(m5, "allowInsecure"@));
    assert(get_opt_bool(m7, "allowInsecure"@) == get_opt_bool(m6, "allowInsecure"@));
    assert(get_opt_bool(m8, "allowInsecure"@) == get_opt_bool(m7, "allowInsecure"@));
    assert(get_opt_bool(m9, "allowInsecure"@) == get_opt_bool(m8, "allowInsecure"@));
    assert(get_opt_bool(m10, "allowInsecure"@) == get_opt_bool(m9, "allowInsecure"@));
    assert(get_opt_bool(m11, "allowInsecure"@) == get_opt_bool(m10, "allowInsecure"@));
    assert(get_opt_bool(m12, "allowInsecure"@) == get_opt_bool(m11, "allowInsecure"@));
    assert(get_opt_bool(m13, "allowInsecure"@) == get_opt_bool(m12, "allowInsecure"@));
    assert(get_opt_bool(m14, "allowInsecure"@) == get_opt_bool(m13, "allowInsecure"@));
    assert(get_opt_bool(m15, "allowInsecure"@) == get_opt_bool(m14, "allowInsecure"@));
    assert(get_opt_bool(m16, "allowInsecure"@) == get_opt_bool(m15, "allowInsecure"@));
    assert(get_opt_bool(m17, "allowInsecure"@) == get_opt_bool(m16, "allowInsecure"@));
    assert(get_opt_bool(m18, "allowInsecure"@) == get_opt_bool(m17, "allowInsecure"@));
    if x.alpn is Some {
        lemma_strs_roundtrip(x.alpn.unwrap());
    }
    assert(get_opt_strs(m5, "alpn"@) == Some(x.alpn));
    assert(get_opt_strs(m6, "alpn"@) == get_opt_strs(m5, "alpn"@));
    assert(get_opt_strs(m7, "alpn"@) == get_opt_strs(m6, "alpn"@));
    assert(get_opt_strs(m8, "alpn"@) == get_opt_strs(m7, "alpn"@));
    assert(get_opt_strs(m9, "alpn"@) == get_opt_strs(m8, "alpn"@));
    assert(get_opt_strs(m10, "alpn"@) == get_opt_strs(m9, "alpn"@));
    assert(get_opt_strs(m11, "alpn"@) == get_opt_strs(m10, "alpn"@));
    assert(get_opt_strs(m12, "alpn"@) == get_opt_strs(m11, "alpn"@));
    assert(get_opt_strs(m13, "alpn"@) == get_opt_strs(m12, "alpn"@));
    assert(get_opt_strs(m14, "alpn"@) == get_opt_strs(m13, "alpn"@));
    assert(get_opt_strs(m15, "alpn"@) == get_opt_strs(m14, "alpn"@));
    assert(get_opt_strs(m16, "alpn"@) == get_opt_strs(m15, "alpn"@));
    assert(get_opt_strs(m17, "alpn"@) == get_opt_strs(m16, "alpn"@));
    assert(get_opt_strs(m18, "alpn"@) == get_opt_strs(m17, "alpn"@));
    assert(get_opt_str(m6, "minVersion"@) == Some(x.min_version));
    assert(get_opt_str(m7, "minVersion"@) == get_opt_str(m6, "minVersion"@));
    assert(get_opt_str(m8, "minVersion"@) == get_opt_str(m7, "minVersion"@));
    assert(get_opt_str(m9, "minVersion"@) == get_opt_str(m8, "minVersion"@));
    assert(get_opt_str(m10, "minVersion"@) == get_opt_str(m9, "minVersion"@));
    assert(get_opt_str(m11, "minVersion"@) == get_opt_str(m10, "minVersion"@));
    assert(get_opt_str(m12, "minVersion"@) == get_opt_str(m11, "minVersion"@));
    assert(get_opt_str(m13, "minVersion"@) == get_opt_str(m12, "minVersion"@));
    assert(get_opt_str(m14, "minVersion"@) == get_opt_str(m13, "minVersion"@));
    assert(get_opt_str(m15, "minVersion"@) == get_opt_str(m14, "minVersion"@));
    assert(get_opt_str(m16, "minVersion"@) == get_opt_str(m15, "minVersion"@));
    assert(get_opt_str(m17, "minVersion"@) == get_opt_str(m16, "minVersion"@));
    assert(get_opt_str(m18, "minVersion"@) == get_opt_str(m17, "minVersion"@));
}

#[verifier::rlimit(100)]
proof fn lemma_tls_gets_mid(x: TlsSettingsV)
    ensures
        get_opt_str(spec_tls_json(x)->Obj_0, "maxVersion"@) == Some(x.max_version),
        get_opt_str(spec_tls_json(x)->Obj_0, "cipherSuites"@) == Some(x.cipher_suites),
        get_opt_strs(spec_tls_json(x)->Obj_0, "certificates"@) == Some(x.certificates),
        get_opt_bool(spec_tls_json(x)->Obj_0, "disableSystemRoot"@) == Some(x.disable_system_root),
        get_opt_bool(spec_tls_json(x)->Obj_0, "enableSessionResumption"@) == Some(x.enable_session_resumption),
        get_opt_str(spec_tls_json(x)->Obj_0, "fingerprint"@) == Some(x.fingerprint),
{
    lemma_tls_keys_distinct();
    let m0 = Map::<Seq<char>, JModel>::empty();
    let m1 = with_opt_str(m0, "serverName"@, x.server_name);
    let m2 = with_opt_str(m1, "verifyPeerCertInNames"@, x.verify_peer_cert_in_names);
    let m3 = with_opt_bool(m2, "rejectUnknownSni"@, x.reject_unknown_sni);
    let m4 = with_opt_bool(m3, "allowInsecure"@, x.allow_insecure);
    let m5 = with_opt_strs(m4, "alpn"@, x.alpn);
    let m6 = with_opt_str(m5, "minVersion"@, x.min_version);
    let m7 = with_opt_str(m6, "maxVersion"@, x.max_version);
    let m8 = with_opt_str(m7, "cipherSuites"@, x.cipher_suites);
    let m9 = with_opt_strs(m8, "certificates"@, x.certificates);
    let m10 = with_opt_bool(m9, "disableSystemRoot"@, x.disable_system_root);
    let m11 = with_opt_bool(m10, "enableSessionResumption"@, x.enable_session_resumption);
    let m12 = with_opt_str(m11, "fingerprint"@, x.fingerprint);
    let m13 = with_opt_strs(m12, "pinnedPeerCertificateChainSha256"@, x.pinned_peer_certificate_chain_sha256);
    let m14 = with_opt_strs(m13, "curvePreferences"@, x.curve_preferences);
    let m15 = with_opt_str(m14, "masterKeyLog"@, x.master_key_log);
    let m16 = with_opt_str(m15, "echConfigList"@, x.ech_config_list);
    let m17 = with_opt_str(m16, "echServerKeys"@, x.ech_server_keys);
    let m18 = with_opt_str(m17, "echForceQuery"@, x.ech_force_query);
    assert(spec_tls_json(x)->Obj_0 == m18);
    assert(get_opt_str(m7, "maxVersion"@) == Some(x.max_version));
    assert(get_opt_str(m8, "maxVersion"@) == get_opt_str(m7, "maxVersion"@));
    assert(get_opt_str(m9, "maxVersion"@) == get_opt_str(m8, "maxVersion"@));
    assert(get_opt_str(m10, "maxVersion"@) == get_opt_str(m9, "maxVersion"@));
    assert(get_opt_str(m11, "maxVersion"@) == get_opt_str(m10, "maxVersion"@));
    assert(get_opt_str(m12, "maxVersion"@) == get_opt_str(m11, "maxVersion"@));
    assert(get_opt_str(m13, "maxVersion"@) == get_opt_str(m12, "maxVersion"@));
    assert(get_opt_str(m14, "maxVersion"@) == get_opt_str(m13, "maxVersion"@));
    assert(get_opt_str(m15, "maxVersion"@) == get_opt_str(m14, "maxVersion"@));
    assert(get_opt_str(m16, "maxVersion"@) == get_opt_str(m15, "maxVersion"@));
    assert(get_opt_str(m17, "maxVersion"@) == get_opt_str(m16, "maxVersion"@));
    assert(get_opt_str(m18, "maxVersion"@) == get_opt_str(m17, "maxVersion"@));
    assert(get_opt_str(m8, "cipherSuites"@) == Some(x.cipher_suites));
    assert(get_opt_str(m9, "cipherSuites"@) == get_opt_str(m8, "cipherSuites"@));
    assert(get_opt_str(m10, "cipherSuites"@) == get_opt_str(m9, "cipherSuites"@));
    assert(get_opt_str(m11, "cipherSuites"@) == get_opt_str(m10, "cipherSuites"@));
    assert(get_opt_str(m12, "cipherSuites"@) == get_opt_str(m11, "cipherSuites"@));
    assert(get_opt_str(m13, "cipherSuites"@) == get_opt_str(m12, "cipherSuites"@));
    assert(get_opt_str(m14, "cipherSuites"@) == get_opt_str(m13, "cipherSuites"@));
    assert(get_opt_str(m15, "cipherSuites"@) == get_opt_str(m14, "cipherSuites"@));
    assert(get_opt_str(m16, "cipherSuites"@) == get_opt_str(m15, "cipherSuites"@));
    assert(get_opt_str(m17, "cipherSuites"@) == get_opt_str(m16, "cipherSuites"@));
    assert(get_opt_str(m18, "cipherSuites"@) == get_opt_str(m17, "cipherSuites"@));
    if x.certificates is Some {
        lemma_strs_roundtrip(x.certificates.unwrap());
    }
    assert(get_opt_strs(m9, "certificates"@) == Some(x.certificates));
    assert(get_opt_strs(m10, "certificates"@) == get_opt_strs(m9, "certificates"@));
    assert(get_opt_strs(m11, "certificates"@) == get_opt_strs(m10, "certificates"@));
    assert(get_opt_strs(m12, "certificates"@) == get_opt_strs(m11, "certificates"@));
    assert(get_opt_strs(m13, "certificates"@) == get_opt_strs(m12, "certificates"@));
    assert(get_opt_strs(m14, "certificates"@) == get_opt_strs(m13, "certificates"@));
    assert(get_opt_strs(m15, "certificates"@) == get_opt_strs(m14, "certificates"@));
    assert(get_opt_strs(m16, "certificates"@) == get_opt_strs(m15, "certificates"@));
    assert(get_opt_strs(m17, "certificates"@) == get_opt_strs(m16, "certificates"@));
    assert(get_opt_strs(m18, "certificates"@) == get_opt_strs(m17, "certificates"@));
    assert(get_opt_bool(m10, "disableSystemRoot"@) == Some(x.disable_system_root));
    assert(get_opt_bool(m11, "disableSystemRoot"@) == get_opt_bool(m10, "disableSystemRoot"@));
    assert(get_opt_bool(m12, "disableSystemRoot"@) == get_opt_bool(m11, "disableSystemRoot"@));
    assert(get_opt_bool(m13, "disableSystemRoot"@) == get_opt_bool(m12, "disableSystemRoot"@));
    assert(get_opt_bool(m14, "disableSystemRoot"@) == get_opt_bool(m13, "disableSystemRoot"@));
    assert(get_opt_bool(m15, "disableSystemRoot"@) == get_opt_bool(m14, "disableSystemRoot"@));
    assert(get_opt_bool(m16, "disableSystemRoot"@) == get_opt_bool(m15, "disableSystemRoot"@));
    assert(get_opt_bool(m17, "disableSystemRoot"@) == get_opt_bool(m16, "disableSystemRoot"@));
    assert(get_opt_bool(m18, "disableSystemRoot"@) == get_opt_bool(m17, "disableSystemRoot"@));
    assert(get_opt_bool(m11, "enableSessionResumption"@) == Some(x.enable_session_resumption));
    assert(get_opt_bool(m12, "enableSessionResumption"@) == get_opt_bool(m11, "enableSessionResumption"@));
    assert(get_opt_bool(m13, "enableSessionResumption"@) == get_opt_bool(m12, "enableSessionResumption"@));
    assert(get_opt_bool(m14, "enableSessionResumption"@) == get_opt_bool(m13, "enableSessionResumption"@));
    assert(get_opt_bool(m15, "enableSessionResumption"@) == get_opt_bool(m14, "enableSessionResumption"@));
    assert(get_opt_bool(m16, "enableSessionResumption"@) == get_opt_bool(m15, "enableSessionResumption"@));
    assert(get_opt_bool(m17, "enableSessionResumption"@) == get_opt_bool(m16, "enableSessionResumption"@));
    assert(get_opt_bool(m18, "enableSessionResumption"@) == get_opt_bool(m17, "enableSessionResumption"@));
    assert(get_opt_str(m12, "fingerprint"@) == Some(x.fingerprint));
    assert(get_opt_str(m13, "fingerprint"@) == get_opt_str(m12, "fingerprint"@));
    assert(get_opt_str(m14, "fingerprint"@) == get_opt_str(m13, "fingerprint"@));
    assert(get_opt_str(m15, "fingerprint"@) == get_opt_str(m14, "fingerprint"@));
    assert(get_opt_str(m16, "fingerprint"@) == get_opt_str(m15, "fingerprint"@));
    assert(get_opt_str(m17, "fingerprint"@) == get_opt_str(m16, "fingerprint"@));
    assert(get_opt_str(m18, "fingerprint"@) == get_opt_str(m17, "fingerprint"@));
}

#[verifier::rlimit(100)]
proof fn lemma_tls_gets_tail(x: TlsSettingsV)
    ensures
        get_opt_strs(spec_tls_json(x)->Obj_0, "pinnedPeerCertificateChainSha256"@) == Some(x.pinned_peer_certificate_chain_sha256),
        get_opt_strs(spec_tls_json(x)->Obj_0, "curvePreferences"@) == Some(x.curve_preferences),
        get_opt_str(spec_tls_json(x)->Obj_0, "masterKeyLog"@) == Some(x.master_key_log),
        get_opt_str(spec_tls_json(x)->Obj_0, "echConfigList"@) == Some(x.ech_config_list),
        get_opt_str(spec_tls_json(x)->Obj_0, "echServerKeys"@) == Some(x.ech_server_keys),
        get_opt_str(spec_tls_json(x)->Obj_0, "echForceQuery"@) == Some(x.ech_force_query),
{
    lemma_tls_keys_distinct();
    let m0 = Map::<Seq<char>, JModel>::empty();
    let m1 = with_opt_str(m0, "serverName"@, x.server_name);
    let m2 = with_opt_str(m1, "verifyPeerCertInNames"@, x.verify_peer_cert_in_names);
    let m3 = with_opt_bool(m2, "rejectUnknownSni"@, x.reject_unknown_sni);
    let m4 = with_opt_bool(m3, "allowInsecure"@, x.allow_insecure);
    let m5 = with_opt_strs(m4, "alpn"@, x.alpn);
    let m6 = with_opt_str(m5, "minVersion"@, x.min_version);
    let m7 = with_opt_str(m6, "maxVersion"@, x.max_version);
    let m8 = with_opt_str(m7, "cipherSuites"@, x.cipher_suites);
    let m9 = with_opt_strs(m8, "certificates"@, x.certificates);
    let m10 = with_opt_bool(m9, "disableSystemRoot"@, x.disable_system_root);
    let m11 = with_opt_bool(m10, "enableSessionResumption"@, x.enable_session_resumption);
    let m12 = with_opt_str(m11, "fingerprint"@, x.fingerprint);
    let m13 = with_opt_strs(m12, "pinnedPeerCertificateChainSha256"@, x.pinned_peer_certificate_chain_sha256);
    let m14 = with_opt_strs(m13, "curvePreferences"@, x.curve_preferences);
    let m15 = with_opt_str(m14, "masterKeyLog"@, x.master_key_log);
    let m16 = with_opt_str(m15, "echConfigList"@, x.ech_config_list);
    let m17 = with_opt_str(m16, "echServerKeys"@, x.ech_server_keys);
    let m18 = with_opt_str(m17, "echForceQuery"@, x.ech_force_query);
    assert(spec_tls_json(x)->Obj_0 == m18);
    if x.pinned_peer_certificate_chain_sha256 is Some {
        lemma_strs_roundtrip(x.pinned_peer_certificate_chain_sha256.unwrap());
    }
    assert(get_opt_strs(m13, "pinnedPeerCertificateChainSha256"@) == Some(x.pinned_peer_certificate_chain_sha256));
    assert(get_opt_strs(m14, "pinnedPeerCertificateChainSha256"@) == get_opt_strs(m13, "pinnedPeerCertificateChainSha256"@));
    assert(get_opt_strs(m15, "pinnedPeerCertificateChainSha256"@) == get_opt_strs(m14, "pinnedPeerCertificateChainSha256"@));
    assert(get_opt_strs(m16, "pinnedPeerCertificateChainSha256"@) == get_opt_strs(m15, "pinnedPeerCertificateChainSha256"@));
    assert(get_opt_strs(m17, "pinnedPeerCertificateChainSha256"@) == get_opt_strs(m16, "pinnedPeerCertificateChainSha256"@));
    assert(get_opt_strs(m18, "pinnedPeerCertificateChainSha256"@) == get_opt_strs(m17, "pinnedPeerCertificateChainSha256"@));
    if x.curve_preferences is Some {
        lemma_strs_roundtrip(x.curve_preferences.unwrap());
    }
    assert(get_opt_strs(m14, "curvePreferences"@) == Some(x.curve_preferences));
    assert(get_opt_strs(m15, "curvePreferences"@) == get_opt_strs(m14, "curvePreferences"@));
    assert(get_opt_strs(m16, "curvePreferences"@) == get_opt_strs(m15, "curvePreferences"@));
    assert(get_opt_strs(m17, "curvePreferences"@) == get_opt_strs(m16, "curvePreferences"@));
    assert(get_opt_strs(m18, "curvePreferences"@) == get_opt_strs(m17, "curvePreferences"@));
    assert(get_opt_str(m15, "masterKeyLog"@) == Some(x.master_key_log));
    assert(get_opt_str(m16, "masterKeyLog"@) == get_opt_str(m15, "masterKeyLog"@));
    assert(get_opt_str(m17, "masterKeyLog"@) == get_opt_str(m16, "masterKeyLog"@));
    assert(get_opt_str(m18, "masterKeyLog"@) == get_opt_str(m17, "masterKeyLog"@));
    assert(get_opt_str(m16, "echConfigList"@) == Some(x.ech_config_list));
    assert(get_opt_str(m17, "echConfigList"@) == get_opt_str(m16, "echConfigList"@));
    assert(get_opt_str(m18, "echConfigList"@) == get_opt_str(m17, "echConfigList"@));
    assert(get_opt_str(m17, "echServerKeys"@) == Some(x.ech_server_keys));
    assert(get_opt_str(m18, "echServerKeys"@) == get_opt_str(m17, "echServerKeys"@));
    assert(get_opt_str(m18, "echForceQuery"@) == Some(x.ech_force_query));
}

#[verifier::rlimit(100)]
pub proof fn lemma_tls_roundtrip(x: TlsSettingsV)
    ensures
        spec_tls_of_json(spec_tls_json(x)) == Some(x),
{
    lemma_tls_gets_head(x);
    lemma_tls_gets_mid(x);
    lemma_tls_gets_tail(x);
    assert(spec_tls_of_json(spec_tls_json(x)).unwrap() =~= x);
}

} // verus!

verus! {

// ---- shadowsocks servers -------------------------------------------------------

pub open spec fn spec_ss_server_json(x: ShadowsocksServerV) -> JModel {
    JModel::Obj(
        with_str(
            with_str(
                with_num(with_str(Map::empty(), "address"@, x.address), "port"@, x.port as u64),
                "method"@,
                x.method,
            ),
            "password"@,
            x.password,
        ),
    )
}

pub fn ss_server_to_value(x: &ShadowsocksServer) -> (r: Value)
    ensures
        vmodel(r) == spec_ss_server_json(x@),
{
    let mut r = jv_new_obj();
    put_str(&mut r, "address", x.address.as_str());
    put_num(&mut r, "port", x.port as u64);
    put_str(&mut r, "method", x.method.as_str());
    put_str(&mut r, "password", x.password.as_str());
    r
}

pub open spec fn spec_ss_server_of_json(j: JModel) -> Option<ShadowsocksServerV> {
    match j {
        JModel::Obj(m) => match (get_str(m, "address"@), get_u64(m, "port"@), get_str(
            m,
            "method"@,
        ), get_str(m, "password"@)) {
            (Some(address), Some(port), Some(method), Some(password)) => if port <= u16::MAX as u64 {
                Some(
                    ShadowsocksServerV { address, port: port as u16, method, password },
                )
            } else {
                None
            },
            _ => None,
        },
        _ => None,
    }
}

pub fn ss_server_of_value(v: &Value) -> (r: Option<ShadowsocksServer>)
    ensures
        match r {
            Some(x) => spec_ss_server_of_json(vmodel(*v)) == Some(x@),
            None => spec_ss_server_of_json(vmodel(*v)) is None,
        },
{
    if !crate::jsonval::jv_is_obj(v) {
        return None;
    }
    let address = match read_str(v, "address") {
        Some(x) => x,
        None => {
            return None;
        },
    };
    let port64 = match read_u64(v, "port") {
        Some(x) => x,
        None => {
            return None;
        },
    };
    if port64 > u16::MAX as u64 {
        return None;
    }
    let method = match read_str(v, "method") {
        Some(x) => x,
        None => {
            return None;
        },
    };
    let password = match read_str(v, "password") {
        Some(x) => x,
        None => {
            return None;
        },
    };
    Some(ShadowsocksServer { address, port: port64 as u16, method, password })
}

pub proof fn lemma_ss_server_roundtrip(x: ShadowsocksServerV)
    ensures
        spec_ss_server_of_json(spec_ss_server_json(x)) == Some(x),
{
    reveal_strlit("address");
    reveal_strlit("port");
    reveal_strlit("method");
    reveal_strlit("password");
    assert("address"@.len() == 7 && "port"@.len() == 4 && "method"@.len() == 6 && "password"@.len()
        == 8);
    assert("address"@ != "port"@ && "address"@ != "method"@ && "address"@ != "password"@ && "port"@
        != "method"@ && "port"@ != "password"@ && "method"@ != "password"@);
    crate::numstr::lemma_dec_str_canonical(x.port as u64);
    let m = spec_ss_server_json(x)->Obj_0;
    assert(get_str(m, "address"@) == Some(x.address));
    assert(get_u64(m, "port"@) == Some(x.port as u64));
    assert(get_str(m, "method"@) == Some(x.method));
    assert(get_str(m, "password"@) == Some(x.password));
    assert(spec_ss_server_of_json(spec_ss_server_json(x)).unwrap() =~= x);
}

pub open spec fn ss_servers_json(a: Seq<ShadowsocksServerV>) -> Seq<JModel> {
    a.map_values(|x: ShadowsocksServerV| spec_ss_server_json(x))
}

pub open spec fn all_ss_servers(a: Seq<JModel>) -> bool {
    forall|i: int| 0 <= i < a.len() ==> spec_ss_server_of_json(a[i]) is Some
}

pub open spec fn ss_servers_of_json(a: Seq<JModel>) -> Option<Seq<ShadowsocksServerV>> {
    if all_ss_servers(a) {
        Some(Seq::new(a.len(), |i: int| spec_ss_server_of_json(a[i]).unwrap()))
    } else {
        None
    }
}

pub fn ss_servers_to_value(a: &Vec<ShadowsocksServer>) -> (r: Value)
    ensures
        vmodel(r) == JModel::Arr(ss_servers_json(a@.map_values(|x: ShadowsocksServer| x@))),
{
    let ghost av = a@.map_values(|x: ShadowsocksServer| x@);
    let mut r = jv_new_arr();
    let mut i: usize = 0;
    proof {
        assert(ss_servers_json(av.take(0)) =~= Seq::<JModel>::empty());
    }
    while i < a.len()
        invariant
            i <= a@.len(),
            av == a@.map_values(|x: ShadowsocksServer| x@),
            vmodel(r) == JModel::Arr(ss_servers_json(av.take(i as int))),
        decreases a@.len() - i,
    {
        let x = ss_server_to_value(&a[i]);
        jv_arr_push(&mut r, x);
        proof {
            assert(av.take(i + 1).drop_last() =~= av.take(i as int));
            assert(ss_servers_json(av.take(i + 1)) =~= ss_servers_json(av.take(i as int)).push(
                spec_ss_server_json(av[i as int]),
            ));
        }
        i = i + 1;
    }
    proof {
        assert(av.take(a@.len() as int) =~= av);
    }
    r
}

pub fn ss_servers_of_value(v: &Value) -> (r: Option<Vec<ShadowsocksServer>>)
    ensures
        match r {
            Some(a) => vmodel(*v) is Arr && ss_servers_of_json(vmodel(*v)->Arr_0) == Some(
                a@.map_values(|x: ShadowsocksServer| x@),
            ),
            None => !(vmodel(*v) is Arr) || ss_servers_of_json(vmodel(*v)->Arr_0) is None,
        },
{
    if !crate::jsonval::jv_is_arr(v) {
        return None;
    }
    let ghost a = vmodel(*v)->Arr_0;
    let n = jv_arr_len(v);
    let mut out: Vec<ShadowsocksServer> = Vec::new();
    let mut i: usize = 0;
    while i < n
        invariant
            i <= n,
            vmodel(*v) is Arr,
            a == vmodel(*v)->Arr_0,
            n == a.len(),
            forall|m: int| 0 <= m < i ==> spec_ss_server_of_json(a[m]) is Some,
            out@.map_values(|x: ShadowsocksServer| x@) =~= Seq::new(
                i as nat,
                |m: int| spec_ss_server_of_json(a[m]).unwrap(),
            ),
        decreases n - i,
    {
        let x = jv_arr_get(v, i);
        match ss_server_of_value(x) {
            Some(u) => {
                let ghost pre = out@.map_values(|xx: ShadowsocksServer| xx@);
                let ghost uv = u@;
                out.push(u);
                proof {
                    assert(out@.map_values(|xx: ShadowsocksServer| xx@) =~= pre.push(uv));
                    assert(out@.map_values(|xx: ShadowsocksServer| xx@) =~= Seq::new(
                        (i + 1) as nat,
                        |m: int| spec_ss_server_of_json(a[m]).unwrap(),
                    ));
                }
            },
            None => {
                proof {
                    assert(!all_ss_servers(a));
                }
                return None;
            },
        }
        i = i + 1;
    }
    proof {
        assert(all_ss_servers(a));
        assert(out@.map_values(|x: ShadowsocksServer| x@) =~= ss_servers_of_json(a).unwrap());
    }
    Some(out)
}

pub proof fn lemma_ss_servers_roundtrip(a: Seq<ShadowsocksServerV>)
    ensures
        ss_servers_of_json(ss_servers_json(a)) == Some(a),
{
    assert forall|i: int| 0 <= i < a.len() implies spec_ss_server_of_json(ss_servers_json(a)[i])
        is Some by {
        lemma_ss_server_roundtrip(a[i]);
    }
    assert(all_ss_servers(ss_servers_json(a)));
    assert forall|i: int| 0 <= i < a.len() implies spec_ss_server_of_json(
        ss_servers_json(a)[i],
    ).unwrap() == a[i] by {
        lemma_ss_server_roundtrip(a[i]);
    }
    assert(ss_servers_of_json(ss_servers_json(a)).unwrap() =~= a);
}

} // verus!

verus! {

// ---- vnext entries -------------------------------------------------------------

pub open spec fn spec_vnext_json(x: VNextV) -> JModel {
    JModel::Obj(
        Map::empty().insert("address"@, JModel::Str(x.address)).insert(
            "port"@,
            JModel::Num(dec_str(x.port as nat)),
        ).insert("users"@, JModel::Arr(users_json(x.users))),
    )
}

pub fn vnext_to_value(x: &VNext) -> (r: Value)
    ensures
        vmodel(r) == spec_vnext_json(x@),
{
    let mut r = jv_new_obj();
    put_str(&mut r, "address", x.address.as_str());
    put_num(&mut r, "port", x.port as u64);
    let users = users_to_value(&x.users);
    jv_obj_insert(&mut r, "users", users);
    r
}

pub open spec fn spec_vnext_of_json(j: JModel) -> Option<VNextV> {
    match j {
        JModel::Obj(m) => {
            if get_str(m, "address"@) is Some && get_u64(m, "port"@) is Some && get_u64(
                m,
                "port"@,
            ).unwrap() <= u16::MAX as u64 && m.contains_key("users"@) && m["users"@] is Arr
                && users_of_json(m["users"@]->Arr_0) is Some {
                Some(
                    VNextV {
                        address: get_str(m, "address"@).unwrap(),
                        port: get_u64(m, "port"@).unwrap() as u16,
                        users: users_of_json(m["users"@]->Arr_0).unwrap(),
                    },
                )
            } else {
                None
            }
        },
        _ => None,
    }
}

pub fn vnext_of_value(v: &Value) -> (r: Option<VNext>)
    ensures
        match r {
            Some(x) => spec_vnext_of_json(vmodel(*v)) == Some(x@),
            None => spec_vnext_of_json(vmodel(*v)) is None,
        },
{
    if !crate::jsonval::jv_is_obj(v) {
        return None;
    }
    let address = match read_str(v, "address") {
        Some(x) => x,
        None => {
            return None;
        },
    };
    let port64 = match read_u64(v, "port") {
        Some(x) => x,
        None => {
            return None;
        },
    };
    if port64 > u16::MAX as u64 {
        return None;
    }
    let users = match jv_obj_get(v, "users") {
        Some(uv) => match users_of_value(uv) {
            Some(u) => u,
            None => {
                return None;
            },
        },
        None => {
            return None;
        },
    };
    Some(VNext { address, port: port64 as u16, users })
}

pub proof fn lemma_vnext_roundtrip(x: VNextV)
    ensures
        spec_vnext_of_json(spec_vnext_json(x)) == Some(x),
{
    reveal_strlit("address");
    reveal_strlit("port");
    reveal_strlit("users");
    assert("address"@.len() == 7 && "port"@.len() == 4 && "users"@.len() == 5);
    assert("address"@ != "port"@ && "address"@ != "users"@ && "port"@ != "users"@);
    crate::numstr::lemma_dec_str_canonical(x.port as u64);
    lemma_users_roundtrip(x.users);
    let m = spec_vnext_json(x)->Obj_0;
    assert(get_str(m, "address"@) == Some(x.address));
    assert(get_u64(m, "port"@) == Some(x.port as u64));
    assert(m["users"@] == JModel::Arr(users_json(x.users)));
    assert(spec_vnext_of_json(spec_vnext_json(x)).unwrap() =~= x);
}

pub open spec fn vnexts_json(a: Seq<VNextV>) -> Seq<JModel> {
    a.map_values(|x: VNextV| spec_vnext_json(x))
}

pub open spec fn all_vnexts(a: Seq<JModel>) -> bool {
    forall|i: int| 0 <= i < a.len() ==> spec_vnext_of_json(a[i]) is Some
}

pub open spec fn vnexts_of_json(a: Seq<JModel>) -> Option<Seq<VNextV>> {
    if all_vnexts(a) {
        Some(Seq::new(a.len(), |i: int| spec_vnext_of_json(a[i]).unwrap()))
    } else {
        None
    }
}

pub fn vnexts_to_value(a: &Vec<VNext>) -> (r: Value)
    ensures
        vmodel(r) == JModel::Arr(vnexts_json(a@.map_values(|x: VNext| x@))),
{
    let ghost av = a@.map_values(|x: VNext| x@);
    let mut r = jv_new_arr();
    let mut i: usize = 0;
    proof {
        assert(vnexts_json(av.take(0)) =~= Seq::<JModel>::empty());
    }
    while i < a.len()
        invariant
            i <= a@.len(),
            av == a@.map_values(|x: VNext| x@),
            vmodel(r) == JModel::Arr(vnexts_json(av.take(i as int))),
        decreases a@.len() - i,
    {
        let x = vnext_to_value(&a[i]);
        jv_arr_push(&mut r, x);
        proof {
            assert(av.take(i + 1).drop_last() =~= av.take(i as int));
            assert(vnexts_json(av.take(i + 1)) =~= vnexts_json(av.take(i as int)).push(
                spec_vnext_json(av[i as int]),
            ));
        }
        i = i + 1;
    }
    proof {
        assert(av.take(a@.len() as int) =~= av);
    }
    r
}

pub fn vnexts_of_value(v: &Value) -> (r: Option<Vec<VNext>>)
    ensures
        match r {
            Some(a) => vmodel(*v) is Arr && vnexts_of_json(vmodel(*v)->Arr_0) == Some(
                a@.map_values(|x: VNext| x@),
            ),
            None => !(vmodel(*v) is Arr) || vnexts_of_json(vmodel(*v)->Arr_0) is None,
        },
{
    if !crate::jsonval::jv_is_arr(v) {
        return None;
    }
    let ghost a = vmodel(*v)->Arr_0;
    let n = jv_arr_len(v);
    let mut out: Vec<VNext> = Vec::new();
    let mut i: usize = 0;
    while i < n
        invariant
            i <= n,
            vmodel(*v) is Arr,
            a == vmodel(*v)->Arr_0,
            n == a.len(),
            forall|m: int| 0 <= m < i ==> spec_vnext_of_json(a[m]) is Some,
            out@.map_values(|x: VNext| x@) =~= Seq::new(
                i as nat,
                |m: int| spec_vnext_of_json(a[m]).unwrap(),
            ),
        decreases n - i,
    {
        let x = jv_arr_get(v, i);
        match vnext_of_value(x) {
            Some(u) => {
                let ghost pre = out@.map_values(|xx: VNext| xx@);
                let ghost uv = u@;
                out.push(u);
                proof {
                    assert(out@.map_values(|xx: VNext| xx@) =~= pre.push(uv));
                    assert(out@.map_values(|xx: VNext| xx@) =~= Seq::new(
                        (i + 1) as nat,
                        |m: int| spec_vnext_of_json(a[m]).unwrap(),
                    ));
                }
            },
            None => {
                proof {
                    assert(!all_vnexts(a));
                }
                return None;
            },
        }
        i = i + 1;
    }
    proof {
        assert(all_vnexts(a));
        assert(out@.map_values(|x: VNext| x@) =~= vnexts_of_json(a).unwrap());
    }
    Some(out)
}

pub proof fn lemma_vnexts_roundtrip(a: Seq<VNextV>)
    ensures
        vnexts_of_json(vnexts_json(a)) == Some(a),
{
    assert forall|i: int| 0 <= i < a.len() implies spec_vnext_of_json(vnexts_json(a)[i])
        is Some by {
        lemma_vnext_roundtrip(a[i]);
    }
    assert(all_vnexts(vnexts_json(a)));
    assert forall|i: int| 0 <= i < a.len() implies spec_vnext_of_json(vnexts_json(a)[i]).unwrap()
        == a[i] by {
        lemma_vnext_roundtrip(a[i]);
    }
    assert(vnexts_of_json(vnexts_json(a)).unwrap() =~= a);
}

// ---- the settings object -------------------------------------------------------

pub open spec fn spec_settings_json(s: SettingsV) -> JModel {
    let m = Map::<Seq<char>, JModel>::empty();
    let m = match s.vnext {
        Some(a) => m.insert("vnext"@, JModel::Arr(vnexts_json(a))),
        None => m,
    };
    let m = match s.servers {
        Some(a) => m.insert("servers"@, JModel::Arr(ss_servers_json(a))),
        None => m,
    };
    JModel::Obj(m)
}

pub fn settings_to_value(s: &Settings) -> (r: Value)
    ensures
        vmodel(r) == spec_settings_json(s@),
{
    let mut r = jv_new_obj();
    match &s.vnext {
        Some(a) => {
            let x = vnexts_to_value(a);
            jv_obj_insert(&mut r, "vnext", x);
        },
        None => {},
    }
    match &s.servers {
        Some(a) => {
            let x = ss_servers_to_value(a);
            jv_obj_insert(&mut r, "servers", x);
        },
        None => {},
    }
    r
}

pub open spec fn spec_settings_of_json(j: JModel) -> Option<SettingsV> {
    match j {
        JModel::Obj(m) => {
            let vn_ok = !m.contains_key("vnext"@) || m["vnext"@] is Null || (m["vnext"@] is Arr
                && vnexts_of_json(m["vnext"@]->Arr_0) is Some);
            let sv_ok = !m.contains_key("servers"@) || m["servers"@] is Null || (m["servers"@]
                is Arr && ss_servers_of_json(m["servers"@]->Arr_0) is Some);
            if vn_ok && sv_ok {
                Some(
                    SettingsV {
                        vnext: if m.contains_key("vnext"@) && m["vnext"@] is Arr {
                            vnexts_of_json(m["vnext"@]->Arr_0)
                        } else {
                            None
                        },
                        servers: if m.contains_key("servers"@) && m["servers"@] is Arr {
                            ss_servers_of_json(m["servers"@]->Arr_0)
                        } else {
                            None
                        },
                    },
                )
            } else {
                None
            }
        },
        _ => None,
    }
}

pub fn settings_of_value(v: &Value) -> (r: Option<Settings>)
    ensures
        match r {
            Some(s) => spec_settings_of_json(vmodel(*v)) == Some(s@),
            None => spec_settings_of_json(vmodel(*v)) is None,
        },
{
    if !crate::jsonval::jv_is_obj(v) {
        return None;
    }
    let vnext: Option<Vec<VNext>> = match jv_obj_get(v, "vnext") {
        Some(x) => {
            if crate::jsonval::jv_is_null(x) {
                None
            } else {
                match vnexts_of_value(x) {
                    Some(a) => Some(a),
                    None => {
                        return None;
                    },
                }
            }
        },
        None => None,
    };
    let servers: Option<Vec<ShadowsocksServer>> = match jv_obj_get(v, "servers") {
        Some(x) => {
            if crate::jsonval::jv_is_null(x) {
                None
            } else {
                match ss_servers_of_value(x) {
                    Some(a) => Some(a),
                    None => {
                        return None;
                    },
                }
            }
        },
        None => None,
    };
    Some(Settings { vnext, servers })
}

pub proof fn lemma_settings_roundtrip(s: SettingsV)
    ensures
        spec_settings_of_json(spec_settings_json(s)) == Some(s),
{
    reveal_strlit("vnext");
    reveal_strlit("servers");
    assert("vnext"@.len() == 5 && "servers"@.len() == 7);
    assert("vnext"@ != "servers"@);
    if s.vnext is Some {
        lemma_vnexts_roundtrip(s.vnext.unwrap());
    }
    if s.servers is Some {
        lemma_ss_servers_roundtrip(s.servers.unwrap());
    }
    assert(spec_settings_of_json(spec_settings_json(s)).unwrap() =~= s);
}

} // verus!

verus! {

// ---- stream settings -------------------------------------------------------------

pub open spec fn spec_stream_json(s: StreamSettingsV) -> JModel {
    let m = Map::<Seq<char>, JModel>::empty();
    let m = with_opt_str(m, "network"@, s.network);
    let m = with_opt_str(m, "security"@, s.security);
    let m = match s.grpc {
        Some(g) => m.insert("grpcSettings"@, spec_grpc_json(g)),
        None => m,
    };
    let m = match s.reality {
        Some(x) => m.insert("realitySettings"@, spec_reality_json(x)),
        None => m,
    };
    let m = match s.tls {
        Some(t) => m.insert("tlsSettings"@, spec_tls_json(t)),
        None => m,
    };
    JModel::Obj(m)
}

pub fn stream_to_value(s: &StreamSettings) -> (r: Value)
    ensures
        vmodel(r) == spec_stream_json(s@),
{
    let mut r = jv_new_obj();
    put_opt_str(&mut r, "network", &s.network);
    put_opt_str(&mut r, "security", &s.security);
    match &s.grpc {
        Some(g) => {
            let x = grpc_to_value(g);
            jv_obj_insert(&mut r, "grpcSettings", x);
        },
        None => {},
    }
    match &s.reality {
        Some(g) => {
            let x = reality_to_value(g);
            jv_obj_insert(&mut r, "realitySettings", x);
        },
        None => {},
    }
    match &s.tls {
        Some(g) => {
            let x = tls_to_value(g);
            jv_obj_insert(&mut r, "tlsSettings", x);
        },
        None => {},
    }
    r
}

pub open spec fn spec_stream_of_json(j: JModel) -> Option<StreamSettingsV> {
    match j {
        JModel::Obj(m) => {
            let g_ok = !m.contains_key("grpcSettings"@) || m["grpcSettings"@] is Null
                || spec_grpc_of_json(m["grpcSettings"@]) is Some;
            let r_ok = !m.contains_key("realitySettings"@) || m["realitySettings"@] is Null
                || spec_reality_of_json(m["realitySettings"@]) is Some;
            let t_ok = !m.contains_key("tlsSettings"@) || m["tlsSettings"@] is Null
                || spec_tls_of_json(m["tlsSettings"@]) is Some;
            if get_opt_str(m, "network"@) is Some && get_opt_str(m, "security"@) is Some && g_ok
                && r_ok && t_ok {
                Some(
                    StreamSettingsV {
                        network: get_opt_str(m, "network"@).unwrap(),
                        security: get_opt_str(m, "security"@).unwrap(),
                        grpc: if m.contains_key("grpcSettings"@) && !(m["grpcSettings"@]
                            is Null) {
                            spec_grpc_of_json(m["grpcSettings"@])
                        } else {
                            None
                        },
                        reality: if m.contains_key("realitySettings"@) && !(m["realitySettings"@]
                            is Null) {
                            spec_reality_of_json(m["realitySettings"@])
                        } else {
                            None
                        },
                        tls: if m.contains_key("tlsSettings"@) && !(m["tlsSettings"@] is Null) {
                            spec_tls_of_json(m["tlsSettings"@])
                        } else {
                            None
                        },
                    },
                )
            } else {
                None
            }
        },
        _ => None,
    }
}

pub fn stream_of_value(v: &Value) -> (r: Option<StreamSettings>)
    ensures
        match r {
            Some(s) => spec_stream_of_json(vmodel(*v)) == Some(s@),
            None => spec_stream_of_json(vmodel(*v)) is None,
        },
{
    if !crate::jsonval::jv_is_obj(v) {
        return None;
    }
    let network = match read_opt_str(v, "network") {
        Some(x) => x,
        None => {
            return None;
        },
    };
    let security = match read_opt_str(v, "security") {
        Some(x) => x,
        None => {
            return None;
        },
    };
    let grpc: Option<GRPCSettings> = match jv_obj_get(v, "grpcSettings") {
        Some(x) => {
            if crate::jsonval::jv_is_null(x) {
                None
            } else {
                match grpc_of_value(x) {
                    Some(g) => Some(g),
                    None => {
                        return None;
                    },
                }
            }
        },
        None => None,
    };
    let reality: Option<RealitySettings> = match jv_obj_get(v, "realitySettings") {
        Some(x) => {
            if crate::jsonval::jv_is_null(x) {
                None
            } else {
                match reality_of_value(x) {
                    Some(g) => Some(g),
                    None => {
                        return None;
                    },
                }
            }
        },
        None => None,
    };
    let tls: Option<TlsSettings> = match jv_obj_get(v, "tlsSettings") {
        Some(x) => {
            if crate::jsonval::jv_is_null(x) {
                None
            } else {
                match tls_of_value(x) {
                    Some(g) => Some(g),
                    None => {
                        return None;
                    },
                }
            }
        },
        None => None,
    };
    Some(StreamSettings { network, security, grpc, reality, tls })
}

pub proof fn lemma_stream_roundtrip(s: StreamSettingsV)
    ensures
        spec_stream_of_json(spec_stream_json(s)) == Some(s),
{
    reveal_strlit("network");
    reveal_strlit("security");
    reveal_strlit("grpcSettings");
    reveal_strlit("realitySettings");
    reveal_strlit("tlsSettings");
    assert("network"@.len() == 7 && "security"@.len() == 8 && "grpcSettings"@.len() == 12
        && "realitySettings"@.len() == 15 && "tlsSettings"@.len() == 11);
    assert("network"@ != "security"@ && "network"@ != "grpcSettings"@ && "network"@
        != "realitySettings"@ && "network"@ != "tlsSettings"@);
    assert("security"@ != "grpcSettings"@ && "security"@ != "realitySettings"@ && "security"@
        != "tlsSettings"@);
    assert("grpcSettings"@ != "realitySettings"@ && "grpcSettings"@ != "tlsSettings"@
        && "realitySettings"@ != "tlsSettings"@);
    if s.grpc is Some {
        lemma_grpc_roundtrip(s.grpc.unwrap());
        assert(!(spec_grpc_json(s.grpc.unwrap()) is Null));
    }
    if s.reality is Some {
        lemma_reality_roundtrip(s.reality.unwrap());
        assert(!(spec_reality_json(s.reality.unwrap()) is Null));
    }
    if s.tls is Some {
        lemma_tls_roundtrip(s.tls.unwrap());
        assert(!(spec_tls_json(s.tls.unwrap()) is Null));
    }
    let m = spec_stream_json(s)->Obj_0;
    assert(get_opt_str(m, "network"@) == Some(s.network));
    assert(get_opt_str(m, "security"@) == Some(s.security));
    assert(spec_stream_of_json(spec_stream_json(s)).unwrap() =~= s);
}

// ---- mux settings ----------------------------------------------------------------

pub open spec fn spec_mux_json(x: MuxSettingsV) -> JModel {
    let m = Map::<Seq<char>, JModel>::empty();
    let m = with_str(m, "enable"@, x.enable);
    let m = with_num_or_null(m, "concurrency"@, opt_u32_widen(x.concurrency));
    let m = match x.xudp_concurrency {
        Some(n) => m.insert("xudpConcurrency"@, JModel::Num(dec_str(n as nat))),
        None => m,
    };
    let m = with_opt_str(m, "xudpProxyUDP443"@, x.xudp_proxy_udp443);
    JModel::Obj(m)
}

pub fn mux_to_value(x: &MuxSettings) -> (r: Value)
    ensures
        vmodel(r) == spec_mux_json(x@),
{
    let mut r = jv_new_obj();
    put_str(&mut r, "enable", x.enable.as_str());
    let conc: Option<u64> = match x.concurrency {
        Some(n) => Some(n as u64),
        None => None,
    };
    put_num_or_null(&mut r, "concurrency", &conc);
    match x.xudp_concurrency {
        Some(n) => {
            let y = jv_num_u64(n as u64);
            jv_obj_insert(&mut r, "xudpConcurrency", y);
        },
        None => {},
    }
    put_opt_str(&mut r, "xudpProxyUDP443", &x.xudp_proxy_udp443);
    r
}

pub open spec fn spec_mux_of_json(j: JModel) -> Option<MuxSettingsV> {
    match j {
        JModel::Obj(m) => {
            let c = get_opt_u64(m, "concurrency"@);
            let xc = get_opt_u64(m, "xudpConcurrency"@);
            let c_ok = c is Some && (c.unwrap() is None || c.unwrap().unwrap() <= u32::MAX as u64);
            let xc_ok = xc is Some && (xc.unwrap() is None || xc.unwrap().unwrap() <= u32::MAX
                as u64);
            if get_str(m, "enable"@) is Some && c_ok && xc_ok && get_opt_str(
                m,
                "xudpProxyUDP443"@,
            ) is Some {
                Some(
                    MuxSettingsV {
                        enable: get_str(m, "enable"@).unwrap(),
                        concurrency: match c.unwrap() {
                            Some(n) => Some(n as u32),
                            None => None,
                        },
                        xudp_concurrency: match xc.unwrap() {
                            Some(n) => Some(n as u32),
                            None => None,
                        },
                        xudp_proxy_udp443: get_opt_str(m, "xudpProxyUDP443"@).unwrap(),
                    },
                )
            } else {
                None
            }
        },
        _ => None,
    }
}

pub fn mux_of_value(v: &Value) -> (r: Option<MuxSettings>)
    ensures
        match r {
            Some(x) => spec_mux_of_json(vmodel(*v)) == Some(x@),
            None => spec_mux_of_json(vmodel(*v)) is None,
        },
{
    if !crate::jsonval::jv_is_obj(v) {
        return None;
    }
    let enable = match read_str(v, "enable") {
        Some(x) => x,
        None => {
            return None;
        },
    };
    let concurrency: Option<u32> = match read_opt_u64(v, "concurrency") {
        Some(Some(n)) => {
            if n > u32::MAX as u64 {
                return None;
            }
            Some(n as u32)
        },
        Some(None) => None,
        None => {
            return None;
        },
    };
    let xudp_concurrency: Option<u32> = match read_opt_u64(v, "xudpConcurrency") {
        Some(Some(n)) => {
            if n > u32::MAX as u64 {
                return None;
            }
            Some(n as u32)
        },
        Some(None) => None,
        None => {
            return None;
        },
    };
    let xudp_proxy_udp443 = match read_opt_str(v, "xudpProxyUDP443") {
        Some(x) => x,
        None => {
            return None;
        },
    };
    Some(MuxSettings { enable, concurrency, xudp_concurrency, xudp_proxy_udp443 })
}

pub proof fn lemma_mux_roundtrip(x: MuxSettingsV)
    ensures
        spec_mux_of_json(spec_mux_json(x)) == Some(x),
{
    reveal_strlit("enable");
    reveal_strlit("concurrency");
    reveal_strlit("xudpConcurrency");
    reveal_strlit("xudpProxyUDP443");
    assert("enable"@.len() == 6 && "concurrency"@.len() == 11 && "xudpConcurrency"@.len() == 15
        && "xudpProxyUDP443"@.len() == 15);
    assert("xudpConcurrency"@[4] == 'C' && "xudpProxyUDP443"@[4] == 'P');
    assert("enable"@ != "concurrency"@ && "enable"@ != "xudpConcurrency"@ && "enable"@
        != "xudpProxyUDP443"@ && "concurrency"@ != "xudpConcurrency"@ && "concurrency"@
        != "xudpProxyUDP443"@ && "xudpConcurrency"@ != "xudpProxyUDP443"@);
    if x.concurrency is Some {
        crate::numstr::lemma_dec_str_canonical(x.concurrency.unwrap() as u64);
    }
    if x.xudp_concurrency is Some {
        crate::numstr::lemma_dec_str_canonical(x.xudp_concurrency.unwrap() as u64);
    }
    let m = spec_mux_json(x)->Obj_0;
    assert(get_str(m, "enable"@) == Some(x.enable));
    assert(get_opt_u64(m, "concurrency"@) == Some(opt_u32_widen(x.concurrency)));
    assert(get_opt_u64(m, "xudpConcurrency"@) == Some(opt_u32_widen(x.xudp_concurrency)));
    assert(get_opt_str(m, "xudpProxyUDP443"@) == Some(x.xudp_proxy_udp443));
    assert(spec_mux_of_json(spec_mux_json(x)).unwrap() =~= x);
}

} // verus!

verus! {

// ---- the outbound entry ------------------------------------------------------------

/// The engine-visible form of an outbound: what survives the trip through the
/// config file.  Display metadata is never written, so it does not come back.
pub open spec fn spec_engine_form(c: XrayOutboundClientConfigV) -> XrayOutboundClientConfigV {
    XrayOutboundClientConfigV { extra: None, ..c }
}

pub open spec fn spec_outbound_json(c: XrayOutboundClientConfigV) -> JModel {
    let m = Map::<Seq<char>, JModel>::empty();
    let m = with_opt_str(m, "tag"@, c.tag);
    let m = with_str(m, "protocol"@, c.protocol);
    let m = m.insert("settings"@, spec_settings_json(c.settings));
    let m = m.insert("streamSettings"@, spec_stream_json(c.stream_settings));
    let m = match c.mux {
        Some(x) => m.insert("mux"@, spec_mux_json(x)),
        None => m,
    };
    JModel::Obj(m)
}

/// Renders one outbound into the engine's JSON shape.
pub fn outbound_to_value(c: &XrayOutboundClientConfig) -> (r: Value)
    ensures
        vmodel(r) == spec_outbound_json(c@),
{
    let mut r = jv_new_obj();
    put_opt_str(&mut r, "tag", &c.tag);
    put_str(&mut r, "protocol", c.protocol.as_str());
    let s = settings_to_value(&c.settings);
    jv_obj_insert(&mut r, "settings", s);
    let st = stream_to_value(&c.stream_settings);
    jv_obj_insert(&mut r, "streamSettings", st);
    match &c.mux {
        Some(x) => {
            let mx = mux_to_value(x);
            jv_obj_insert(&mut r, "mux", mx);
        },
        None => {},
    }
    r
}

pub open spec fn spec_outbound_of_json(j: JModel) -> Option<XrayOutboundClientConfigV> {
    match j {
        JModel::Obj(m) => {
            let mux_ok = !m.contains_key("mux"@) || m["mux"@] is Null || spec_mux_of_json(
                m["mux"@],
            ) is Some;
            if get_opt_str(m, "tag"@) is Some && get_str(m, "protocol"@) is Some && m.contains_key(
                "settings"@,
            ) && spec_settings_of_json(m["settings"@]) is Some && m.contains_key(
                "streamSettings"@,
            ) && spec_stream_of_json(m["streamSettings"@]) is Some && mux_ok {
                Some(
                    XrayOutboundClientConfigV {
                        tag: get_opt_str(m, "tag"@).unwrap(),
                        protocol: get_str(m, "protocol"@).unwrap(),
                        settings: spec_settings_of_json(m["settings"@]).unwrap(),
                        stream_settings: spec_stream_of_json(m["streamSettings"@]).unwrap(),
                        mux: if m.contains_key("mux"@) && !(m["mux"@] is Null) {
                            spec_mux_of_json(m["mux"@])
                        } else {
                            None
                        },
                        extra: None,
                    },
                )
            } else {
                None
            }
        },
        _ => None,
    }
}

/// Reads one outbound back from the engine's JSON shape; a malformed entry
/// reads as nothing and is dropped by the section readers.
pub fn outbound_of_value(v: &Value) -> (r: Option<XrayOutboundClientConfig>)
    ensures
        match r {
            Some(c) => spec_outbound_of_json(vmodel(*v)) == Some(c@),
            None => spec_outbound_of_json(vmodel(*v)) is None,
        },
{
    if !crate::jsonval::jv_is_obj(v) {
        return None;
    }
    let tag = match read_opt_str(v, "tag") {
        Some(x) => x,
        None => {
            return None;
        },
    };
    let protocol = match read_str(v, "protocol") {
        Some(x) => x,
        None => {
            return None;
        },
    };
    let settings = match jv_obj_get(v, "settings") {
        Some(x) => match settings_of_value(x) {
            Some(s) => s,
            None => {
                return None;
            },
        },
        None => {
            return None;
        },
    };
    let stream_settings = match jv_obj_get(v, "streamSettings") {
        Some(x) => match stream_of_value(x) {
            Some(s) => s,
            None => {
                return None;
            },
        },
        None => {
            return None;
        },
    };
    let mux: Option<MuxSettings> = match jv_obj_get(v, "mux") {
        Some(x) => {
            if crate::jsonval::jv_is_null(x) {
                None
            } else {
                match mux_of_value(x) {
                    Some(s) => Some(s),
                    None => {
                        return None;
                    },
                }
            }
        },
        None => None,
    };
    Some(XrayOutboundClientConfig { tag, protocol, settings, stream_settings, mux, extra: None })
}

/// Writing an outbound into the config file and reading it back yields the
/// same outbound, up to the display metadata the file never carries.
pub proof fn lemma_outbound_roundtrip(c: XrayOutboundClientConfigV)
    ensures
        spec_outbound_of_json(spec_outbound_json(c)) == Some(spec_engine_form(c)),
{
    reveal_strlit("tag");
    reveal_strlit("protocol");
    reveal_strlit("settings");
    reveal_strlit("streamSettings");
    reveal_strlit("mux");
    assert("tag"@.len() == 3 && "protocol"@.len() == 8 && "settings"@.len() == 8
        && "streamSettings"@.len() == 14 && "mux"@.len() == 3);
    assert("tag"@[0] == 't' && "mux"@[0] == 'm' && "protocol"@[0] == 'p' && "settings"@[0] == 's');
    assert("tag"@ != "protocol"@ && "tag"@ != "settings"@ && "tag"@ != "streamSettings"@ && "tag"@
        != "mux"@);
    assert("protocol"@ != "settings"@ && "protocol"@ != "streamSettings"@ && "protocol"@
        != "mux"@);
    assert("settings"@ != "streamSettings"@ && "settings"@ != "mux"@ && "streamSettings"@
        != "mux"@);
    lemma_settings_roundtrip(c.settings);
    lemma_stream_roundtrip(c.stream_settings);
    if c.mux is Some {
        lemma_mux_roundtrip(c.mux.unwrap());
        assert(!(spec_mux_json(c.mux.unwrap()) is Null));
    }
    assert(!(spec_settings_json(c.settings) is Null));
    assert(!(spec_stream_json(c.stream_settings) is Null));
    let m = spec_outbound_json(c)->Obj_0;
    assert(get_opt_str(m, "tag"@) == Some(c.tag));
    assert(get_str(m, "protocol"@) == Some(c.protocol));
    assert(m["settings"@] == spec_settings_json(c.settings));
    assert(m["streamSettings"@] == spec_stream_json(c.stream_settings));
    assert(spec_outbound_of_json(spec_outbound_json(c)).unwrap() =~= spec_engine_form(c));
}

// ---- inbound entries ---------------------------------------------------------------

pub open spec fn spec_inbound_settings_json(s: XrayInboundSettingsV) -> JModel {
    JModel::Obj(with_bool(with_str(Map::empty(), "auth"@, s.auth), "udp"@, s.udp))
}

pub fn inbound_settings_to_value(s: &XrayInboundSettings) -> (r: Value)
    ensures
        vmodel(r) == spec_inbound_settings_json(s@),
{
    let mut r = jv_new_obj();
    put_str(&mut r, "auth", s.auth.as_str());
    put_bool(&mut r, "udp", s.udp);
    r
}

pub open spec fn spec_inbound_settings_of_json(j: JModel) -> Option<XrayInboundSettingsV> {
    match j {
        JModel::Obj(m) => match (get_str(m, "auth"@), get_bool(m, "udp"@)) {
            (Some(auth), Some(udp)) => Some(XrayInboundSettingsV { auth, udp }),
            _ => None,
        },
        _ => None,
    }
}

pub fn inbound_settings_of_value(v: &Value) -> (r: Option<XrayInboundSettings>)
    ensures
        match r {
            Some(s) => spec_inbound_settings_of_json(vmodel(*v)) == Some(s@),
            None => spec_inbound_settings_of_json(vmodel(*v)) is None,
        },
{
    if !crate::jsonval::jv_is_obj(v) {
        return None;
    }
    let auth = match read_str(v, "auth") {
        Some(x) => x,
        None => {
            return None;
        },
    };
    let udp = match read_bool(v, "udp") {
        Some(x) => x,
        None => {
            return None;
        },
    };
    Some(XrayInboundSettings { auth, udp })
}

pub open spec fn spec_inbound_json(x: XrayInboundClientConfigV) -> JModel {
    let m = Map::<Seq<char>, JModel>::empty();
    let m = with_str(m, "tag"@, x.tag);
    let m = with_num(m, "port"@, x.port as u64);
    let m = with_str(m, "listen"@, x.listen);
    let m = with_str(m, "protocol"@, x.protocol);
    let m = m.insert("settings"@, spec_inbound_settings_json(x.settings));
    JModel::Obj(m)
}

pub fn inbound_to_value(x: &XrayInboundClientConfig) -> (r: Value)
    ensures
        vmodel(r) == spec_inbound_json(x@),
{
    let mut r = jv_new_obj();
    put_str(&mut r, "tag", x.tag.as_str());
    put_num(&mut r, "port", x.port as u64);
    put_str(&mut r, "listen", x.listen.as_str());
    put_str(&mut r, "protocol", x.protocol.as_str());
    let s = inbound_settings_to_value(&x.settings);
    jv_obj_insert(&mut r, "settings", s);
    r
}

pub open spec fn spec_inbound_of_json(j: JModel) -> Option<XrayInboundClientConfigV> {
    match j {
        JModel::Obj(m) => {
            if get_str(m, "tag"@) is Some && get_u64(m, "port"@) is Some && get_u64(
                m,
                "port"@,
            ).unwrap() <= u16::MAX as u64 && get_str(m, "listen"@) is Some && get_str(
                m,
                "protocol"@,
            ) is Some && m.contains_key("settings"@) && spec_inbound_settings_of_json(
                m["settings"@],
            ) is Some {
                Some(
                    XrayInboundClientConfigV {
                        tag: get_str(m, "tag"@).unwrap(),
                        port: get_u64(m, "port"@).unwrap() as u16,
                        listen: get_str(m, "listen"@).unwrap(),
                        protocol: get_str(m, "protocol"@).unwrap(),
                        settings: spec_inbound_settings_of_json(m["settings"@]).unwrap(),
                    },
                )
            } else {
                None
            }
        },
        _ => None,
    }
}

pub fn inbound_of_value(v: &Value) -> (r: Option<XrayInboundClientConfig>)
    ensures
        match r {
            Some(x) => spec_inbound_of_json(vmodel(*v)) == Some(x@),
            None => spec_inbound_of_json(vmodel(*v)) is None,
        },
{
    if !crate::jsonval::jv_is_obj(v) {
        return None;
    }
    let tag = match read_str(v, "tag") {
        Some(x) => x,
        None => {
            return None;
        },
    };
    let port64 = match read_u64(v, "port") {
        Some(x) => x,
        None => {
            return None;
        },
    };
    if port64 > u16::MAX as u64 {
        return None;
    }
    let listen = match read_str(v, "listen") {
        Some(x) => x,
        None => {
            return None;
        },
    };
    let protocol = match read_str(v, "protocol") {
        Some(x) => x,
        None => {
            return None;
        },
    };
    let settings = match jv_obj_get(v, "settings") {
        Some(x) => match inbound_settings_of_value(x) {
            Some(s) => s,
            None => {
                return None;
            },
        },
        None => {
            return None;
        },
    };
    Some(XrayInboundClientConfig { tag, port: port64 as u16, listen, protocol, settings })
}

pub proof fn lemma_inbound_roundtrip(x: XrayInboundClientConfigV)
    ensures
        spec_inbound_of_json(spec_inbound_json(x)) == Some(x),
{
    reveal_strlit("tag");
    reveal_strlit("port");
    reveal_strlit("listen");
    reveal_strlit("protocol");
    reveal_strlit("settings");
    reveal_strlit("auth");
    reveal_strlit("udp");
    assert("tag"@.len() == 3 && "port"@.len() == 4 && "listen"@.len() == 6 && "protocol"@.len()
        == 8 && "settings"@.len() == 8 && "auth"@.len() == 4 && "udp"@.len() == 3);
    assert("protocol"@[0] == 'p' && "settings"@[0] == 's');
    assert("tag"@ != "port"@ && "tag"@ != "listen"@ && "tag"@ != "protocol"@ && "tag"@
        != "settings"@);
    assert("port"@ != "listen"@ && "port"@ != "protocol"@ && "port"@ != "settings"@);
    assert("listen"@ != "protocol"@ && "listen"@ != "settings"@ && "protocol"@ != "settings"@);
    assert("auth"@ != "udp"@);
    crate::numstr::lemma_dec_str_canonical(x.port as u64);
    let m = spec_inbound_json(x)->Obj_0;
    assert(get_str(m, "tag"@) == Some(x.tag));
    assert(get_u64(m, "port"@) == Some(x.port as u64));
    assert(get_str(m, "listen"@) == Some(x.listen));
    assert(get_str(m, "protocol"@) == Some(x.protocol));
    assert(m["settings"@] == spec_inbound_settings_json(x.settings));
    assert(spec_inbound_settings_of_json(spec_inbound_settings_json(x.settings)).unwrap()
        =~= x.settings);
    assert(spec_inbound_of_json(spec_inbound_json(x)).unwrap() =~= x);
}

} // verus!

verus! {

// ---- display metadata, stored beside an outbound but never in the engine file

pub open spec fn spec_extra_json(e: crate::model::ExtraOutboundClientConfigV) -> JModel {
    JModel::Obj(with_opt_str(Map::empty(), "client_name"@, e.client_name))
}

pub fn extra_to_value(e: &crate::model::ExtraOutboundClientConfig) -> (r: Value)
    ensures
        vmodel(r) == spec_extra_json(e@),
{
    let mut r = jv_new_obj();
    put_opt_str(&mut r, "client_name", &e.client_name);
    r
}

pub open spec fn spec_extra_of_json(j: JModel) -> Option<crate::model::ExtraOutboundClientConfigV> {
    match j {
        JModel::Obj(m) => match get_opt_str(m, "client_name"@) {
            Some(client_name) => Some(crate::model::ExtraOutboundClientConfigV { client_name }),
            None => None,
        },
        _ => None,
    }
}

pub fn extra_of_value(v: &Value) -> (r: Option<crate::model::ExtraOutboundClientConfig>)
    ensures
        match r {
            Some(e) => spec_extra_of_json(vmodel(*v)) == Some(e@),
            None => spec_extra_of_json(vmodel(*v)) is None,
        },
{
    if !crate::jsonval::jv_is_obj(v) {
        return None;
    }
    match read_opt_str(v, "client_name") {
        Some(client_name) => Some(crate::model::ExtraOutboundClientConfig { client_name }),
        None => None,
    }
}

pub proof fn lemma_extra_roundtrip(e: crate::model::ExtraOutboundClientConfigV)
    ensures
        spec_extra_of_json(spec_extra_json(e)) == Some(e),
{
    reveal_strlit("client_name");
    assert(spec_extra_of_json(spec_extra_json(e)).unwrap() =~= e);
}

} // verus!

verus! {

// ---------------------------------------------------------------------------
// Nesting bounds of the rendered shapes: every outbound or inbound this crate
// prints stays far inside the parser's recursion limit, so rendering one to
// row text and parsing the text back is a proven round trip.
// ---------------------------------------------------------------------------

/// A nesting bound survives widening.
pub proof fn lemma_jbounded_widen(j: JModel, d1: nat, d2: nat)
    requires
        jbounded(j, d1),
        d1 <= d2,
    ensures
        jbounded(j, d2),
    decreases d1,
{
    match j {
        JModel::Arr(a) => {
            assert forall|i: int| 0 <= i < a.len() implies jbounded(
                #[trigger] a[i],
                (d2 - 1) as nat,
            ) by {
                lemma_jbounded_widen(a[i], (d1 - 1) as nat, (d2 - 1) as nat);
            }
        },
        JModel::Obj(m) => {
            assert forall|k: Seq<char>| m.contains_key(k) implies jbounded(
                #[trigger] m[k],
                (d2 - 1) as nat,
            ) by {
                lemma_jbounded_widen(m[k], (d1 - 1) as nat, (d2 - 1) as nat);
            }
        },
        _ => {},
    }
}

/// Every value of the map nests no deeper than `d`.
pub open spec fn jmap_bounded(m: JMap, d: nat) -> bool {
    forall|k: Seq<char>| m.contains_key(k) ==> jbounded(#[trigger] m[k], d)
}

proof fn lemma_jmap_bounded_insert(m: JMap, k: Seq<char>, v: JModel, d: nat)
    requires
        jmap_bounded(m, d),
        jbounded(v, d),
    ensures
        jmap_bounded(m.insert(k, v), d),
{
    assert forall|kk: Seq<char>| m.insert(k, v).contains_key(kk) implies jbounded(
        #[trigger] m.insert(k, v)[kk],
        d,
    ) by {
        if kk != k {
            assert(m.contains_key(kk));
        }
    }
}

proof fn lemma_bounded_with_str(m: JMap, k: Seq<char>, s: Seq<char>, d: nat)
    requires
        d >= 1,
        jmap_bounded(m, d),
    ensures
        jmap_bounded(with_str(m, k, s), d),
{
    lemma_jmap_bounded_insert(m, k, JModel::Str(s), d);
}

proof fn lemma_bounded_with_opt_str(m: JMap, k: Seq<char>, o: Option<Seq<char>>, d: nat)
    requires
        d >= 1,
        jmap_bounded(m, d),
    ensures
        jmap_bounded(with_opt_str(m, k, o), d),
{
    match o {
        Some(s) => lemma_jmap_bounded_insert(m, k, JModel::Str(s), d),
        None => {},
    }
}

proof fn lemma_bounded_with_bool(m: JMap, k: Seq<char>, b: bool, d: nat)
    requires
        d >= 1,
        jmap_bounded(m, d),
    ensures
        jmap_bounded(with_bool(m, k, b), d),
{
    lemma_jmap_bounded_insert(m, k, JModel::Bool(b), d);
}

proof fn lemma_bounded_with_opt_bool(m: JMap, k: Seq<char>, o: Option<bool>, d: nat)
    requires
        d >= 1,
        jmap_bounded(m, d),
    ensures
        jmap_bounded(with_opt_bool(m, k, o), d),
{
    match o {
        Some(b) => lemma_jmap_bounded_insert(m, k, JModel::Bool(b), d),
        None => {},
    }
}

proof fn lemma_bounded_with_num(m: JMap, k: Seq<char>, n: u64, d: nat)
    requires
        d >= 1,
        jmap_bounded(m, d),
    ensures
        jmap_bounded(with_num(m, k, n), d),
{
    lemma_jmap_bounded_insert(m, k, JModel::Num(dec_str(n as nat)), d);
}

proof fn lemma_bounded_with_num_or_null(m: JMap, k: Seq<char>, o: Option<u64>, d: nat)
    requires
        d >= 1,
        jmap_bounded(m, d),
    ensures
        jmap_bounded(with_num_or_null(m, k, o), d),
{
    match o {
        Some(n) => lemma_jmap_bounded_insert(m, k, JModel::Num(dec_str(n as nat)), d),
        None => lemma_jmap_bounded_insert(m, k, JModel::Null, d),
    }
}

proof fn lemma_bounded_with_bool_or_null(m: JMap, k: Seq<char>, o: Option<bool>, d: nat)
    requires
        d >= 1,
        jmap_bounded(m, d),
    ensures
        jmap_bounded(with_bool_or_null(m, k, o), d),
{
    match o {
        Some(b) => lemma_jmap_bounded_insert(m, k, JModel::Bool(b), d),
        None => lemma_jmap_bounded_insert(m, k, JModel::Null, d),
    }
}

proof fn lemma_strs_json_bounded(a: Seq<Seq<char>>, d: nat)
    requires
        d >= 2,
    ensures
        jbounded(JModel::Arr(strs_json(a)), d),
{
    assert forall|i: int| 0 <= i < strs_json(a).len() implies jbounded(
        #[trigger] strs_json(a)[i],
        (d - 1) as nat,
    ) by {
        assert(strs_json(a)[i] == JModel::Str(a[i]));
    }
}

proof fn lemma_bounded_with_opt_strs(m: JMap, k: Seq<char>, o: Option<Seq<Seq<char>>>, d: nat)
    requires
        d >= 2,
        jmap_bounded(m, d),
    ensures
        jmap_bounded(with_opt_strs(m, k, o), d),
{
    match o {
        Some(a) => {
            lemma_strs_json_bounded(a, d);
            lemma_jmap_bounded_insert(m, k, JModel::Arr(strs_json(a)), d);
        },
        None => {},
    }
}

pub proof fn lemma_user_json_bounded(u: UserV)
    ensures
        jbounded(spec_user_json(u), 2),
{
    let m0 = Map::<Seq<char>, JModel>::empty();
    assert(jmap_bounded(m0, 1));
    lemma_bounded_with_str(m0, "id"@, u.id, 1);
    lemma_bounded_with_str(with_str(m0, "id"@, u.id), "encryption"@, u.encryption, 1);
    lemma_bounded_with_opt_str(
        with_str(with_str(m0, "id"@, u.id), "encryption"@, u.encryption),
        "flow"@,
        u.flow,
        1,
    );
}

pub proof fn lemma_users_json_bounded(a: Seq<UserV>)
    ensures
        jbounded(JModel::Arr(users_json(a)), 3),
{
    assert forall|i: int| 0 <= i < users_json(a).len() implies jbounded(
        #[trigger] users_json(a)[i],
        2,
    ) by {
        assert(users_json(a)[i] == spec_user_json(a[i]));
        lemma_user_json_bounded(a[i]);
    }
}

pub proof fn lemma_vnext_json_bounded(x: VNextV)
    ensures
        jbounded(spec_vnext_json(x), 4),
{
    let m0 = Map::<Seq<char>, JModel>::empty();
    let m1 = m0.insert("address"@, JModel::Str(x.address));
    let m2 = m1.insert("port"@, JModel::Num(dec_str(x.port as nat)));
    let m3 = m2.insert("users"@, JModel::Arr(users_json(x.users)));
    assert(jmap_bounded(m0, 3));
    lemma_jmap_bounded_insert(m0, "address"@, JModel::Str(x.address), 3);
    lemma_jmap_bounded_insert(m1, "port"@, JModel::Num(dec_str(x.port as nat)), 3);
    lemma_users_json_bounded(x.users);
    lemma_jmap_bounded_insert(m2, "users"@, JModel::Arr(users_json(x.users)), 3);
    assert(spec_vnext_json(x) == JModel::Obj(m3));
}

pub proof fn lemma_vnexts_json_bounded(a: Seq<VNextV>)
    ensures
        jbounded(JModel::Arr(vnexts_json(a)), 5),
{
    assert forall|i: int| 0 <= i < vnexts_json(a).len() implies jbounded(
        #[trigger] vnexts_json(a)[i],
        4,
    ) by {
        assert(vnexts_json(a)[i] == spec_vnext_json(a[i]));
        lemma_vnext_json_bounded(a[i]);
    }
}

pub proof fn lemma_ss_server_json_bounded(x: ShadowsocksServerV)
    ensures
        jbounded(spec_ss_server_json(x), 2),
{
    let m0 = Map::<Seq<char>, JModel>::empty();
    assert(jmap_bounded(m0, 1));
    let m1 = with_str(m0, "address"@, x.address);
    lemma_bounded_with_str(m0, "address"@, x.address, 1);
    let m2 = with_num(m1, "port"@, x.port as u64);
    lemma_bounded_with_num(m1, "port"@, x.port as u64, 1);
    let m3 = with_str(m2, "method"@, x.method);
    lemma_bounded_with_str(m2, "method"@, x.method, 1);
    lemma_bounded_with_str(m3, "password"@, x.password, 1);
}

pub proof fn lemma_ss_servers_json_bounded(a: Seq<ShadowsocksServerV>)
    ensures
        jbounded(JModel::Arr(ss_servers_json(a)), 3),
{
    assert forall|i: int| 0 <= i < ss_servers_json(a).len() implies jbounded(
        #[trigger] ss_servers_json(a)[i],
        2,
    ) by {
        assert(ss_servers_json(a)[i] == spec_ss_server_json(a[i]));
        lemma_ss_server_json_bounded(a[i]);
    }
}

pub proof fn lemma_settings_json_bounded(s: SettingsV)
    ensures
        jbounded(spec_settings_json(s), 6),
{
    let m0 = Map::<Seq<char>, JModel>::empty();
    let m1 = match s.vnext {
        Some(a) => m0.insert("vnext"@, JModel::Arr(vnexts_json(a))),
        None => m0,
    };
    assert(jmap_bounded(m0, 5));
    match s.vnext {
        Some(a) => {
            lemma_vnexts_json_bounded(a);
            lemma_jmap_bounded_insert(m0, "vnext"@, JModel::Arr(vnexts_json(a)), 5);
        },
        None => {},
    }
    match s.servers {
        Some(a) => {
            lemma_ss_servers_json_bounded(a);
            lemma_jbounded_widen(JModel::Arr(ss_servers_json(a)), 3, 5);
            lemma_jmap_bounded_insert(m1, "servers"@, JModel::Arr(ss_servers_json(a)), 5);
        },
        None => {},
    }
}

pub proof fn lemma_grpc_json_bounded(g: GRPCSettingsV)
    ensures
        jbounded(spec_grpc_json(g), 2),
{
    let m0 = Map::<Seq<char>, JModel>::empty();
    assert(jmap_bounded(m0, 1));
    let m1 = with_opt_str(m0, "serviceName"@, g.service_name);
    lemma_bounded_with_opt_str(m0, "serviceName"@, g.service_name, 1);
    let m2 = with_bool(m1, "multiMode"@, g.multi_mode);
    lemma_bounded_with_bool(m1, "multiMode"@, g.multi_mode, 1);
    let m3 = with_num_or_null(m2, "idleTimeout"@, g.idle_timeout);
    lemma_bounded_with_num_or_null(m2, "idleTimeout"@, g.idle_timeout, 1);
    let m4 = with_num_or_null(m3, "healthCheckTimeout"@, g.health_check_timeout);
    lemma_bounded_with_num_or_null(m3, "healthCheckTimeout"@, g.health_check_timeout, 1);
    let m5 = with_bool_or_null(m4, "permitWithoutStream"@, g.permit_without_stream);
    lemma_bounded_with_bool_or_null(m4, "permitWithoutStream"@, g.permit_without_stream, 1);
    lemma_bounded_with_num_or_null(m5, "initialWindowsSize"@, g.initial_windows_size, 1);
}

pub proof fn lemma_reality_json_bounded(x: RealitySettingsV)
    ensures
        jbounded(spec_reality_json(x), 2),
{
    let m0 = Map::<Seq<char>, JModel>::empty();
    assert(jmap_bounded(m0, 1));
    let m1 = with_opt_str(m0, "fingerprint"@, x.fingerprint);
    lemma_bounded_with_opt_str(m0, "fingerprint"@, x.fingerprint, 1);
    let m2 = with_str(m1, "publicKey"@, x.public_key);
    lemma_bounded_with_str(m1, "publicKey"@, x.public_key, 1);
    let m3 = with_str(m2, "serverName"@, x.server_name);
    lemma_bounded_with_str(m2, "serverName"@, x.server_name, 1);
    let m4 = with_str(m3, "shortId"@, x.short_id);
    lemma_bounded_with_str(m3, "shortId"@, x.short_id, 1);
    lemma_bounded_with_opt_str(m4, "spiderX"@, x.spider_x, 1);
}

pub proof fn lemma_mux_json_bounded(x: MuxSettingsV)
    ensures
        jbounded(spec_mux_json(x), 2),
{
    let m0 = Map::<Seq<char>, JModel>::empty();
    assert(jmap_bounded(m0, 1));
    let m1 = with_str(m0, "enable"@, x.enable);
    lemma_bounded_with_str(m0, "enable"@, x.enable, 1);
    let m2 = with_num_or_null(m1, "concurrency"@, opt_u32_widen(x.concurrency));
    lemma_bounded_with_num_or_null(m1, "concurrency"@, opt_u32_widen(x.concurrency), 1);
    let m3 = match x.xudp_concurrency {
        Some(n) => m2.insert("xudpConcurrency"@, JModel::Num(dec_str(n as nat))),
        None => m2,
    };
    match x.xudp_concurrency {
        Some(n) => lemma_jmap_bounded_insert(
            m2,
            "xudpConcurrency"@,
            JModel::Num(dec_str(n as nat)),
            1,
        ),
        None => {},
    }
    lemma_bounded_with_opt_str(m3, "xudpProxyUDP443"@, x.xudp_proxy_udp443, 1);
}

pub proof fn lemma_extra_json_bounded(e: crate::model::ExtraOutboundClientConfigV)
    ensures
        jbounded(spec_extra_json(e), 2),
{
    let m0 = Map::<Seq<char>, JModel>::empty();
    assert(jmap_bounded(m0, 1));
    lemma_bounded_with_opt_str(m0, "client_name"@, e.client_name, 1);
}

} // verus!

verus! {

pub proof fn lemma_tls_json_bounded(x: TlsSettingsV)
    ensures
        jbounded(spec_tls_json(x), 3),
{
    let m0 = Map::<Seq<char>, JModel>::empty();
    assert(jmap_bounded(m0, 2));
    let m1 = with_opt_str(m0, "serverName"@, x.server_name);
    lemma_bounded_with_opt_str(m0, "serverName"@, x.server_name, 2);
    let m2 = with_opt_str(m1, "verifyPeerCertInNames"@, x.verify_peer_cert_in_names);
    lemma_bounded_with_opt_str(m1, "verifyPeerCertInNames"@, x.verify_peer_cert_in_names, 2);
    let m3 = with_opt_bool(m2, "rejectUnknownSni"@, x.reject_unknown_sni);
    lemma_bounded_with_opt_bool(m2, "rejectUnknownSni"@, x.reject_unknown_sni, 2);
    let m4 = with_opt_bool(m3, "allowInsecure"@, x.allow_insecure);
    lemma_bounded_with_opt_bool(m3, "allowInsecure"@, x.allow_insecure, 2);
    let m5 = with_opt_strs(m4, "alpn"@, x.alpn);
    lemma_bounded_with_opt_strs(m4, "alpn"@, x.alpn, 2);
    let m6 = with_opt_str(m5, "minVersion"@, x.min_version);
    lemma_bounded_with_opt_str(m5, "minVersion"@, x.min_version, 2);
    let m7 = with_opt_str(m6, "maxVersion"@, x.max_version);
    lemma_bounded_with_opt_str(m6, "maxVersion"@, x.max_version, 2);
    let m8 = with_opt_str(m7, "cipherSuites"@, x.cipher_suites);
    lemma_bounded_with_opt_str(m7, "cipherSuites"@, x.cipher_suites, 2);
    let m9 = with_opt_strs(m8, "certificates"@, x.certificates);
    lemma_bounded_with_opt_strs(m8, "certificates"@, x.certificates, 2);
    let m10 = with_opt_bool(m9, "disableSystemRoot"@, x.disable_system_root);
    lemma_bounded_with_opt_bool(m9, "disableSystemRoot"@, x.disable_system_root, 2);
    let m11 = with_opt_bool(m10, "enableSessionResumption"@, x.enable_session_resumption);
    lemma_bounded_with_opt_bool(m10, "enableSessionResumption"@, x.enable_session_resumption, 2);
    let m12 = with_opt_str(m11, "fingerprint"@, x.fingerprint);
    lemma_bounded_with_opt_str(m11, "fingerprint"@, x.fingerprint, 2);
    let m13 = with_opt_strs(m12, "pinnedPeerCertificateChainSha256"@, x.pinned_peer_certificate_chain_sha256);
    lemma_bounded_with_opt_strs(m12, "pinnedPeerCertificateChainSha256"@, x.pinned_peer_certificate_chain_sha256, 2);
    let m14 = with_opt_strs(m13, "curvePreferences"@, x.curve_preferences);
    lemma_bounded_with_opt_strs(m13, "curvePreferences"@, x.curve_preferences, 2);
    let m15 = with_opt_str(m14, "masterKeyLog"@, x.master_key_log);
    lemma_bounded_with_opt_str(m14, "masterKeyLog"@, x.master_key_log, 2);
    let m16 = with_opt_str(m15, "echConfigList"@, x.ech_config_list);
    lemma_bounded_with_opt_str(m15, "echConfigList"@, x.ech_config_list, 2);
    let m17 = with_opt_str(m16, "echServerKeys"@, x.ech_server_keys);
    lemma_bounded_with_opt_str(m16, "echServerKeys"@, x.ech_server_keys, 2);
    let m18 = with_opt_str(m17, "echForceQuery"@, x.ech_force_query);
    lemma_bounded_with_opt_str(m17, "echForceQuery"@, x.ech_force_query, 2);
    assert(spec_tls_json(x) == JModel::Obj(m18));
}

pub proof fn lemma_stream_json_bounded(s: StreamSettingsV)
    ensures
        jbounded(spec_stream_json(s), 4),
{
    let m0 = Map::<Seq<char>, JModel>::empty();
    assert(jmap_bounded(m0, 3));
    let m1 = with_opt_str(m0, "network"@, s.network);
    lemma_bounded_with_opt_str(m0, "network"@, s.network, 3);
    let m2 = with_opt_str(m1, "security"@, s.security);
    lemma_bounded_with_opt_str(m1, "security"@, s.security, 3);
    let m3 = match s.grpc {
        Some(g) => m2.insert("grpcSettings"@, spec_grpc_json(g)),
        None => m2,
    };
    match s.grpc {
        Some(g) => {
            lemma_grpc_json_bounded(g);
            lemma_jbounded_widen(spec_grpc_json(g), 2, 3);
            lemma_jmap_bounded_insert(m2, "grpcSettings"@, spec_grpc_json(g), 3);
        },
        None => {},
    }
    let m4 = match s.reality {
        Some(x) => m3.insert("realitySettings"@, spec_reality_json(x)),
        None => m3,
    };
    match s.reality {
        Some(x) => {
            lemma_reality_json_bounded(x);
            lemma_jbounded_widen(spec_reality_json(x), 2, 3);
            lemma_jmap_bounded_insert(m3, "realitySettings"@, spec_reality_json(x), 3);
        },
        None => {},
    }
    match s.tls {
        Some(t) => {
            lemma_tls_json_bounded(t);
            lemma_jmap_bounded_insert(m4, "tlsSettings"@, spec_tls_json(t), 3);
        },
        None => {},
    }
}

/// Every rendered outbound nests within a handful of levels, far inside the
/// parser's recursion limit.
pub proof fn lemma_outbound_json_bounded(c: XrayOutboundClientConfigV)
    ensures
        jbounded(spec_outbound_json(c), 7),
{
    let m0 = Map::<Seq<char>, JModel>::empty();
    assert(jmap_bounded(m0, 6));
    let m1 = with_opt_str(m0, "tag"@, c.tag);
    lemma_bounded_with_opt_str(m0, "tag"@, c.tag, 6);
    let m2 = with_str(m1, "protocol"@, c.protocol);
    lemma_bounded_with_str(m1, "protocol"@, c.protocol, 6);
    let m3 = m2.insert("settings"@, spec_settings_json(c.settings));
    lemma_settings_json_bounded(c.settings);
    lemma_jmap_bounded_insert(m2, "settings"@, spec_settings_json(c.settings), 6);
    let m4 = m3.insert("streamSettings"@, spec_stream_json(c.stream_settings));
    lemma_stream_json_bounded(c.stream_settings);
    lemma_jbounded_widen(spec_stream_json(c.stream_settings), 4, 6);
    lemma_jmap_bounded_insert(m3, "streamSettings"@, spec_stream_json(c.stream_settings), 6);
    match c.mux {
        Some(x) => {
            lemma_mux_json_bounded(x);
            lemma_jbounded_widen(spec_mux_json(x), 2, 6);
            lemma_jmap_bounded_insert(m4, "mux"@, spec_mux_json(x), 6);
        },
        None => {},
    }
}

/// Every rendered inbound nests within a handful of levels too.
pub proof fn lemma_inbound_json_bounded(x: XrayInboundClientConfigV)
    ensures
        jbounded(spec_inbound_json(x), 3),
{
    let m0 = Map::<Seq<char>, JModel>::empty();
    assert(jmap_bounded(m0, 2));
    let m1 = with_str(m0, "tag"@, x.tag);
    lemma_bounded_with_str(m0, "tag"@, x.tag, 2);
    let m2 = with_num(m1, "port"@, x.port as u64);
    lemma_bounded_with_num(m1, "port"@, x.port as u64, 2);
    let m3 = with_str(m2, "listen"@, x.listen);
    lemma_bounded_with_str(m2, "listen"@, x.listen, 2);
    let m4 = with_str(m3, "protocol"@, x.protocol);
    lemma_bounded_with_str(m3, "protocol"@, x.protocol, 2);
    let settings = spec_inbound_settings_json(x.settings);
    assert(jmap_bounded(Map::<Seq<char>, JModel>::empty(), 1));
    lemma_bounded_with_str(Map::<Seq<char>, JModel>::empty(), "auth"@, x.settings.auth, 1);
    lemma_bounded_with_bool(
        with_str(Map::<Seq<char>, JModel>::empty(), "auth"@, x.settings.auth),
        "udp"@,
        x.settings.udp,
        1,
    );
    lemma_jmap_bounded_insert(m4, "settings"@, settings, 2);
}

} // verus!
