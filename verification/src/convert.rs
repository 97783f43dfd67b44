use vstd::prelude::*;
use vstd::string::StringExecFns;

use crate::document::{
    outbounds_json, spec_after_delete, spec_outbounds_read, spec_section, XrayFileCore,
};
use crate::jser::{
    extra_of_value, extra_to_value, lemma_extra_json_bounded, lemma_jbounded_widen,
    lemma_outbound_json_bounded, outbound_of_value, outbound_to_value, spec_extra_json,
    spec_extra_of_json, spec_outbound_json, spec_outbound_of_json,
};
use crate::jsonval::{jparse_of, jv_parse, jv_to_pretty, JModel};
use crate::model::{XrayOutboundClientConfig, XrayOutboundClientConfigV};
use crate::numstr::{dec_str, u64_to_string};
use crate::storagemodel::{ConfigModel, ConfigModelV, StorageError, XrayOutboundModel};

verus! {

// ---------------------------------------------------------------------------
// Between the relational rows and the engine file: decoding stored rows back
// to typed outbounds, and the outbound write path that stamps each entry's
// tag with its persistent id before it reaches the file.
// ---------------------------------------------------------------------------

/// Whether one stored row decodes: its data is an outbound's JSON, and its
/// extra is empty or display-metadata JSON.
pub open spec fn spec_row_ok(m: ConfigModelV) -> bool {
    &&& jparse_of(m.data) is Some
    &&& spec_outbound_of_json(jparse_of(m.data).unwrap()) is Some
    &&& (m.extra.len() == 0 || (jparse_of(m.extra) is Some && spec_extra_of_json(
        jparse_of(m.extra).unwrap(),
    ) is Some))
}

/// The outbound a row decodes to, its tag set to the row's persistent id.
pub open spec fn spec_row_outbound(m: ConfigModelV) -> XrayOutboundClientConfigV {
    XrayOutboundClientConfigV {
        tag: Some(dec_str(m.id as nat)),
        ..spec_outbound_of_json(jparse_of(m.data).unwrap()).unwrap()
    }
}

pub open spec fn spec_rows_ok(ms: Seq<ConfigModelV>) -> bool {
    forall|i: int| 0 <= i < ms.len() ==> spec_row_ok(#[trigger] ms[i])
}

pub open spec fn spec_rows_outbounds(ms: Seq<ConfigModelV>) -> Seq<XrayOutboundClientConfigV> {
    ms.map_values(|m: ConfigModelV| spec_row_outbound(m))
}

/// That `m` is exactly what row `c` decodes to: same id, the typed form of
/// its data, and its display metadata when the row carries any.
pub open spec fn spec_row_decoded(m: XrayOutboundModel, c: ConfigModelV) -> bool {
    &&& m.id == c.id
    &&& Some(m.config@) == spec_outbound_of_json(jparse_of(c.data).unwrap())
    &&& (c.extra.len() == 0 ==> m.extra is None)
    &&& (c.extra.len() > 0 ==> (m.extra matches Some(e) && Some(e@) == spec_extra_of_json(
        jparse_of(c.extra).unwrap(),
    )))
}

/// Decodes one stored row into its typed form.
pub fn config_model_to_xray_outbound(config: &ConfigModel) -> (r: Result<
    XrayOutboundModel,
    StorageError,
>)
    ensures
        (r is Ok) == spec_row_ok(config@),
        r matches Err(e) ==> e is DeserializationError,
        r matches Ok(m) ==> {
            &&& m.id == config.id
            &&& Some(m.config@) == spec_outbound_of_json(jparse_of(config.data@).unwrap())
            &&& (config.extra@.len() == 0 ==> m.extra is None)
            &&& (config.extra@.len() > 0 ==> (m.extra matches Some(e) && Some(e@)
                == spec_extra_of_json(jparse_of(config.extra@).unwrap())))
        },
{
    let data_value = match jv_parse(config.data.as_str()) {
        Some(v) => v,
        None => {
            return Err(StorageError::DeserializationError(config.data.clone()));
        },
    };
    let outbound = match outbound_of_value(&data_value) {
        Some(c) => c,
        None => {
            return Err(StorageError::DeserializationError(config.data.clone()));
        },
    };
    let extra = if config.extra.as_str().is_empty() {
        None
    } else {
        let extra_value = match jv_parse(config.extra.as_str()) {
            Some(v) => v,
            None => {
                return Err(StorageError::DeserializationError(config.extra.clone()));
            },
        };
        match extra_of_value(&extra_value) {
            Some(e) => Some(e),
            None => {
                return Err(StorageError::DeserializationError(config.extra.clone()));
            },
        }
    };
    Ok(XrayOutboundModel { id: config.id, extra, config: outbound })
}

/// Decodes a batch of stored rows; the first malformed row fails the batch.
pub fn config_models_to_xray_outbounds(configs: &Vec<ConfigModel>) -> (r: Result<
    Vec<XrayOutboundModel>,
    StorageError,
>)
    ensures
        (r is Ok) == spec_rows_ok(configs@.map_values(|m: ConfigModel| m@)),
        r matches Err(e) ==> e is DeserializationError,
        r matches Ok(out) ==> out@.len() == configs@.len() && forall|i: int|
            0 <= i < out@.len() ==> spec_row_decoded(#[trigger] out@[i], configs@[i]@),
{
    let ghost ms = configs@.map_values(|c: ConfigModel| c@);
    let mut out: Vec<XrayOutboundModel> = Vec::new();
    let mut i: usize = 0;
    while i < configs.len()
        invariant
            i <= configs@.len(),
            ms == configs@.map_values(|c: ConfigModel| c@),
            out@.len() == i,
            forall|m: int| 0 <= m < i ==> spec_row_ok(#[trigger] ms[m]),
            forall|m: int| 0 <= m < i ==> spec_row_decoded(#[trigger] out@[m], ms[m]),
        decreases configs@.len() - i,
    {
        match config_model_to_xray_outbound(&configs[i]) {
            Ok(m) => {
                proof {
                    assert(ms[i as int] == configs@[i as int]@);
                }
                out.push(m);
            },
            Err(e) => {
                proof {
                    assert(!spec_row_ok(ms[i as int]));
                }
                return Err(e);
            },
        }
        i = i + 1;
    }
    Ok(out)
}

/// Reads the outbounds the engine file currently holds.
pub fn get_outbounds(core: &XrayFileCore) -> (r: Vec<XrayOutboundClientConfig>)
    requires
        core.wf(),
    ensures
        r@.map_values(|c: XrayOutboundClientConfig| c@) == spec_outbounds_read(
            spec_section(core.doc(), "outbounds"@),
        ),
{
    core.read_xray_outbounds()
}

/// Replaces the `outbounds` section with the stored rows, each entry tagged
/// with the decimal form of its persistent id, and yields the section as the
/// file now holds it.  A malformed row fails the call with the document
/// untouched; every other section is untouched either way.
pub fn update_outbounds(core: &mut XrayFileCore, models: &Vec<ConfigModel>) -> (r: Result<
    Vec<XrayOutboundClientConfig>,
    StorageError,
>)
    requires
        old(core).wf(),
    ensures
        final(core).wf(),
        final(core).xray_config_path == old(core).xray_config_path,
        (r is Ok) == spec_rows_ok(models@.map_values(|m: ConfigModel| m@)),
        r matches Ok(out) ==> {
            &&& final(core).doc() == old(core).doc().insert(
                "outbounds"@,
                JModel::Arr(
                    outbounds_json(spec_rows_outbounds(models@.map_values(|m: ConfigModel| m@))),
                ),
            )
            &&& out@.map_values(|c: XrayOutboundClientConfig| c@) == spec_rows_outbounds(
                models@.map_values(|m: ConfigModel| m@),
            )
        },
        r is Err ==> *final(core) == *old(core),
{
    let ghost ms = models@.map_values(|m: ConfigModel| m@);
    let mut tagged: Vec<XrayOutboundClientConfig> = Vec::new();
    let mut i: usize = 0;
    while i < models.len()
        invariant
            i <= models@.len(),
            *core == *old(core),
            core.wf(),
            ms == models@.map_values(|m: ConfigModel| m@),
            tagged@.map_values(|c: XrayOutboundClientConfig| c@) =~= spec_rows_outbounds(
                ms.take(i as int),
            ),
            forall|m: int| 0 <= m < i ==> spec_row_ok(#[trigger] ms[m]),
        decreases models@.len() - i,
    {
        let row = match config_model_to_xray_outbound(&models[i]) {
            Ok(m) => m,
            Err(e) => {
                proof {
                    assert(!spec_row_ok(ms[i as int]));
                }
                return Err(e);
            },
        };
        let config = XrayOutboundClientConfig {
            tag: Some(u64_to_string(row.id)),
            ..row.config
        };
        proof {
            assert(config@ =~= spec_row_outbound(ms[i as int]));
        }
        let ghost pre = tagged@.map_values(|c: XrayOutboundClientConfig| c@);
        let ghost cv = config@;
        tagged.push(config);
        proof {
            assert(tagged@.map_values(|c: XrayOutboundClientConfig| c@) =~= pre.push(cv));
            assert(ms.take(i + 1).drop_last() =~= ms.take(i as int));
            assert(spec_rows_outbounds(ms.take(i + 1)) =~= spec_rows_outbounds(
                ms.take(i as int),
            ).push(spec_row_outbound(ms[i as int])));
        }
        i = i + 1;
    }
    proof {
        assert(ms.take(models@.len() as int) =~= ms);
    }
    core.write_xray_outbounds(&tagged);
    let out = core.read_xray_outbounds();
    proof {
        let tv = tagged@.map_values(|c: XrayOutboundClientConfig| c@);
        crate::document::lemma_outbounds_section_roundtrip(tv);
        assert forall|j: int| 0 <= j < tv.len() implies crate::jser::spec_engine_form(
            #[trigger] tv[j],
        ) == tv[j] by {
            assert(tv[j].extra is None);
            assert(crate::jser::spec_engine_form(tv[j]) =~= tv[j]);
        }
        assert(tv.map_values(|c: XrayOutboundClientConfigV| crate::jser::spec_engine_form(c))
            =~= tv);
        assert(spec_section(final(core).doc(), "outbounds"@) =~= outbounds_json(tv));
    }
    Ok(out)
}

/// Removes the given ids from the `outbounds` section, foreign entries
/// untouched, and yields the section as the file now holds it.
pub fn delete_outbounds(core: &mut XrayFileCore, ids: &Vec<u64>) -> (r: Vec<
    XrayOutboundClientConfig,
>)
    requires
        old(core).wf(),
    ensures
        final(core).wf(),
        final(core).xray_config_path == old(core).xray_config_path,
        final(core).doc() == spec_after_delete(old(core).doc(), ids@),
        r@.map_values(|c: XrayOutboundClientConfig| c@) == spec_outbounds_read(
            spec_section(final(core).doc(), "outbounds"@),
        ),
{
    core.delete_outbounds_by_ids(ids);
    core.read_xray_outbounds()
}

/// Removes one id from the `outbounds` section.
pub fn delete_outbound(core: &mut XrayFileCore, id: u64) -> (r: Vec<XrayOutboundClientConfig>)
    requires
        old(core).wf(),
    ensures
        final(core).wf(),
        final(core).xray_config_path == old(core).xray_config_path,
        final(core).doc() == spec_after_delete(old(core).doc(), seq![id]),
        r@.map_values(|c: XrayOutboundClientConfig| c@) == spec_outbounds_read(
            spec_section(final(core).doc(), "outbounds"@),
        ),
{
    let mut ids: Vec<u64> = Vec::new();
    ids.push(id);
    proof {
        assert(ids@ =~= seq![id]);
    }
    delete_outbounds(core, &ids)
}

} // verus!

verus! {

/// Renders one typed outbound back into a stored row: its engine JSON as
/// text (parsing back to exactly its rendered shape — the shapes this crate
/// renders stay far inside the parser's recursion limit), its display
/// metadata as text, or the empty string when it carries none.
pub fn xray_outbound_to_config_model(m: &XrayOutboundModel, group_id: u64) -> (r: ConfigModel)
    ensures
        r.id == m.id,
        r.group_id == group_id,
        jparse_of(r.data@) == Some(spec_outbound_json(m.config@)),
        m.extra is None ==> r.extra@ == Seq::<char>::empty(),
        m.extra matches Some(e) ==> jparse_of(r.extra@) == Some(spec_extra_json(e@)),
{
    let value = outbound_to_value(&m.config);
    proof {
        lemma_outbound_json_bounded(m.config@);
        lemma_jbounded_widen(
            spec_outbound_json(m.config@),
            7,
            (crate::jsonval::json_parse_depth() - 1) as nat,
        );
    }
    let data = jv_to_pretty(&value);
    let extra = match &m.extra {
        Some(e) => {
            let ev = extra_to_value(e);
            proof {
                lemma_extra_json_bounded(e@);
                lemma_jbounded_widen(
                    spec_extra_json(e@),
                    2,
                    (crate::jsonval::json_parse_depth() - 1) as nat,
                );
            }
            jv_to_pretty(&ev)
        },
        None => String::new(),
    };
    ConfigModel { id: m.id, group_id, data, extra }
}

/// Renders a batch of typed outbounds into stored rows, order preserved.
pub fn xray_outbounds_to_config_models(models: &Vec<XrayOutboundModel>, group_id: u64) -> (r: Vec<
    ConfigModel,
>)
    ensures
        r@.len() == models@.len(),
        forall|i: int|
            0 <= i < r@.len() ==> {
                &&& (#[trigger] r@[i]).id == models@[i].id
                &&& r@[i].group_id == group_id
                &&& jparse_of(r@[i].data@) == Some(spec_outbound_json(models@[i].config@))
                &&& (models@[i].extra is None ==> r@[i].extra@ == Seq::<char>::empty())
                &&& (models@[i].extra matches Some(e) ==> jparse_of(r@[i].extra@) == Some(
                    spec_extra_json(e@),
                ))
            },
{
    let mut out: Vec<ConfigModel> = Vec::new();
    let mut i: usize = 0;
    while i < models.len()
        invariant
            i <= models@.len(),
            out@.len() == i,
            forall|m: int|
                0 <= m < i ==> {
                    &&& (#[trigger] out@[m]).id == models@[m].id
                    &&& out@[m].group_id == group_id
                    &&& jparse_of(out@[m].data@) == Some(spec_outbound_json(models@[m].config@))
                    &&& (models@[m].extra is None ==> out@[m].extra@ == Seq::<char>::empty())
                    &&& (models@[m].extra matches Some(e) ==> jparse_of(out@[m].extra@) == Some(
                        spec_extra_json(e@),
                    ))
                },
        decreases models@.len() - i,
    {
        let row = xray_outbound_to_config_model(&models[i], group_id);
        out.push(row);
        i = i + 1;
    }
    out
}

} // verus!
