use elux::convert::{
    config_models_to_xray_outbounds, delete_outbounds, get_outbounds, update_outbounds,
    xray_outbound_to_config_model, xray_outbounds_to_config_models,
};
use elux::document::XrayFileCore;
use elux::model::{XrayInboundClientConfig, XrayInboundSettings};
use elux::outbound::OutboundClientConfig;
use elux::model::XrayOutboundClientConfig;
use elux::storagemodel::{ConfigModel, StorageError};
use elux::urlparts::split_url;
use elux::vless::Vless;

fn sample_outbound(host: &str) -> XrayOutboundClientConfig {
    let line = format!("vless://5b4e44c2-aaaa-bbbb-cccc-000000000001@{}:443?type=tcp&security=tls&sni={}", host, host);
    let parts = split_url(&line).expect("valid uri");
    let v = Vless::parse(&parts).expect("parses");
    XrayOutboundClientConfig::new(&OutboundClientConfig::Vless(v))
}

fn row(id: u64, host: &str) -> ConfigModel {
    let model = elux::storagemodel::XrayOutboundModel::new(id, None, sample_outbound(host));
    xray_outbound_to_config_model(&model, 1)
}

#[test]
fn section_write_then_read_round_trips() {
    let mut core = XrayFileCore::new(String::from("xray.json"));
    core.load_document("{\"log\":{\"level\":\"warn\"},\"inbounds\":[]}");
    let mut xs = Vec::new();
    xs.push(sample_outbound("a.example"));
    xs.push(sample_outbound("b.example"));
    core.write_xray_outbounds(&xs);
    let back = core.read_xray_outbounds();
    assert_eq!(back.len(), 2);
    // equal up to the display metadata the file never carries
    let mut expected = xs[0].clone();
    expected.extra = None;
    assert_eq!(back[0], expected);
    assert_eq!(back[1].settings.vnext.as_ref().unwrap()[0].address, "b.example");
    // untouched sections survive a full render/load cycle
    let rendered = core.render();
    assert!(rendered.contains("\"log\""));
    assert!(rendered.contains("\"warn\""));
}

#[test]
fn update_outbounds_sets_tags() {
    let mut core = XrayFileCore::new(String::from("xray.json"));
    core.load_document("{}");
    let rows = vec![row(7, "a.example"), row(12, "b.example")];
    let out = update_outbounds(&mut core, &rows).expect("rows decode");
    assert_eq!(out.len(), 2);
    assert_eq!(out[0].tag.as_deref(), Some("7"));
    assert_eq!(out[1].tag.as_deref(), Some("12"));
    assert_eq!(get_outbounds(&core).len(), 2);
}

#[test]
fn update_outbounds_rejects_malformed_row() {
    let mut core = XrayFileCore::new(String::from("xray.json"));
    core.load_document("{}");
    let rows = vec![ConfigModel::new(1, 1, String::from("{ not json"), String::new())];
    assert!(update_outbounds(&mut core, &rows).is_err());
    assert_eq!(get_outbounds(&core).len(), 0);
}

#[test]
fn delete_outbounds_is_idempotent_and_spares_foreigners() {
    let mut core = XrayFileCore::new(String::from("xray.json"));
    core.load_document(
        "{\"outbounds\":[{\"tag\":\"7\",\"protocol\":\"freedom\"},{\"tag\":\"direct\",\"protocol\":\"freedom\"},{\"tag\":\"12\",\"protocol\":\"freedom\"}]}",
    );
    let ids = vec![7u64, 99u64];
    delete_outbounds(&mut core, &ids);
    let once = core.render();
    delete_outbounds(&mut core, &ids);
    let twice = core.render();
    assert_eq!(once, twice);
    assert!(!once.contains("\"7\""));
    assert!(once.contains("\"direct\""));
    assert!(once.contains("\"12\""));
    // deleting an absent id is a no-op
    let before = core.render();
    delete_outbounds(&mut core, &vec![1234u64]);
    assert_eq!(core.render(), before);
}

#[test]
fn inbounds_round_trip() {
    let mut core = XrayFileCore::new(String::from("xray.json"));
    core.load_document("{}");
    let inbound = XrayInboundClientConfig {
        tag: String::from("inbound"),
        port: 2050,
        listen: String::from("127.0.0.1"),
        protocol: String::from("socks"),
        settings: XrayInboundSettings { auth: String::from("noauth"), udp: true },
    };
    core.write_xray_inbounds(&vec![inbound.clone()]);
    let back = core.read_xray_inbounds();
    assert_eq!(back, vec![inbound]);
}

#[test]
fn selector_sync_operations() {
    let mut core = XrayFileCore::new(String::from("xray.json"));
    core.load_document(
        "{\"routing\":{\"balancers\":[{\"tag\":\"all\",\"selector\":[\"7\"]}]},\"observatory\":{\"subjectSelector\":[\"7\"]}}",
    );
    core.add_observatory_ids(&vec![7u64, 8u64]);
    core.add_balancer_ids(&vec![7u64, 8u64]);
    let text = core.render();
    assert_eq!(text.matches("\"7\"").count(), 2, "adding an existing id must not duplicate it");
    assert!(text.contains("\"8\""));
    core.remove_observatory_ids(&vec![7u64]);
    core.remove_balancer_ids(&vec![7u64]);
    let text = core.render();
    assert!(!text.contains("\"7\""));
    core.set_observatory_ids(&vec![1u64, 2u64]);
    core.set_balancer_ids(&vec![1u64, 2u64]);
    let text = core.render();
    assert!(text.contains("\"1\"") && text.contains("\"2\"") && !text.contains("\"8\""));
}

#[test]
fn corrupt_file_reads_as_empty_document() {
    let mut core = XrayFileCore::new(String::from("xray.json"));
    core.load_document("{{{{ definitely not json");
    assert_eq!(get_outbounds(&core).len(), 0);
    let rendered = core.render();
    assert_eq!(rendered, "{}");
}

#[test]
fn storage_error_messages() {
    assert_eq!(
        StorageError::GroupNotFound(String::from("g1")).message(),
        "Group 'g1' not found"
    );
    assert_eq!(StorageError::LockError.message(), "Failed to acquire lock on storage");
    assert_eq!(
        StorageError::DeserializationError(String::from("x")).message(),
        "Deserialization error: x"
    );
}

#[test]
fn convert_rows_round_trip() {
    let rows = vec![row(3, "c.example")];
    let models = config_models_to_xray_outbounds(&rows).expect("decodes");
    assert_eq!(models.len(), 1);
    assert_eq!(models[0].id, 3);
    assert_eq!(
        models[0].config.settings.vnext.as_ref().unwrap()[0].address,
        "c.example"
    );
    // and back out: row -> typed -> row decodes to the same typed form
    let rows_again = xray_outbounds_to_config_models(&models, 1);
    assert_eq!(rows_again.len(), 1);
    assert_eq!(rows_again[0].id, 3);
    assert_eq!(rows_again[0].group_id, 1);
    let models_again = config_models_to_xray_outbounds(&rows_again).expect("decodes again");
    assert_eq!(models_again[0].config, models[0].config);
}

#[test]
fn row_builder_serializes_display_metadata() {
    let extra = elux::model::ExtraOutboundClientConfig {
        client_name: Some(String::from("My Node")),
    };
    let model = elux::storagemodel::XrayOutboundModel::new(
        9,
        Some(extra.clone()),
        sample_outbound("d.example"),
    );
    let row = xray_outbound_to_config_model(&model, 4);
    assert_eq!(row.group_id, 4);
    assert!(!row.extra.is_empty());
    let back = config_models_to_xray_outbounds(&vec![row]).expect("decodes");
    assert_eq!(back[0].extra, Some(extra));
}

#[test]
fn document_beyond_parser_depth_reads_as_empty() {
    // serde_json's parser refuses containers nested past its recursion
    // limit, so such a file falls into the corrupt-file path: an empty
    // document, not an error.
    let deep = format!("{{\"outbounds\":{}{}}}", "[".repeat(200), "]".repeat(200));
    let mut core = XrayFileCore::new(String::from("xray.json"));
    core.load_document(&deep);
    assert_eq!(core.render(), "{}");
    // a modestly nested document is untouched by the limit
    let shallow = format!("{{\"outbounds\":{}{}}}", "[".repeat(20), "]".repeat(20));
    let mut core = XrayFileCore::new(String::from("xray.json"));
    core.load_document(&shallow);
    let rendered = core.render();
    let mut reloaded = XrayFileCore::new(String::from("xray.json"));
    reloaded.load_document(&rendered);
    assert_eq!(reloaded.render(), rendered);
}

#[test]
fn corrupt_file_load_is_reported() {
    let mut core = XrayFileCore::new(String::from("xray.json"));
    assert!(!core.load_document_reporting("{{{{ definitely not json"));
    assert!(!core.load_document_reporting("[1, 2, 3]"));
    assert!(core.load_document_reporting("{\"log\":{}}"));
}
