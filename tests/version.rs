use a5pg::version::{a5pg_info, a5pg_version, ADAPTER_VERSION};

#[test]
fn info_reports_both_versions() {
    let info = a5pg_info();
    assert_eq!(info.adapter_version, a5pg_version());
    assert_eq!(info.adapter_version, ADAPTER_VERSION);
    assert_eq!(info.engine_version, "0.6.2");
}

