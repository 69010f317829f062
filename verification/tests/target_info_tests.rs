use pg_bridge::target_info::{
    bindings_filename, bundle_filename, default_pg_config_path, pg_sys_dependency,
    version_matches,
};
use pg_bridge::text::decimal_string;

#[test]
fn pg_config_path_defaults_to_bare_name() {
    assert_eq!(default_pg_config_path(None), "pg_config");
    assert_eq!(
        default_pg_config_path(Some("/opt/pg/bin/pg_config".to_string())),
        "/opt/pg/bin/pg_config"
    );
}

#[test]
fn version_check_accepts_only_the_demanded_major() {
    assert!(version_matches(14, None));
    assert!(version_matches(14, Some(14)));
    assert!(!version_matches(14, Some(15)));
}

#[test]
fn bindings_and_bundle_names() {
    assert_eq!(bindings_filename(14), "pg14_raw_bindings.rs");
    assert_eq!(bindings_filename(9), "pg9_raw_bindings.rs");
    assert_eq!(bundle_filename("x86_64"), "pgx-target.x86_64.tgz");
}

#[test]
fn scratch_crate_dependency_forms() {
    let by_version = pg_sys_dependency(None, "0.7.4");
    assert_eq!(by_version, vec!["pgx-pg-sys@=0.7.4".to_string()]);
    let by_path = pg_sys_dependency(Some("/src/pgx-pg-sys".to_string()), "0.7.4");
    assert_eq!(
        by_path,
        vec!["pgx-pg-sys".to_string(), "--path".to_string(), "/src/pgx-pg-sys".to_string()]
    );
}

#[test]
fn decimal_rendering() {
    assert_eq!(decimal_string(0), "0");
    assert_eq!(decimal_string(10), "10");
    assert_eq!(decimal_string(90210), "90210");
    assert_eq!(decimal_string(u64::MAX), "18446744073709551615");
}
