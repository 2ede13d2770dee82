use ci_core::config::lookup_project;
use ci_core::config::new_project;
use ci_core::config::ProjectConfig;
use ci_core::output::matrix_branches;
use ci_core::output::parse_entries;

fn project(key_prefix: &str) -> ProjectConfig {
    ProjectConfig {
        repo: format!("Owner/{}", key_prefix),
        defconfig: "vendor_defconfig".to_string(),
        localversion_base: "-v".to_string(),
        lto: None,
        supported_ksu: None,
        toolchain_urls: None,
        toolchain_path_prefix: None,
        toolchain_path_exports: None,
        anykernel_repo: None,
        anykernel_branch: None,
        zip_name_prefix: Some(key_prefix.to_string()),
        version_method: None,
        extra_host_env: None,
        disable_security: None,
        readme_placeholders: None,
    }
}

#[test]
fn lookup_finds_first_exact_key() {
    let registry = vec![
        ("a".to_string(), project("A")),
        ("b".to_string(), project("B")),
    ];
    let b_idx = match lookup_project(&registry, "b") {
        Ok(i) => i,
        Err(_) => panic!("project b should be found"),
    };
    assert_eq!(b_idx, 1);
    let a_idx = match lookup_project(&registry, "a") {
        Ok(i) => i,
        Err(_) => panic!("project a should be found"),
    };
    assert_eq!(a_idx, 0);
}

#[test]
fn lookup_missing_project_is_not_found() {
    let registry = vec![("a".to_string(), project("A"))];
    let err = lookup_project(&registry, "zz").unwrap_err();
    assert_eq!(err.message(), "not found: zz");
}

#[test]
fn new_project_defaults() {
    let p = new_project(
        "Owner/Repo".to_string(),
        "vendor_defconfig".to_string(),
        "-kokuban".to_string(),
        "某设备".to_string(),
        "Some Device".to_string(),
        "https://github.com/YuzakiKokuban/AnyKernel3.git".to_string(),
        "master".to_string(),
        "Kernel".to_string(),
        String::new(),
    );
    assert_eq!(p.repo, "Owner/Repo");
    assert_eq!(p.defconfig, "vendor_defconfig");
    assert_eq!(p.localversion_base, "-kokuban");
    assert_eq!(
        p.supported_ksu,
        Some(vec!["resukisu".to_string(), "mksu".to_string(), "ksu".to_string()])
    );
    assert_eq!(p.toolchain_path_prefix, None);
    assert_eq!(p.zip_name_prefix, Some("Kernel".to_string()));
    assert_eq!(p.anykernel_branch, Some("master".to_string()));
    assert_eq!(
        p.readme_placeholders,
        Some(vec![
            ("DEVICE_NAME_CN".to_string(), "某设备".to_string()),
            ("DEVICE_NAME_EN".to_string(), "Some Device".to_string()),
        ])
    );
    assert!(p.lto.is_none() && p.version_method.is_none() && p.disable_security.is_none());

    let with_prefix = new_project(
        "o/r".to_string(),
        "d".to_string(),
        "-v".to_string(),
        "c".to_string(),
        "e".to_string(),
        "ak".to_string(),
        "b".to_string(),
        "z".to_string(),
        "clang".to_string(),
    );
    assert_eq!(with_prefix.toolchain_path_prefix, Some("clang".to_string()));
}

#[test]
fn matrix_lists_main_then_normalized_variants() {
    let branches = matrix_branches(&Some(vec![
        "mksu".to_string(),
        "sukisuultra".to_string(),
        "ksu".to_string(),
    ]));
    assert_eq!(branches, vec!["main", "mksu", "resukisu", "ksu"]);
    assert_eq!(matrix_branches(&None), vec!["main"]);
}

#[test]
fn parse_exports_all_mandatory_fields_with_defaults() {
    let p = project("K");
    let entries = parse_entries(&p);
    let expected: Vec<(String, String)> = vec![
        ("PROJECT_REPO".to_string(), "Owner/K".to_string()),
        ("PROJECT_DEFCONFIG".to_string(), "vendor_defconfig".to_string()),
        ("PROJECT_LOCALVERSION_BASE".to_string(), "-v".to_string()),
        ("PROJECT_TOOLCHAIN_PREFIX".to_string(), String::new()),
        ("PROJECT_ZIP_NAME_PREFIX".to_string(), "K".to_string()),
        ("PROJECT_AK3_REPO".to_string(), String::new()),
        ("PROJECT_AK3_BRANCH".to_string(), String::new()),
        ("PROJECT_VERSION_METHOD".to_string(), "param".to_string()),
        ("PROJECT_EXTRA_HOST_ENV".to_string(), "false".to_string()),
        ("PROJECT_TOOLCHAIN_EXPORTS".to_string(), "[]".to_string()),
        ("PROJECT_DISABLE_SECURITY".to_string(), "[]".to_string()),
    ];
    assert_eq!(entries, expected);
}

#[test]
fn parse_exports_optional_fields_and_json_lists() {
    let mut p = project("K");
    p.lto = Some("thin".to_string());
    p.version_method = Some("file".to_string());
    p.extra_host_env = Some(true);
    p.toolchain_path_exports = Some(vec!["bin".to_string(), "lib/x\"y".to_string()]);
    p.disable_security = Some(vec!["PROCA".to_string()]);
    p.toolchain_urls = Some(vec!["https://example.com/t.tar.gz".to_string()]);
    let entries = parse_entries(&p);

    assert_eq!(entries[3], ("PROJECT_LTO".to_string(), "thin".to_string()));
    assert_eq!(entries[8], ("PROJECT_VERSION_METHOD".to_string(), "file".to_string()));
    assert_eq!(entries[9], ("PROJECT_EXTRA_HOST_ENV".to_string(), "true".to_string()));
    // JSON encoding, escaping included
    assert_eq!(
        entries[10],
        ("PROJECT_TOOLCHAIN_EXPORTS".to_string(), "[\"bin\",\"lib/x\\\"y\"]".to_string())
    );
    assert_eq!(
        entries[11],
        ("PROJECT_DISABLE_SECURITY".to_string(), "[\"PROCA\"]".to_string())
    );
    assert_eq!(
        entries[12],
        (
            "PROJECT_TOOLCHAIN_URLS".to_string(),
            "[\"https://example.com/t.tar.gz\"]".to_string()
        )
    );
    assert_eq!(entries.len(), 13);
}
