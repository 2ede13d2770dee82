use ci_core::variant::fork_setup;
use ci_core::variant::fork_variants;
use ci_core::variant::ksu_fork_config;
use ci_core::variant::normalize_variant;
use ci_core::variant::variant_suffix;

#[test]
fn suffix_table_known_tokens() {
    assert_eq!(variant_suffix("main"), "LKM");
    assert_eq!(variant_suffix("lkm"), "LKM");
    assert_eq!(variant_suffix("ksu"), "KSU");
    assert_eq!(variant_suffix("mksu"), "MKSU");
    assert_eq!(variant_suffix("resukisu"), "ReSuki");
    assert_eq!(variant_suffix("sukisuultra"), "ReSuki");
}

#[test]
fn suffix_unknown_token_is_uppercased() {
    assert_eq!(variant_suffix("gki"), "GKI");
    assert_eq!(variant_suffix("next2"), "NEXT2");
    assert_eq!(variant_suffix(""), "");
}

#[test]
fn alias_and_canonical_resolve_identically() {
    assert_eq!(variant_suffix("sukisuultra"), variant_suffix("resukisu"));
    assert_eq!(normalize_variant("sukisuultra"), "resukisu");
    assert_eq!(normalize_variant("resukisu"), "resukisu");
    assert_eq!(normalize_variant("mksu"), "mksu");
    assert_eq!(normalize_variant("anything"), "anything");
}

#[test]
fn fork_variants_in_scan_order() {
    let forks = fork_variants();
    assert_eq!(forks, vec!["ksu", "mksu", "resukisu"]);
}

#[test]
fn fork_config_table() {
    let ksu = ksu_fork_config("ksu").unwrap();
    assert_eq!(ksu.repo, "https://github.com/tiann/KernelSU.git");
    assert_eq!(ksu.branch, "main");
    assert_eq!(
        ksu.setup_url,
        "https://raw.githubusercontent.com/tiann/KernelSU/main/kernel/setup.sh"
    );
    assert_eq!(ksu.setup_args, vec!["main"]);

    let mksu = ksu_fork_config("mksu").unwrap();
    assert_eq!(mksu.repo, "https://github.com/5ec1cff/KernelSU.git");
    assert_eq!(mksu.setup_args, vec!["main"]);

    let re = ksu_fork_config("resukisu").unwrap();
    assert_eq!(re.repo, "https://github.com/ReSukiSU/ReSukiSU.git");
    assert_eq!(re.setup_args, vec!["builtin"]);

    assert!(ksu_fork_config("main").is_none());
    assert!(ksu_fork_config("lkm").is_none());
    assert!(ksu_fork_config("stock").is_none());
}

#[test]
fn fork_config_normalizes_alias() {
    let via_alias = ksu_fork_config("sukisuultra").unwrap();
    assert_eq!(via_alias.repo, "https://github.com/ReSukiSU/ReSukiSU.git");
    assert_eq!(via_alias.setup_args, vec!["builtin"]);
}

#[test]
fn fork_setup_table() {
    let (url, arg) = fork_setup("ksu").unwrap();
    assert_eq!(
        url,
        "https://raw.githubusercontent.com/tiann/KernelSU/main/kernel/setup.sh"
    );
    assert_eq!(arg, "-");

    let (url, arg) = fork_setup("mksu").unwrap();
    assert_eq!(
        url,
        "https://raw.githubusercontent.com/5ec1cff/KernelSU/main/kernel/setup.sh"
    );
    assert_eq!(arg, "-");

    let (url, arg) = fork_setup("resukisu").unwrap();
    assert_eq!(
        url,
        "https://raw.githubusercontent.com/ReSukiSU/ReSukiSU/main/kernel/setup.sh"
    );
    assert_eq!(arg, "builtin");

    let (_, arg) = fork_setup("sukisuultra").unwrap();
    assert_eq!(arg, "builtin");

    assert!(fork_setup("main").is_none());
    assert!(fork_setup("lkm").is_none());
}
