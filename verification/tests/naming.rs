use ci_core::meta::derive_meta;
use ci_core::meta::derive_meta_now;
use ci_core::meta::final_localversion;
use ci_core::meta::release_tag;
use ci_core::meta::release_title;
use ci_core::meta::target_soc;
use ci_core::meta::zip_name;
use ci_core::paths::get_config_path;
use ci_core::paths::get_template_path;
use ci_core::paths::get_upstream_path;
use ci_core::paths::get_workspace_dir;

#[test]
fn archive_and_tag_derivation() {
    assert_eq!(
        zip_name("Kernel", "ReSuki", "20240101-1200"),
        "Kernel-ReSuki-20240101-1200.zip"
    );
    assert_eq!(
        release_tag("Kernel", "ReSuki", "20240101-1200"),
        "Kernel-ReSuki-20240101-1200"
    );
    assert_eq!(
        release_title("Kernel", "ReSuki", "20240101-1200"),
        "Kernel ReSuki Build (20240101-1200)"
    );
    assert_eq!(final_localversion("-S24", "MKSU"), "-S24-MKSU");
}

#[test]
fn same_minute_names_collide() {
    let a = zip_name("K", "KSU", "20240101-1200");
    let b = zip_name("K", "KSU", "20240101-1200");
    assert_eq!(a, b);
}

#[test]
fn meta_derivation_for_one_build() {
    let m = derive_meta("S24Kernel", "-kokuban", "mksu", "20250102-0304");
    assert_eq!(m.suffix, "MKSU");
    assert_eq!(m.localversion, "-kokuban-MKSU");
    assert_eq!(m.release_tag, "S24Kernel-MKSU-20250102-0304");
    assert_eq!(m.zip_name, "S24Kernel-MKSU-20250102-0304.zip");
    assert_eq!(m.release_title, "S24Kernel MKSU Build (20250102-0304)");
}

#[test]
fn meta_now_uses_a_timestamp() {
    let m = derive_meta_now("K", "-v", "ksu");
    assert_eq!(m.suffix, "KSU");
    assert_eq!(m.localversion, "-v-KSU");
    assert!(m.release_tag.starts_with("K-KSU-"));
    assert!(m.zip_name.ends_with(".zip"));
    // YYYYMMDD-HHMM after the prefix
    assert_eq!(m.release_tag.len(), "K-KSU-".len() + 13);
}

#[test]
fn target_soc_positional_extraction() {
    assert_eq!(target_soc("device_soc123"), "soc123");
    assert_eq!(target_soc("nounderscore"), "unknown");
    assert_eq!(target_soc("a_b_c"), "b");
    assert_eq!(target_soc("a_"), "");
    assert_eq!(target_soc("_x"), "x");
}

#[test]
fn well_known_paths() {
    assert_eq!(get_config_path("."), "./configs/projects.json");
    assert_eq!(get_upstream_path("/root"), "/root/configs/upstream_commits.json");
    assert_eq!(get_workspace_dir("."), "./kernel_workspace");
    assert_eq!(get_template_path(".", "README.md.tpl"), "./templates/README.md.tpl");
}
