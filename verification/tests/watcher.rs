use ci_core::config::ProjectConfig;
use ci_core::watch::observe_fork;
use ci_core::watch::Baseline;

fn project(supported: Option<Vec<&str>>) -> ProjectConfig {
    ProjectConfig {
        repo: "Owner/Repo".to_string(),
        defconfig: "defconfig".to_string(),
        localversion_base: "-v".to_string(),
        lto: None,
        supported_ksu: supported.map(|v| v.into_iter().map(|s| s.to_string()).collect()),
        toolchain_urls: None,
        toolchain_path_prefix: None,
        toolchain_path_exports: None,
        anykernel_repo: None,
        anykernel_branch: None,
        zip_name_prefix: None,
        version_method: None,
        extra_host_env: None,
        disable_security: None,
        readme_placeholders: None,
    }
}

#[test]
fn load_drops_alias_and_keeps_first_duplicate() {
    let stored = vec![
        ("ksu".to_string(), "aaa".to_string()),
        ("sukisuultra".to_string(), "bbb".to_string()),
        ("ksu".to_string(), "ccc".to_string()),
    ];
    let b = Baseline::from_entries(&stored);
    let entries = b.entries();
    assert_eq!(entries.len(), 1);
    assert_eq!(entries[0], ("ksu".to_string(), "aaa".to_string()));
    assert_eq!(b.get("ksu"), Some(&"aaa".to_string()));
    assert_eq!(b.get("sukisuultra"), None);
}

#[test]
fn observe_change_updates_baseline_and_dispatches() {
    let registry = vec![
        ("p1".to_string(), project(Some(vec!["mksu", "resukisu"]))),
        ("p2".to_string(), project(Some(vec!["ksu", "mksu"]))),
        ("p3".to_string(), project(None)),
        ("_globals".to_string(), project(Some(vec!["mksu"]))),
    ];
    let mut b = Baseline::from_entries(&vec![("mksu".to_string(), "oldhash".to_string())]);
    let updates = observe_fork(&mut b, "mksu", "0123456789abcdef", &registry);
    assert_eq!(updates.len(), 2);
    assert_eq!(updates[0].project, "p1");
    assert_eq!(updates[0].variant, "mksu");
    assert_eq!(updates[0].commit_id, "0123456");
    assert_eq!(updates[1].project, "p2");
    assert_eq!(updates[1].commit_id, "0123456");
    assert_eq!(b.get("mksu"), Some(&"0123456789abcdef".to_string()));
}

#[test]
fn short_commit_of_short_hash_is_whole_hash() {
    let registry = vec![("p1".to_string(), project(Some(vec!["ksu"])))];
    let mut b = Baseline::new();
    let updates = observe_fork(&mut b, "ksu", "ab12", &registry);
    assert_eq!(updates.len(), 1);
    assert_eq!(updates[0].commit_id, "ab12");
}

#[test]
fn watcher_is_idempotent_without_upstream_change() {
    let registry = vec![("p1".to_string(), project(Some(vec!["resukisu"])))];
    let mut b = Baseline::new();

    let first = observe_fork(&mut b, "resukisu", "deadbeefcafe", &registry);
    assert_eq!(first.len(), 1);
    let after_first = b.entries().clone();

    let second = observe_fork(&mut b, "resukisu", "deadbeefcafe", &registry);
    assert_eq!(second.len(), 0);
    assert_eq!(b.entries(), &after_first);

    let third = observe_fork(&mut b, "resukisu", "deadbeefcafe", &registry);
    assert_eq!(third.len(), 0);
    assert_eq!(b.entries(), &after_first);
}

#[test]
fn missing_fork_with_empty_hash_is_unchanged() {
    let registry = vec![("p1".to_string(), project(Some(vec!["ksu"])))];
    let mut b = Baseline::new();
    let updates = observe_fork(&mut b, "ksu", "", &registry);
    assert_eq!(updates.len(), 0);
    assert_eq!(b.entries().len(), 0);
}

#[test]
fn full_scan_over_two_forks() {
    let registry = vec![
        ("p1".to_string(), project(Some(vec!["ksu", "mksu"]))),
        ("p2".to_string(), project(Some(vec!["mksu"]))),
    ];
    let mut b = Baseline::from_entries(&vec![("ksu".to_string(), "kkkkkkk1".to_string())]);

    // first run: ksu unchanged, mksu new
    let mut all = Vec::new();
    all.extend(observe_fork(&mut b, "ksu", "kkkkkkk1", &registry));
    all.extend(observe_fork(&mut b, "mksu", "mmmmmmm2", &registry));
    let projects: Vec<&str> = all.iter().map(|d| d.project.as_str()).collect();
    assert_eq!(projects, vec!["p1", "p2"]);

    // second run with the same remote hashes: nothing changes
    let snapshot = b.entries().clone();
    let mut again = Vec::new();
    again.extend(observe_fork(&mut b, "ksu", "kkkkkkk1", &registry));
    again.extend(observe_fork(&mut b, "mksu", "mmmmmmm2", &registry));
    assert!(again.is_empty());
    assert_eq!(b.entries(), &snapshot);
}

#[test]
fn baseline_set_replaces_in_place() {
    let mut b = Baseline::new();
    b.set("ksu", "one");
    b.set("mksu", "two");
    b.set("ksu", "three");
    assert_eq!(b.get("ksu"), Some(&"three".to_string()));
    assert_eq!(b.get("mksu"), Some(&"two".to_string()));
    assert_eq!(b.entries().len(), 2);
    assert_eq!(b.entries()[0].0, "ksu");
    assert_eq!(b.get("resukisu"), None);
}

#[test]
fn end_to_end_alias_normalization_scenario() {
    // One project declares support through the deprecated alias; the
    // watcher observes a new commit of the canonical fork.
    let registry = vec![(
        "p1".to_string(),
        project(Some(vec!["mksu", "sukisuultra"])),
    )];
    let stored = vec![("sukisuultra".to_string(), "stalehash".to_string())];
    let mut b = Baseline::from_entries(&stored);

    let new_hash = "a1b2c3d4e5f60708";
    let updates = observe_fork(&mut b, "resukisu", new_hash, &registry);

    assert_eq!(updates.len(), 1);
    assert_eq!(updates[0].project, "p1");
    assert_eq!(updates[0].variant, "resukisu");
    assert_eq!(updates[0].commit_id, "a1b2c3d");
    assert_eq!(updates[0].commit_id.len(), 7);
    assert!(updates[0].commit_id.chars().all(|c| c.is_ascii_hexdigit()));

    // the baseline holds the full new hash under the canonical key and the
    // stale alias entry is gone
    assert_eq!(b.get("resukisu"), Some(&new_hash.to_string()));
    assert_eq!(b.get("sukisuultra"), None);
    let entries = b.entries();
    assert_eq!(entries.len(), 1);
    assert_eq!(entries[0].0, "resukisu");
}
