use ci_core::config::GlobalConfig;
use ci_core::config::ProjectConfig;
use ci_core::errors::CiError;
use ci_core::notify::attachment_caption;
use ci_core::notify::find_project_for_tag;
use ci_core::notify::notify_destinations;
use ci_core::notify::release_download_command;
use ci_core::notify::release_message;
use ci_core::notify::release_view_command;
use ci_core::notify::send_document_url;
use ci_core::notify::send_message_url;
use ci_core::output::env_file_line;
use ci_core::output::shell_export_line;
use ci_core::package::anykernel_coords;
use ci_core::package::clone_anykernel_command;
use ci_core::package::image_relative_path;
use ci_core::package::release_command;
use ci_core::package::zip_command;
use ci_core::setup::branch_sync_action;
use ci_core::setup::clone_url;
use ci_core::setup::fork_setup_command;
use ci_core::setup::legacy_cleanup_files;
use ci_core::setup::repo_owner;
use ci_core::setup::setup_commit_message;
use ci_core::setup::target_branches;
use ci_core::setup::update_commit_message;
use ci_core::setup::SyncAction;

fn project(prefix: Option<&str>) -> ProjectConfig {
    ProjectConfig {
        repo: "Owner/Repo".to_string(),
        defconfig: "d".to_string(),
        localversion_base: "-v".to_string(),
        lto: None,
        supported_ksu: None,
        toolchain_urls: None,
        toolchain_path_prefix: None,
        toolchain_path_exports: None,
        anykernel_repo: None,
        anykernel_branch: None,
        zip_name_prefix: prefix.map(|s| s.to_string()),
        version_method: None,
        extra_host_env: None,
        disable_security: None,
        readme_placeholders: None,
    }
}

fn strings(v: Vec<&str>) -> Vec<String> {
    v.into_iter().map(|s| s.to_string()).collect()
}

#[test]
fn tag_reverse_lookup_first_match_wins() {
    let registry = vec![
        ("_globals".to_string(), project(Some("S24"))),
        ("s23".to_string(), project(Some("S23Kernel"))),
        ("s24".to_string(), project(Some("S24"))),
        ("s24pro".to_string(), project(Some("S24"))),
    ];
    assert_eq!(find_project_for_tag(&registry, "S24-KSU-20240101-1200"), Some(2));
    assert_eq!(find_project_for_tag(&registry, "S23Kernel-LKM-20240101-1200"), Some(1));
    assert_eq!(find_project_for_tag(&registry, "Pixel-KSU"), None);
}

#[test]
fn tag_lookup_defaults_to_kernel_prefix() {
    let registry = vec![("p".to_string(), project(None))];
    assert_eq!(find_project_for_tag(&registry, "Kernel-KSU-x"), Some(0));
    assert_eq!(find_project_for_tag(&registry, "Other-KSU-x"), None);
}

#[test]
fn destinations_broadcast_and_fork_chat() {
    let globals = GlobalConfig {
        broadcast_channel: Some("@channel".to_string()),
        resukisu_chat_id: Some("-100123".to_string()),
        resukisu_topic_id: Some(42),
    };
    let d = notify_destinations(&globals, "K-ReSuki-20240101-1200");
    assert_eq!(
        d,
        vec![
            ("@channel".to_string(), None),
            ("-100123".to_string(), Some(42)),
        ]
    );
    let d = notify_destinations(&globals, "K-KSU-20240101-1200");
    assert_eq!(d, vec![("@channel".to_string(), None)]);
}

#[test]
fn destinations_may_be_empty() {
    let globals = GlobalConfig {
        broadcast_channel: None,
        resukisu_chat_id: None,
        resukisu_topic_id: None,
    };
    assert!(notify_destinations(&globals, "K-ReSuki-1").is_empty());
}

#[test]
fn announcement_texts() {
    let msg = release_message("o/r", "K-KSU-1", "K KSU Build (1)", "alice", "https://u");
    assert_eq!(
        msg,
        "兄长大人，快看！<code>o/r</code> 有新的 Release 了哦。\n\n<b>版本 (Version):</b> <code>K-KSU-1</code>\n<b>标题 (Title):</b> K KSU Build (1)\n<b>作者 (Author):</b> alice\n\n总之，快去看看吧！ <a href='https://u'>点击这里跳转</a>"
    );
    let cap = attachment_caption("o/r", "K-KSU-1", "K-KSU-1.zip");
    assert_eq!(
        cap,
        "兄长大人，附件来了。\n<b>仓库 (Repo):</b> <code>o/r</code>\n<b>版本 (Version):</b> <code>K-KSU-1</code>\n\n📄 <b>文件 (File):</b> <code>K-KSU-1.zip</code>"
    );
}

#[test]
fn bot_endpoints_embed_token() {
    assert_eq!(
        send_message_url("123:abc"),
        "https://api.telegram.org/bot123:abc/sendMessage"
    );
    assert_eq!(
        send_document_url("123:abc"),
        "https://api.telegram.org/bot123:abc/sendDocument"
    );
}

#[test]
fn gh_release_commands() {
    assert_eq!(
        release_view_command("tag1", "o/r"),
        strings(vec![
            "gh",
            "release",
            "view",
            "tag1",
            "--repo",
            "o/r",
            "--json",
            "assets,body,name,url,author"
        ])
    );
    assert_eq!(
        release_download_command("tag1", "o/r", "a.zip"),
        strings(vec!["gh", "release", "download", "tag1", "--repo", "o/r", "-p", "a.zip"])
    );
}

#[test]
fn packaging_commands() {
    let p = project(None);
    let (repo, branch) = anykernel_coords(&p);
    assert_eq!(repo, "https://github.com/YuzakiKokuban/AnyKernel3.git");
    assert_eq!(branch, "master");

    let mut p = project(None);
    p.anykernel_repo = Some("https://example.com/ak.git".to_string());
    p.anykernel_branch = Some("s24".to_string());
    let (repo, branch) = anykernel_coords(&p);
    assert_eq!(repo, "https://example.com/ak.git");
    assert_eq!(branch, "s24");

    assert_eq!(
        clone_anykernel_command(&repo, &branch),
        strings(vec!["git", "clone", "https://example.com/ak.git", "-b", "s24", "AnyKernel3"])
    );
    assert_eq!(image_relative_path(), "out/arch/arm64/boot/Image");

    let zc = zip_command("K-KSU-1.zip");
    assert_eq!(zc[0], "zip");
    assert_eq!(zc[1], "-r9");
    assert_eq!(zc[2], "../K-KSU-1.zip");
    assert_eq!(zc[3], ".");
    let excluded: Vec<&String> = zc[4..].iter().skip(1).step_by(2).collect();
    assert_eq!(
        excluded,
        vec![
            ".git*",
            ".github*",
            "README.md",
            "LICENSE",
            "*.gitignore",
            "patch_linux",
            "tools/boot.img.lz4",
            "tools/libmagiskboot.so"
        ]
    );

    assert_eq!(
        release_command("t", "t.zip", "o/r", "T Build", "mksu"),
        strings(vec![
            "gh",
            "release",
            "create",
            "t",
            "t.zip",
            "--repo",
            "o/r",
            "--title",
            "T Build",
            "--notes",
            "Automated build for mksu"
        ])
    );
}

#[test]
fn branch_synchronization_decisions() {
    let remote = strings(vec!["main", "sukisuultra"]);
    assert_eq!(branch_sync_action("resukisu", &remote), SyncAction::RenameLegacy);
    assert_eq!(branch_sync_action("main", &remote), SyncAction::Checkout);
    assert_eq!(branch_sync_action("ksu", &remote), SyncAction::Skip);

    // after the rename the decision is a plain checkout: idempotent
    let renamed = strings(vec!["main", "resukisu"]);
    assert_eq!(branch_sync_action("resukisu", &renamed), SyncAction::Checkout);

    // a legacy branch next to an existing canonical one is left alone
    let both = strings(vec!["resukisu", "sukisuultra"]);
    assert_eq!(branch_sync_action("resukisu", &both), SyncAction::Checkout);
}

#[test]
fn setup_fixed_lists() {
    assert_eq!(target_branches(), strings(vec!["main", "ksu", "mksu", "resukisu"]));
    assert_eq!(
        legacy_cleanup_files(),
        strings(vec!["build.sh", "build_kernel.sh", "update.sh", "update-kernelsu.yml"])
    );
}

#[test]
fn clone_urls_and_commit_messages() {
    assert_eq!(
        clone_url(&Some("tok".to_string()), "Owner/Repo"),
        "https://tok@github.com/Owner/Repo.git"
    );
    assert_eq!(clone_url(&None, "Owner/Repo"), "https://github.com/Owner/Repo.git");
    assert_eq!(
        setup_commit_message("[skip ci] ci: Sync central CI files", "mksu"),
        "[skip ci] ci: Sync central CI files (branch: mksu)"
    );
    assert_eq!(update_commit_message("resukisu", "a1b2c3d"), "ci: update resukisu to a1b2c3d");
    assert_eq!(repo_owner("Owner/Repo"), "Owner");
    assert_eq!(repo_owner("NoSlash"), "NoSlash");
}

#[test]
fn fork_setup_invocation() {
    assert_eq!(
        fork_setup_command(&strings(vec!["builtin"])),
        strings(vec!["bash", "setup.sh", "builtin"])
    );
}

#[test]
fn ci_variable_lines() {
    assert_eq!(env_file_line("RELEASE_TAG", "K-KSU-1"), "RELEASE_TAG=K-KSU-1");
    assert_eq!(
        shell_export_line("RELEASE_TAG", "K-KSU-1"),
        "export RELEASE_TAG='K-KSU-1'"
    );
}

#[test]
fn error_messages() {
    let e = CiError::NotFound { what: "p9".to_string() };
    assert_eq!(e.message(), "not found: p9");
    let e = CiError::ProcessFailure {
        command: "make".to_string(),
        detail: "exit 2".to_string(),
    };
    assert_eq!(e.message(), "command failed: make exit 2");
    let e = CiError::IoFailure { detail: "gone".to_string() };
    assert_eq!(e.message(), "io failure: gone");
    let e = CiError::ParseFailure { detail: "bad json".to_string() };
    assert_eq!(e.message(), "parse failure: bad json");
}
