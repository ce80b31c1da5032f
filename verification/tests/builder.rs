use bgt::builder::{check_gpg_signing, BuildAction, BuildError, Builder};
use bgt::config::{
    build_dir_from, config_file, config_file_from, config_home, config_home_from,
    default_build_dir, Config, WorkDirs,
};
use bgt::plan::{Block, Command, EnvVar, Output, Step, Task, Word};

fn config() -> Config {
    let mut config = Config::with_dirs(WorkDirs {
        guix_build_dir: "/work".to_string(),
        guix_sigs_dir: "/work/guix.sigs".to_string(),
        bitcoin_detached_sigs_dir: "/work/bitcoin-detached-sigs".to_string(),
        macos_sdks_dir: "/work/macos-sdks".to_string(),
        bitcoin_dir: "/work/bitcoin".to_string(),
    });
    config.signer_name = "alice".to_string();
    config.gpg_key_id = "0xABCD".to_string();
    config.guix_sigs_fork_url = "https://github.com/alice/guix.sigs".to_string();
    config
}

fn builder(action: BuildAction) -> Builder {
    Builder::new("v27.1".to_string(), action, config()).unwrap()
}

fn text(s: &str) -> Word {
    Word::Text(s.to_string())
}

fn texts(items: &[&str]) -> Vec<Word> {
    items.iter().map(|s| text(s)).collect()
}

fn under(dir: &str, rel: &str) -> Word {
    Word::Under { dir: dir.to_string(), rel: rel.to_string() }
}

fn git(dir: Word, args: Vec<Word>, output: Output, on_failure: &str) -> Task {
    Task {
        step: Step::Run(Command {
            program: text("git"),
            args,
            dir: Some(dir),
            env: Vec::new(),
            output,
        }),
        on_failure: on_failure.to_string(),
    }
}

fn script(rel: &str, env: Vec<EnvVar>, on_failure: &str) -> Task {
    Task {
        step: Step::Run(Command {
            program: under("/work/bitcoin", rel),
            args: Vec::new(),
            dir: Some(Word::Dir("/work/bitcoin".to_string())),
            env,
            output: Output::Streamed,
        }),
        on_failure: on_failure.to_string(),
    }
}

fn var(name: &str, value: Word) -> EnvVar {
    EnvVar { name: name.to_string(), value }
}

fn checkout() -> Vec<Task> {
    vec![
        git(
            Word::Dir("/work/bitcoin".to_string()),
            texts(&["fetch", "origin", "tag", "v27.1", "--no-tags", "--depth=1"]),
            Output::Streamed,
            "Failed to checkout Bitcoin",
        ),
        git(
            Word::Dir("/work/bitcoin".to_string()),
            texts(&["checkout", "v27.1"]),
            Output::Streamed,
            "Failed to checkout version v27.1 from bitcoin source",
        ),
    ]
}

fn refresh() -> Vec<Task> {
    vec![
        git(
            under("/work", "guix.sigs"),
            texts(&["checkout", "main"]),
            Output::Inherited,
            "Failed to checkout main branch in guix.sigs",
        ),
        git(
            under("/work", "guix.sigs"),
            texts(&["pull", "upstream", "main"]),
            Output::Inherited,
            "Failed to pull upstream main in guix.sigs",
        ),
        git(
            under("/work", "bitcoin-detached-sigs"),
            texts(&["checkout", "master"]),
            Output::Inherited,
            "Failed to checkout master branch in bitcoin-detached-sigs",
        ),
        git(
            under("/work", "bitcoin-detached-sigs"),
            texts(&["pull", "origin", "master"]),
            Output::Inherited,
            "Failed to pull origin master in bitcoin-detached-sigs",
        ),
    ]
}

fn cache_env() -> Vec<EnvVar> {
    vec![
        var("SOURCES_PATH", under("/work", "depends-sources-cache")),
        var("BASE_CACHE", under("/work", "depends-base-cache")),
        var("SDK_PATH", under("/work", "macos-sdks")),
    ]
}

fn attest(kind: &str) -> Vec<Task> {
    let files = [
        "27.1/alice/noncodesigned.SHA256SUMS",
        "27.1/alice/noncodesigned.SHA256SUMS.asc",
    ];
    let mut add = vec![text("add")];
    add.extend(texts(&files));
    let failed = "Failed to commit attestations";
    vec![
        script(
            "contrib/guix/guix-attest",
            vec![
                var("GUIX_SIGS_REPO", under("/work", "guix.sigs")),
                var("SIGNER", text("0xABCD=alice")),
            ],
            "Failed to execute guix-attest command",
        ),
        git(
            under("/work", "guix.sigs"),
            texts(&["checkout", "-b", &format!("alice-v27.1-{}-attestations", kind)]),
            Output::Streamed,
            failed,
        ),
        git(under("/work", "guix.sigs"), add, Output::Streamed, failed),
        Task {
            step: Step::Run(Command {
                program: text("cat"),
                args: texts(&files),
                dir: Some(under("/work", "guix.sigs")),
                env: Vec::new(),
                output: Output::Streamed,
            }),
            on_failure: failed.to_string(),
        },
        git(
            under("/work", "guix.sigs"),
            texts(&["commit", "-m", &format!("Add {} attestations by alice for v27.1", kind)]),
            Output::Streamed,
            failed,
        ),
    ]
}

#[test]
fn new_refuses_versions_before_the_oldest() {
    assert_eq!(
        Builder::new("v20.9".to_string(), BuildAction::Build, config()).err(),
        Some(BuildError::VersionTooOld)
    );
    assert_eq!(
        Builder::new("v0.21.0".to_string(), BuildAction::Build, config()).err(),
        Some(BuildError::VersionTooOld)
    );
    assert_eq!(
        Builder::new("v21.0rc1".to_string(), BuildAction::Build, config()).err(),
        Some(BuildError::VersionTooOld)
    );
    assert_eq!(
        Builder::new(String::new(), BuildAction::Clean, config()).err(),
        Some(BuildError::VersionTooOld)
    );
    assert_eq!(
        Builder::new("v21".to_string(), BuildAction::Build, config()).err(),
        Some(BuildError::VersionTooOld)
    );
}

#[test]
fn new_keeps_what_it_is_given() {
    let b = Builder::new("v21.0".to_string(), BuildAction::CodeSigned, config()).unwrap();
    assert_eq!(b.version(), "v21.0");
    assert_eq!(b.action(), BuildAction::CodeSigned);
    assert_eq!(b.config().signer_name, "alice");
    assert!(Builder::new("27.0".to_string(), BuildAction::Build, config()).is_ok());
    assert!(Builder::new("v21.0.1".to_string(), BuildAction::Build, config()).is_ok());
}

#[test]
fn setup_takes_no_step() {
    assert_eq!(builder(BuildAction::Setup).run(), Vec::<Task>::new());
}

#[test]
fn refresh_repos_updates_both_signature_repositories() {
    assert_eq!(builder(BuildAction::Build).refresh_repos(), refresh());
}

#[test]
fn checkout_fetches_and_checks_out_the_tag() {
    assert_eq!(builder(BuildAction::Build).checkout_bitcoin(), checkout());
}

#[test]
fn build_refreshes_checks_out_sees_to_the_sdk_and_builds() {
    let mut expected = refresh();
    expected.extend(checkout());
    expected.push(Task { step: Step::EnsureSdk, on_failure: "Failed to check SDK".to_string() });
    expected.push(script(
        "contrib/guix/guix-build",
        cache_env(),
        "Failed to execute guix-build command",
    ));
    assert_eq!(builder(BuildAction::Build).run(), expected);
}

#[test]
fn build_of_several_packages_limits_the_jobs() {
    let mut config = config();
    config.multi_package = true;
    let b = Builder::new("v27.1".to_string(), BuildAction::Build, config).unwrap();
    let mut env = cache_env();
    env.push(var("JOBS", text("1")));
    env.push(var("ADDITIONAL_GUIX_COMMON_FLAGS", text("--max-jobs=8")));
    let expected = script("contrib/guix/guix-build", env, "");
    assert_eq!(Step::Run(b.guix_build()), expected.step);
}

#[test]
fn attestation_without_code_signatures() {
    let mut expected = checkout();
    expected.extend(attest("non-codesigned"));
    assert_eq!(builder(BuildAction::NonCodeSigned).run(), expected);
}

#[test]
fn attestation_with_code_signatures() {
    let mut expected = checkout();
    expected.push(script(
        "contrib/guix/guix-codesign",
        vec![var("DETACHED_SIGS_REPO", under("/work", "bitcoin-detached-sigs"))],
        "Failed to execute guix-codesign command",
    ));
    expected.extend(attest("codesigned"));
    assert_eq!(builder(BuildAction::CodeSigned).run(), expected);
}

#[test]
fn clean_runs_the_clean_script() {
    assert_eq!(
        builder(BuildAction::Clean).run(),
        vec![script("contrib/guix/guix-clean", Vec::new(), "Failed to execute guix-clean command")]
    );
}

#[test]
fn commit_of_all_attestations_adds_four_files() {
    let plan = builder(BuildAction::NonCodeSigned).commit_attestations("all");
    assert_eq!(plan.len(), 4);
    let files = texts(&[
        "27.1/alice/all.SHA256SUMS",
        "27.1/alice/all.SHA256SUMS.asc",
        "27.1/alice/noncodesigned.SHA256SUMS",
        "27.1/alice/noncodesigned.SHA256SUMS.asc",
    ]);
    let mut add = vec![text("add")];
    add.extend(files.clone());
    assert_eq!(
        plan[1],
        git(under("/work", "guix.sigs"), add, Output::Streamed, "Failed to commit attestations")
    );
    match &plan[2].step {
        Step::Run(command) => assert_eq!(command.args, files),
        other => panic!("unexpected {:?}", other),
    }
    assert_eq!(
        plan[0],
        git(
            under("/work", "guix.sigs"),
            texts(&["checkout", "-b", "alice-v27.1-all-attestations"]),
            Output::Streamed,
            "Failed to commit attestations"
        )
    );
}

#[test]
fn attestation_files_drop_the_first_character_of_the_version() {
    let b = Builder::new("27.1".to_string(), BuildAction::NonCodeSigned, config()).unwrap();
    let plan = b.commit_attestations("codesigned");
    match &plan[2].step {
        Step::Run(command) => assert_eq!(
            command.args,
            texts(&[
                "7.1/alice/noncodesigned.SHA256SUMS",
                "7.1/alice/noncodesigned.SHA256SUMS.asc"
            ])
        ),
        other => panic!("unexpected {:?}", other),
    }
}

#[test]
fn init_prepares_each_directory_that_is_missing() {
    let clone = |options: &[&str], url: &str, dir: &str, on_failure: &str| {
        let mut args = vec![text("clone")];
        args.extend(texts(options));
        args.push(text(url));
        args.push(Word::NameOf(dir.to_string()));
        git(Word::Dir("/work".to_string()), args, Output::Inherited, on_failure)
    };
    let expected = vec![
        Block {
            unless_exists: Some("/work".to_string()),
            tasks: vec![Task {
                step: Step::CreateDir("/work".to_string()),
                on_failure: "Failed to create guix_build_dir".to_string(),
            }],
        },
        Block {
            unless_exists: Some("/work/bitcoin".to_string()),
            tasks: vec![clone(
                &["--depth", "1"],
                "https://github.com/bitcoin/bitcoin",
                "/work/bitcoin",
                "Failed to clone bitcoin repository",
            )],
        },
        Block {
            unless_exists: Some("/work/bitcoin-detached-sigs".to_string()),
            tasks: vec![clone(
                &[],
                "https://github.com/bitcoin-core/bitcoin-detached-sigs",
                "/work/bitcoin-detached-sigs",
                "Failed to clone bitcoin-detached-sigs repository",
            )],
        },
        Block {
            unless_exists: Some("/work/macos-sdks".to_string()),
            tasks: vec![Task {
                step: Step::CreateDir("/work/macos-sdks".to_string()),
                on_failure: "Failed to create macos_sdks_dir".to_string(),
            }],
        },
        Block {
            unless_exists: Some("/work/guix.sigs".to_string()),
            tasks: vec![
                clone(
                    &["--origin", "upstream"],
                    "https://github.com/bitcoin-core/guix.sigs.git",
                    "/work/guix.sigs",
                    "Failed to clone guix.sigs repository",
                ),
                git(
                    Word::Dir("/work/guix.sigs".to_string()),
                    texts(&["remote", "add", "origin", "https://github.com/alice/guix.sigs"]),
                    Output::Inherited,
                    "Failed to set the origin remote of guix.sigs",
                ),
            ],
        },
        Block {
            unless_exists: None,
            tasks: vec![Task {
                step: Step::Run(Command {
                    program: text("gpg"),
                    args: texts(&["--list-keys", "0xABCD"]),
                    dir: None,
                    env: Vec::new(),
                    output: Output::Captured,
                }),
                on_failure: "GPG key 0xABCD not found".to_string(),
            }],
        },
    ];
    assert_eq!(builder(BuildAction::Setup).init(), expected);
}

#[test]
fn signing_check_signs_nothing_and_throws_it_away() {
    assert_eq!(
        check_gpg_signing("0xABCD"),
        Command {
            program: text("gpg"),
            args: texts(&[
                "--batch",
                "--dry-run",
                "--local-user",
                "0xABCD",
                "--armor",
                "--sign",
                "--output",
                "/dev/null",
                "/dev/null"
            ]),
            dir: None,
            env: Vec::new(),
            output: Output::Captured,
        }
    );
}

#[test]
fn configuration_before_setup() {
    let c = Config::with_dirs(WorkDirs {
        guix_build_dir: "a".to_string(),
        guix_sigs_dir: "b".to_string(),
        bitcoin_detached_sigs_dir: "c".to_string(),
        macos_sdks_dir: "d".to_string(),
        bitcoin_dir: "e".to_string(),
    });
    assert_eq!(c.source_repo_owner, "bitcoin");
    assert_eq!(c.source_repo_name, "bitcoin");
    assert_eq!(c.guix_sigs_repo_owner, "bitcoin-core");
    assert_eq!(c.guix_sigs_repo_name, "guix.sigs");
    assert_eq!(c.detached_repo_owner, "bitcoin-core");
    assert_eq!(c.detached_repo_name, "bitcoin-detached-sigs");
    assert_eq!((c.poll_interval_secs, c.poll_interval_nanos), (300, 0));
    assert_eq!(c.signer_name, "");
    assert_eq!(c.gpg_key_id, "");
    assert_eq!(c.guix_sigs_fork_url, "");
    assert!(!c.multi_package);
    assert_eq!(c.guix_build_dir, "a");
    assert_eq!(c.guix_sigs_dir, "b");
    assert_eq!(c.bitcoin_detached_sigs_dir, "c");
    assert_eq!(c.macos_sdks_dir, "d");
    assert_eq!(c.bitcoin_dir, "e");
    assert_eq!(c.github_username, None);
    assert_eq!(bgt::config::GH_TOKEN_NAME, "GH_API_TOKEN");
}

#[test]
fn default_configuration_has_no_signer_yet() {
    let c = Config::default();
    assert_eq!(c.source_repo_owner, "bitcoin");
    assert_eq!(c.detached_repo_name, "bitcoin-detached-sigs");
    assert_eq!((c.poll_interval_secs, c.poll_interval_nanos), (300, 0));
    assert_eq!(c.signer_name, "");
    assert!(!c.multi_package);
    assert_eq!(c.github_username, None);
    assert!(!c.guix_build_dir.is_empty());
}

#[test]
fn work_directories_keep_their_build_directory() {
    let dirs = WorkDirs::under("/data/builds".to_string());
    assert_eq!(dirs.guix_build_dir, "/data/builds");
    assert!(!bgt::config::or_here(None).is_empty());
    assert_eq!(bgt::config::or_here(Some("/x".to_string())), "/x");
    assert_eq!(bgt::config::or_here(None), ".");
}

#[test]
fn configuration_is_described_in_two_columns() {
    let mut c = config();
    c.github_username = Some("alice-gh".to_string());
    c.poll_interval_secs = 90;
    c.poll_interval_nanos = 500_000_000;
    c.bitcoin_dir = "/work/bit coin\"x".to_string();
    let path = |p: &str| format!("{:?}", std::path::PathBuf::from(p));
    let mut expected = String::from("BGT Builder Configuration:\n");
    expected += &format!("{:<32} {}/{}\n", "Source Repo:", "bitcoin", "bitcoin");
    expected += &format!("{:<32} {}/{}\n", "Guix sigs repo:", "bitcoin-core", "guix.sigs");
    expected += &format!(
        "{:<32} {}/{}\n",
        "Detached sigs repo:", "bitcoin-core", "bitcoin-detached-sigs"
    );
    expected += &format!(
        "{:<32} {:?}\n",
        "Poll Interval:",
        std::time::Duration::new(90, 500_000_000)
    );
    expected += &format!("{:<32} {}\n", "Signer Name:", "alice");
    expected += &format!("{:<32} {}\n", "GPG Key Short ID:", "0xABCD");
    expected += &format!(
        "{:<32} {}\n",
        "Guix Sigs Fork URL:", "https://github.com/alice/guix.sigs"
    );
    expected += &format!("{:<32} {}\n", "Multi-package:", false);
    expected += &format!("{:<32} {}\n", "Guix Build Directory:", path("/work"));
    expected += &format!("{:<32} {}\n", "Guix Sigs Directory:", path("/work/guix.sigs"));
    expected += &format!(
        "{:<32} {}\n",
        "Bitcoin Detached Sigs Directory:",
        path("/work/bitcoin-detached-sigs")
    );
    expected += &format!("{:<32} {}\n", "macOS SDKs Directory:", path("/work/macos-sdks"));
    expected += &format!("{:<32} {}\n", "Bitcoin Directory:", path("/work/bit coin\"x"));
    expected += &format!("{:<32} {}\n", "GitHub Username:", "alice-gh");
    expected += &format!("{:<32} {}\n", "GitHub Token:", "[set in environment]");
    assert_eq!(c.describe(true), expected);
    assert!(c.describe(false).ends_with("GitHub Token:                    Not set\n"));
    c.github_username = None;
    c.multi_package = true;
    let text = c.describe(false);
    assert!(text.contains("GitHub Username:                 None\n"));
    assert!(text.contains("Multi-package:                   true\n"));
    assert!(text.contains("Bitcoin Detached Sigs Directory: \"/work/bitcoin-detached-sigs\"\n"));
}

#[test]
fn builder_is_described_field_by_field() {
    let b = builder(BuildAction::NonCodeSigned);
    let path = |p: &str| format!("{:?}", std::path::PathBuf::from(p));
    let mut expected = String::from("Builder {\n");
    expected += &format!("  signer_name: {}\n", "alice");
    expected += &format!("  gpg_key_id: {}\n", "0xABCD");
    expected += &format!("  version: {}\n", "v27.1");
    expected += &format!("  action: {:?}\n", BuildAction::NonCodeSigned);
    expected += &format!("  guix_build_dir: {}\n", path("/work"));
    expected += &format!("  guix_sigs_dir: {}\n", path("/work/guix.sigs"));
    expected += &format!("  guix_sigs_fork_url: {:?}\n", "https://github.com/alice/guix.sigs");
    expected += &format!("  bitcoin_detached_sigs_dir: {}\n", path("/work/bitcoin-detached-sigs"));
    expected += &format!("  macos_sdks_dir: {}\n", path("/work/macos-sdks"));
    expected += &format!("  bitcoin_dir: {}\n", path("/work/bitcoin"));
    expected += "}\n";
    assert_eq!(b.describe(), expected);
    for action in [
        BuildAction::Setup,
        BuildAction::Build,
        BuildAction::NonCodeSigned,
        BuildAction::CodeSigned,
        BuildAction::Clean,
    ] {
        assert!(builder(action).describe().contains(&format!("  action: {:?}\n", action)));
    }
}

#[test]
fn work_directories_lie_in_the_build_directory() {
    let dirs = WorkDirs::under("/data/builds".to_string());
    let join = |rel: &str| {
        std::path::Path::new("/data/builds").join(rel).to_string_lossy().into_owned()
    };
    assert_eq!(dirs.guix_build_dir, "/data/builds");
    assert_eq!(dirs.guix_sigs_dir, join("guix.sigs"));
    assert_eq!(dirs.bitcoin_detached_sigs_dir, join("bitcoin-detached-sigs"));
    assert_eq!(dirs.macos_sdks_dir, join("macos-sdks"));
    assert_eq!(dirs.bitcoin_dir, join("bitcoin"));
    assert_ne!(dirs.bitcoin_dir, "/data/builds");
    assert_ne!(dirs.bitcoin_dir, "bitcoin");
}

#[test]
fn default_directories_are_taken_from_what_the_system_names() {
    let join = |base: &str, rel: &str| {
        std::path::Path::new(base).join(rel).to_string_lossy().into_owned()
    };
    assert_eq!(build_dir_from(Some("/state".to_string())), join("/state", "guix-builds"));
    assert_eq!(build_dir_from(None), join(".", "guix-builds"));
    assert_eq!(config_home_from(Some("/conf".to_string())), join("/conf", "bgt"));
    assert_eq!(config_home_from(None), join(".", "bgt"));
    assert_eq!(
        config_file_from(Some("/conf".to_string()), "config.toml"),
        join(&join("/conf", "bgt"), "config.toml")
    );
    assert_eq!(config_file_from(None, "watch.pid"), join(&join(".", "bgt"), "watch.pid"));
}

#[test]
fn default_directories_of_this_machine_hang_together() {
    let dir = default_build_dir();
    assert!(std::path::Path::new(&dir).ends_with("guix-builds"));
    let home = config_home();
    assert!(std::path::Path::new(&home).ends_with("bgt"));
    let file = config_file("known_tags_sigs");
    assert_eq!(
        file,
        std::path::Path::new(&home).join("known_tags_sigs").to_string_lossy().into_owned()
    );
    let c = Config::default();
    assert_eq!(c.guix_build_dir, dir);
    assert_eq!(
        c.bitcoin_dir,
        std::path::Path::new(&dir).join("bitcoin").to_string_lossy().into_owned()
    );
}
