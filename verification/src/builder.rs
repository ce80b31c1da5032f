//! One stage of the release pipeline for one tag.

use crate::config::{path_shown, show_path, Config};
use crate::plan::{
    append_tasks, blocks, concat, env_vars, git, git_command, no_env, no_tasks, no_words,
    push_block, push_env, push_task, push_text, push_word, run, run_task, tasks, text, text_word,
    under, words, Block, BlockView, Command, CommandView, EnvVar, EnvVarView, Output, Step,
    StepView, Task, TaskView, Word, WordView,
};
use crate::text::{chars_of, string_of};
use crate::version::{at_most, version_at_most};
use vstd::prelude::*;

verus! {

/// The stages of the pipeline.
#[derive(Debug, Clone, Copy, PartialEq, Eq)]
pub enum BuildAction {
    /// Prepare the work directories.
    Setup,
    /// Build the binaries.
    Build,
    /// Attest to the binaries that carry no code signatures.
    NonCodeSigned,
    /// Attach the detached code signatures and attest to the signed binaries.
    CodeSigned,
    /// Clean the build directories.
    Clean,
}

/// Why no builder can be made.
#[derive(Debug, Clone, Copy, PartialEq, Eq)]
pub enum BuildError {
    /// The version is earlier than the oldest one that can be built.
    VersionTooOld,
}

/// How the text `text` is written between quotes, as the `Debug` form of
/// `str` gives it.
pub uninterp spec fn text_shown(text: Seq<char>) -> Seq<char>;

/// The `Debug` form of `str`: the result is what `text_shown` names.
#[verifier::external_body]
fn show_text(text: &str) -> (shown: String)
    ensures
        shown@ == text_shown(text@),
{
    format!("{:?}", text)
}

/// The name of a stage.
pub open spec fn action_name(action: BuildAction) -> Seq<char> {
    match action {
        BuildAction::Setup => "Setup"@,
        BuildAction::Build => "Build"@,
        BuildAction::NonCodeSigned => "NonCodeSigned"@,
        BuildAction::CodeSigned => "CodeSigned"@,
        BuildAction::Clean => "Clean"@,
    }
}

/// One line of the description of a builder.
pub open spec fn field_line(name: Seq<char>, value: Seq<char>) -> Seq<char> {
    "  "@ + name + ": "@ + value + "\n"@
}

/// How a builder is written for a person to read.
pub open spec fn builder_description(
    config: Config,
    version: Seq<char>,
    action: BuildAction,
) -> Seq<char> {
    "Builder {\n"@ + field_line("signer_name"@, config.signer_name@) + field_line(
        "gpg_key_id"@,
        config.gpg_key_id@,
    ) + field_line("version"@, version) + field_line("action"@, action_name(action)) + field_line(
        "guix_build_dir"@,
        path_shown(config.guix_build_dir@),
    ) + field_line("guix_sigs_dir"@, path_shown(config.guix_sigs_dir@)) + field_line(
        "guix_sigs_fork_url"@,
        text_shown(config.guix_sigs_fork_url@),
    ) + field_line(
        "bitcoin_detached_sigs_dir"@,
        path_shown(config.bitcoin_detached_sigs_dir@),
    ) + field_line("macos_sdks_dir"@, path_shown(config.macos_sdks_dir@)) + field_line(
        "bitcoin_dir"@,
        path_shown(config.bitcoin_dir@),
    ) + "}\n"@
}

/// Adds one line of the description of a builder to `text`.
fn push_field(text: &mut String, name: &str, value: &str)
    ensures
        final(text)@ == old(text)@ + field_line(name@, value@),
{
    let ghost start = text@;
    text.append("  ");
    text.append(name);
    text.append(": ");
    text.append(value);
    text.append("\n");
    assert(text@ =~= start + field_line(name@, value@));
}

/// The oldest version that can be built.
pub open spec fn oldest_version() -> Seq<char> {
    "v21.0"@
}

/// One stage of the pipeline, for one version, under one configuration.
pub struct Builder {
    config: Config,
    version: String,
    action: BuildAction,
}

impl Builder {
    /// The configuration of this builder.
    pub closed spec fn spec_config(&self) -> Config {
        self.config
    }

    /// The version that this builder works on.
    pub closed spec fn spec_version(&self) -> Seq<char> {
        self.version@
    }

    /// The stage that this builder carries out.
    pub closed spec fn spec_action(&self) -> BuildAction {
        self.action
    }

    /// What holds of every builder: its version is not earlier than the
    /// oldest one that can be built.
    #[verifier::type_invariant]
    pub open spec fn valid(&self) -> bool {
        at_most(oldest_version(), self.spec_version())
    }

    /// A builder for `action` on `version`. Versions earlier than the oldest
    /// one that can be built are refused.
    pub fn new(version: String, action: BuildAction, config: Config) -> (r: Result<
        Builder,
        BuildError,
    >)
        ensures
            match r {
                Ok(builder) => at_most(oldest_version(), version@) && builder.spec_version()
                    == version@ && builder.spec_action() == action && builder.spec_config()
                    == config,
                Err(e) => !at_most(oldest_version(), version@) && e == BuildError::VersionTooOld,
            },
    {
        if !version_at_most("v21.0", version.as_str()) {
            return Err(BuildError::VersionTooOld);
        }
        Ok(Builder { config, version, action })
    }

    /// The configuration of this builder.
    pub fn config(&self) -> (config: &Config)
        ensures
            *config == self.spec_config(),
    {
        &self.config
    }

    /// The version that this builder works on.
    pub fn version(&self) -> (version: &str)
        ensures
            version@ == self.spec_version(),
    {
        self.version.as_str()
    }

    /// This builder, written for a person to read.
    pub fn describe(&self) -> (text: String)
        ensures
            text@ == builder_description(
                self.spec_config(),
                self.spec_version(),
                self.spec_action(),
            ),
    {
        let config = &self.config;
        let mut text = "Builder {\n".to_owned();
        push_field(&mut text, "signer_name", config.signer_name.as_str());
        push_field(&mut text, "gpg_key_id", config.gpg_key_id.as_str());
        push_field(&mut text, "version", self.version.as_str());
        push_field(
            &mut text,
            "action",
            match self.action {
                BuildAction::Setup => "Setup",
                BuildAction::Build => "Build",
                BuildAction::NonCodeSigned => "NonCodeSigned",
                BuildAction::CodeSigned => "CodeSigned",
                BuildAction::Clean => "Clean",
            },
        );
        push_field(&mut text, "guix_build_dir", show_path(config.guix_build_dir.as_str()).as_str());
        push_field(&mut text, "guix_sigs_dir", show_path(config.guix_sigs_dir.as_str()).as_str());
        push_field(
            &mut text,
            "guix_sigs_fork_url",
            show_text(config.guix_sigs_fork_url.as_str()).as_str(),
        );
        push_field(
            &mut text,
            "bitcoin_detached_sigs_dir",
            show_path(config.bitcoin_detached_sigs_dir.as_str()).as_str(),
        );
        push_field(&mut text, "macos_sdks_dir", show_path(config.macos_sdks_dir.as_str()).as_str());
        push_field(&mut text, "bitcoin_dir", show_path(config.bitcoin_dir.as_str()).as_str());
        text.append("}\n");
        text
    }

    /// The stage that this builder carries out.
    pub fn action(&self) -> (action: BuildAction)
        ensures
            action == self.spec_action(),
    {
        self.action
    }
}

/// The checkout of the attestations repository.
pub open spec fn sigs_checkout(config: Config) -> WordView {
    WordView::Under { dir: config.guix_build_dir@, rel: "guix.sigs"@ }
}

/// The checkout of the detached signatures.
pub open spec fn detached_checkout(config: Config) -> WordView {
    WordView::Under { dir: config.guix_build_dir@, rel: "bitcoin-detached-sigs"@ }
}

/// How both signature repositories are brought up to date.
pub open spec fn refresh_plan(config: Config) -> Seq<TaskView> {
    seq![
        run_task(
            git(
                sigs_checkout(config),
                seq![text_word("checkout"@), text_word("main"@)],
                Output::Inherited,
            ),
            "Failed to checkout main branch in guix.sigs"@,
        ),
        run_task(
            git(
                sigs_checkout(config),
                seq![text_word("pull"@), text_word("upstream"@), text_word("main"@)],
                Output::Inherited,
            ),
            "Failed to pull upstream main in guix.sigs"@,
        ),
        run_task(
            git(
                detached_checkout(config),
                seq![text_word("checkout"@), text_word("master"@)],
                Output::Inherited,
            ),
            "Failed to checkout master branch in bitcoin-detached-sigs"@,
        ),
        run_task(
            git(
                detached_checkout(config),
                seq![text_word("pull"@), text_word("origin"@), text_word("master"@)],
                Output::Inherited,
            ),
            "Failed to pull origin master in bitcoin-detached-sigs"@,
        ),
    ]
}

/// How the source tree is put at `version`: the tag is fetched and checked
/// out.
pub open spec fn checkout_plan(config: Config, version: Seq<char>) -> Seq<TaskView> {
    seq![
        run_task(
            git(
                WordView::Dir(config.bitcoin_dir@),
                seq![
                    text_word("fetch"@),
                    text_word("origin"@),
                    text_word("tag"@),
                    text_word(version),
                    text_word("--no-tags"@),
                    text_word("--depth=1"@),
                ],
                Output::Streamed,
            ),
            "Failed to checkout Bitcoin"@,
        ),
        run_task(
            git(
                WordView::Dir(config.bitcoin_dir@),
                seq![text_word("checkout"@), text_word(version)],
                Output::Streamed,
            ),
            "Failed to checkout version "@ + version + " from bitcoin source"@,
        ),
    ]
}

/// A script of the source tree, run in the source tree with `env` added to
/// its environment.
pub open spec fn script(config: Config, rel: Seq<char>, env: Seq<EnvVarView>) -> CommandView {
    CommandView {
        program: WordView::Under { dir: config.bitcoin_dir@, rel },
        args: Seq::empty(),
        dir: Some(WordView::Dir(config.bitcoin_dir@)),
        env,
        output: Output::Streamed,
    }
}

/// What the build is told where its caches and the SDKs are.
pub open spec fn cache_env(config: Config) -> Seq<EnvVarView> {
    seq![
        EnvVarView {
            name: "SOURCES_PATH"@,
            value: WordView::Under { dir: config.guix_build_dir@, rel: "depends-sources-cache"@ },
        },
        EnvVarView {
            name: "BASE_CACHE"@,
            value: WordView::Under { dir: config.guix_build_dir@, rel: "depends-base-cache"@ },
        },
        EnvVarView {
            name: "SDK_PATH"@,
            value: WordView::Under { dir: config.guix_build_dir@, rel: "macos-sdks"@ },
        },
    ]
}

/// What the build is told about jobs where several packages are built at a
/// time.
pub open spec fn jobs_env() -> Seq<EnvVarView> {
    seq![
        EnvVarView { name: "JOBS"@, value: text_word("1"@) },
        EnvVarView { name: "ADDITIONAL_GUIX_COMMON_FLAGS"@, value: text_word("--max-jobs=8"@) },
    ]
}

/// The build.
pub open spec fn build_command(config: Config) -> CommandView {
    script(
        config,
        "contrib/guix/guix-build"@,
        if config.multi_package {
            cache_env(config) + jobs_env()
        } else {
            cache_env(config)
        },
    )
}

/// The attestation, made in the attestations repository by the configured
/// signer.
pub open spec fn attest_command(config: Config) -> CommandView {
    script(
        config,
        "contrib/guix/guix-attest"@,
        seq![
            EnvVarView { name: "GUIX_SIGS_REPO"@, value: sigs_checkout(config) },
            EnvVarView {
                name: "SIGNER"@,
                value: text_word(config.gpg_key_id@ + "="@ + config.signer_name@),
            },
        ],
    )
}

/// The attachment of the detached code signatures.
pub open spec fn codesign_command(config: Config) -> CommandView {
    script(
        config,
        "contrib/guix/guix-codesign"@,
        seq![EnvVarView { name: "DETACHED_SIGS_REPO"@, value: detached_checkout(config) }],
    )
}

/// The cleaning of the build directories.
pub open spec fn clean_command(config: Config) -> CommandView {
    script(config, "contrib/guix/guix-clean"@, Seq::empty())
}

/// `s` without its first character.
pub open spec fn without_first(s: Seq<char>) -> Seq<char> {
    if s.len() > 0 {
        s.subrange(1, s.len() as int)
    } else {
        s
    }
}

/// The directory of the attestations of `version` by the configured signer,
/// with a slash at its end.
pub open spec fn attestation_dir(config: Config, version: Seq<char>) -> Seq<char> {
    without_first(version) + "/"@ + config.signer_name@ + "/"@
}

/// The files that are committed for an attestation of the kind `kind`.
pub open spec fn attestation_files(config: Config, version: Seq<char>, kind: Seq<char>) -> Seq<
    WordView,
> {
    let dir = attestation_dir(config, version);
    if kind == "all"@ {
        seq![
            text_word(dir + "all.SHA256SUMS"@),
            text_word(dir + "all.SHA256SUMS.asc"@),
            text_word(dir + "noncodesigned.SHA256SUMS"@),
            text_word(dir + "noncodesigned.SHA256SUMS.asc"@),
        ]
    } else {
        seq![
            text_word(dir + "noncodesigned.SHA256SUMS"@),
            text_word(dir + "noncodesigned.SHA256SUMS.asc"@),
        ]
    }
}

/// The branch on which an attestation of the kind `kind` is committed.
pub open spec fn attestation_branch(config: Config, version: Seq<char>, kind: Seq<char>) -> Seq<
    char,
> {
    config.signer_name@ + "-"@ + version + "-"@ + kind + "-attestations"@
}

/// The message with which an attestation of the kind `kind` is committed.
pub open spec fn attestation_message(config: Config, version: Seq<char>, kind: Seq<char>) -> Seq<
    char,
> {
    "Add "@ + kind + " attestations by "@ + config.signer_name@ + " for "@ + version
}

/// How an attestation is committed: on a branch of its own, its files are
/// added, shown and committed.
pub open spec fn commit_plan(config: Config, version: Seq<char>, kind: Seq<char>) -> Seq<
    TaskView,
> {
    seq![
        run_task(
            git(
                sigs_checkout(config),
                seq![
                    text_word("checkout"@),
                    text_word("-b"@),
                    text_word(attestation_branch(config, version, kind)),
                ],
                Output::Streamed,
            ),
            "Failed to commit attestations"@,
        ),
        run_task(
            git(
                sigs_checkout(config),
                seq![text_word("add"@)] + attestation_files(config, version, kind),
                Output::Streamed,
            ),
            "Failed to commit attestations"@,
        ),
        run_task(
            CommandView {
                program: text_word("cat"@),
                args: attestation_files(config, version, kind),
                dir: Some(sigs_checkout(config)),
                env: Seq::empty(),
                output: Output::Streamed,
            },
            "Failed to commit attestations"@,
        ),
        run_task(
            git(
                sigs_checkout(config),
                seq![
                    text_word("commit"@),
                    text_word("-m"@),
                    text_word(attestation_message(config, version, kind)),
                ],
                Output::Streamed,
            ),
            "Failed to commit attestations"@,
        ),
    ]
}

/// How an attestation of the kind `kind` is made and committed.
pub open spec fn attest_plan(config: Config, version: Seq<char>, kind: Seq<char>) -> Seq<
    TaskView,
> {
    seq![run_task(attest_command(config), "Failed to execute guix-attest command"@)] + commit_plan(
        config,
        version,
        kind,
    )
}

/// What a stage takes, step by step.
pub open spec fn run_plan(config: Config, version: Seq<char>, action: BuildAction) -> Seq<
    TaskView,
> {
    match action {
        BuildAction::Setup => Seq::empty(),
        BuildAction::Build => refresh_plan(config) + checkout_plan(config, version) + seq![
            TaskView { step: StepView::EnsureSdk, on_failure: "Failed to check SDK"@ },
            run_task(build_command(config), "Failed to execute guix-build command"@),
        ],
        BuildAction::NonCodeSigned => checkout_plan(config, version) + attest_plan(
            config,
            version,
            "non-codesigned"@,
        ),
        BuildAction::CodeSigned => checkout_plan(config, version) + seq![
            run_task(codesign_command(config), "Failed to execute guix-codesign command"@),
        ] + attest_plan(config, version, "codesigned"@),
        BuildAction::Clean => seq![
            run_task(clean_command(config), "Failed to execute guix-clean command"@),
        ],
    }
}

/// The task to clone `url` into the configured directory `dir`, from the
/// build directory, with the options `options`.
pub open spec fn clone_task(
    config: Config,
    options: Seq<WordView>,
    url: Seq<char>,
    dir: Seq<char>,
    on_failure: Seq<char>,
) -> TaskView {
    run_task(
        git(
            WordView::Dir(config.guix_build_dir@),
            seq![text_word("clone"@)] + options + seq![text_word(url), WordView::NameOf(dir)],
            Output::Inherited,
        ),
        on_failure,
    )
}

/// How the work directories are prepared: each directory that is missing is
/// made or cloned, and the signing key is looked up.
pub open spec fn init_plan(config: Config) -> Seq<BlockView> {
    seq![
        BlockView {
            unless_exists: Some(config.guix_build_dir@),
            tasks: seq![
                TaskView {
                    step: StepView::CreateDir(config.guix_build_dir@),
                    on_failure: "Failed to create guix_build_dir"@,
                },
            ],
        },
        BlockView {
            unless_exists: Some(config.bitcoin_dir@),
            tasks: seq![
                clone_task(
                    config,
                    seq![text_word("--depth"@), text_word("1"@)],
                    "https://github.com/bitcoin/bitcoin"@,
                    config.bitcoin_dir@,
                    "Failed to clone bitcoin repository"@,
                ),
            ],
        },
        BlockView {
            unless_exists: Some(config.bitcoin_detached_sigs_dir@),
            tasks: seq![
                clone_task(
                    config,
                    Seq::empty(),
                    "https://github.com/bitcoin-core/bitcoin-detached-sigs"@,
                    config.bitcoin_detached_sigs_dir@,
                    "Failed to clone bitcoin-detached-sigs repository"@,
                ),
            ],
        },
        BlockView {
            unless_exists: Some(config.macos_sdks_dir@),
            tasks: seq![
                TaskView {
                    step: StepView::CreateDir(config.macos_sdks_dir@),
                    on_failure: "Failed to create macos_sdks_dir"@,
                },
            ],
        },
        BlockView {
            unless_exists: Some(config.guix_sigs_dir@),
            tasks: seq![
                clone_task(
                    config,
                    seq![text_word("--origin"@), text_word("upstream"@)],
                    "https://github.com/bitcoin-core/guix.sigs.git"@,
                    config.guix_sigs_dir@,
                    "Failed to clone guix.sigs repository"@,
                ),
                run_task(
                    git(
                        WordView::Dir(config.guix_sigs_dir@),
                        seq![
                            text_word("remote"@),
                            text_word("add"@),
                            text_word("origin"@),
                            text_word(config.guix_sigs_fork_url@),
                        ],
                        Output::Inherited,
                    ),
                    "Failed to set the origin remote of guix.sigs"@,
                ),
            ],
        },
        BlockView {
            unless_exists: None,
            tasks: seq![
                run_task(
                    CommandView {
                        program: text_word("gpg"@),
                        args: seq![text_word("--list-keys"@), text_word(config.gpg_key_id@)],
                        dir: None,
                        env: Seq::empty(),
                        output: Output::Captured,
                    },
                    "GPG key "@ + config.gpg_key_id@ + " not found"@,
                ),
            ],
        },
    ]
}

/// A script of the source tree, run in the source tree.
fn script_command(config: &Config, rel: &str, env: Vec<EnvVar>) -> (command: Command)
    ensures
        command@ == script(*config, rel@, env_vars(env@)),
{
    Command {
        program: under(&config.bitcoin_dir, rel),
        args: no_words(),
        dir: Some(Word::Dir(config.bitcoin_dir.clone())),
        env,
        output: Output::Streamed,
    }
}

/// The task to clone `url` into the configured directory `dir`.
fn clone(config: &Config, options: Vec<Word>, url: &str, dir: &String, on_failure: &str) -> (task:
    Task)
    ensures
        task@ == clone_task(*config, words(options@), url@, dir@, on_failure@),
{
    let mut args = no_words();
    push_text(&mut args, "clone");
    let ghost first = words(args@);
    let mut options = options;
    let ghost middle = words(options@);
    args.append(&mut options);
    assert(words(args@) =~= first + middle);
    push_text(&mut args, url);
    push_word(&mut args, Word::NameOf(dir.clone()));
    assert(words(args@) =~= seq![text_word("clone"@)] + middle + seq![
        text_word(url@),
        WordView::NameOf(dir@),
    ]);
    run(git_command(Word::Dir(config.guix_build_dir.clone()), args, Output::Inherited), on_failure)
}

impl Builder {
    /// How both signature repositories are brought up to date.
    pub fn refresh_repos(&self) -> (plan: Vec<Task>)
        ensures
            tasks(plan@) == refresh_plan(self.spec_config()),
    {
        let config = &self.config;
        let mut plan = no_tasks();
        let mut args = no_words();
        push_text(&mut args, "checkout");
        push_text(&mut args, "main");
        push_task(
            &mut plan,
            run(
                git_command(under(&config.guix_build_dir, "guix.sigs"), args, Output::Inherited),
                "Failed to checkout main branch in guix.sigs",
            ),
        );
        let mut args = no_words();
        push_text(&mut args, "pull");
        push_text(&mut args, "upstream");
        push_text(&mut args, "main");
        push_task(
            &mut plan,
            run(
                git_command(under(&config.guix_build_dir, "guix.sigs"), args, Output::Inherited),
                "Failed to pull upstream main in guix.sigs",
            ),
        );
        let mut args = no_words();
        push_text(&mut args, "checkout");
        push_text(&mut args, "master");
        push_task(
            &mut plan,
            run(
                git_command(
                    under(&config.guix_build_dir, "bitcoin-detached-sigs"),
                    args,
                    Output::Inherited,
                ),
                "Failed to checkout master branch in bitcoin-detached-sigs",
            ),
        );
        let mut args = no_words();
        push_text(&mut args, "pull");
        push_text(&mut args, "origin");
        push_text(&mut args, "master");
        push_task(
            &mut plan,
            run(
                git_command(
                    under(&config.guix_build_dir, "bitcoin-detached-sigs"),
                    args,
                    Output::Inherited,
                ),
                "Failed to pull origin master in bitcoin-detached-sigs",
            ),
        );
        assert(tasks(plan@) =~~= refresh_plan(self.config));
        plan
    }

    /// How the source tree is put at the version of this builder.
    pub fn checkout_bitcoin(&self) -> (plan: Vec<Task>)
        ensures
            tasks(plan@) == checkout_plan(self.spec_config(), self.spec_version()),
    {
        let config = &self.config;
        let version = self.version.as_str();
        let mut plan = no_tasks();
        let mut args = no_words();
        push_text(&mut args, "fetch");
        push_text(&mut args, "origin");
        push_text(&mut args, "tag");
        push_text(&mut args, version);
        push_text(&mut args, "--no-tags");
        push_text(&mut args, "--depth=1");
        push_task(
            &mut plan,
            run(
                git_command(Word::Dir(config.bitcoin_dir.clone()), args, Output::Streamed),
                "Failed to checkout Bitcoin",
            ),
        );
        let mut args = no_words();
        push_text(&mut args, "checkout");
        push_text(&mut args, version);
        let mut message = concat("Failed to checkout version ", version);
        message.append(" from bitcoin source");
        push_task(
            &mut plan,
            run(
                git_command(Word::Dir(config.bitcoin_dir.clone()), args, Output::Streamed),
                message.as_str(),
            ),
        );
        assert(tasks(plan@) =~~= checkout_plan(self.config, self.version@));
        plan
    }

    /// The build.
    pub fn guix_build(&self) -> (command: Command)
        ensures
            command@ == build_command(self.spec_config()),
    {
        let config = &self.config;
        let mut env = no_env();
        push_env(&mut env, "SOURCES_PATH", under(&config.guix_build_dir, "depends-sources-cache"));
        push_env(&mut env, "BASE_CACHE", under(&config.guix_build_dir, "depends-base-cache"));
        push_env(&mut env, "SDK_PATH", under(&config.guix_build_dir, "macos-sdks"));
        if config.multi_package {
            push_env(&mut env, "JOBS", text("1"));
            push_env(&mut env, "ADDITIONAL_GUIX_COMMON_FLAGS", text("--max-jobs=8"));
            assert(env_vars(env@) =~= cache_env(*config) + jobs_env());
        }
        script_command(config, "contrib/guix/guix-build", env)
    }

    /// How an attestation of the kind `a_type` is made and committed.
    pub fn guix_attest(&self, a_type: &str) -> (plan: Vec<Task>)
        ensures
            tasks(plan@) == attest_plan(self.spec_config(), self.spec_version(), a_type@),
    {
        let config = &self.config;
        let mut env = no_env();
        push_env(&mut env, "GUIX_SIGS_REPO", under(&config.guix_build_dir, "guix.sigs"));
        let mut signer = concat(config.gpg_key_id.as_str(), "=");
        signer.append(config.signer_name.as_str());
        push_env(&mut env, "SIGNER", Word::Text(signer));
        let mut plan = no_tasks();
        push_task(
            &mut plan,
            run(
                script_command(config, "contrib/guix/guix-attest", env),
                "Failed to execute guix-attest command",
            ),
        );
        append_tasks(&mut plan, self.commit_attestations(a_type));
        assert(tasks(plan@) =~~= attest_plan(self.config, self.version@, a_type@));
        plan
    }

    /// The attachment of the detached code signatures.
    pub fn guix_codesign(&self) -> (command: Command)
        ensures
            command@ == codesign_command(self.spec_config()),
    {
        let config = &self.config;
        let mut env = no_env();
        push_env(
            &mut env,
            "DETACHED_SIGS_REPO",
            under(&config.guix_build_dir, "bitcoin-detached-sigs"),
        );
        script_command(config, "contrib/guix/guix-codesign", env)
    }

    /// The cleaning of the build directories.
    pub fn guix_clean(&self) -> (command: Command)
        ensures
            command@ == clean_command(self.spec_config()),
    {
        script_command(&self.config, "contrib/guix/guix-clean", no_env())
    }

    /// The files that are committed for an attestation of the kind
    /// `attestation_type`.
    fn attestation_files(&self, attestation_type: &str) -> (files: Vec<Word>)
        ensures
            words(files@) == attestation_files(
                self.spec_config(),
                self.spec_version(),
                attestation_type@,
            ),
    {
        let chars = chars_of(self.version.as_str());
        let start: usize = if chars.len() > 0 {
            1
        } else {
            0
        };
        let mut dir = string_of(&chars, start, chars.len());
        assert(dir@ =~= without_first(self.version@));
        dir.append("/");
        dir.append(self.config.signer_name.as_str());
        dir.append("/");
        let mut files = no_words();
        if attestation_type.to_owned() == "all".to_owned() {
            push_word(&mut files, Word::Text(concat(dir.as_str(), "all.SHA256SUMS")));
            push_word(&mut files, Word::Text(concat(dir.as_str(), "all.SHA256SUMS.asc")));
        }
        push_word(&mut files, Word::Text(concat(dir.as_str(), "noncodesigned.SHA256SUMS")));
        push_word(&mut files, Word::Text(concat(dir.as_str(), "noncodesigned.SHA256SUMS.asc")));
        assert(words(files@) =~~= attestation_files(
            self.config,
            self.version@,
            attestation_type@,
        ));
        files
    }

    /// How an attestation of the kind `attestation_type` is committed.
    pub fn commit_attestations(&self, attestation_type: &str) -> (plan: Vec<Task>)
        ensures
            tasks(plan@) == commit_plan(
                self.spec_config(),
                self.spec_version(),
                attestation_type@,
            ),
    {
        let config = &self.config;
        let version = self.version.as_str();
        let mut branch = concat(config.signer_name.as_str(), "-");
        branch.append(version);
        branch.append("-");
        branch.append(attestation_type);
        branch.append("-attestations");
        let mut message = concat("Add ", attestation_type);
        message.append(" attestations by ");
        message.append(config.signer_name.as_str());
        message.append(" for ");
        message.append(version);
        let mut plan = no_tasks();

        let mut args = no_words();
        push_text(&mut args, "checkout");
        push_text(&mut args, "-b");
        push_text(&mut args, branch.as_str());
        push_task(
            &mut plan,
            run(
                git_command(under(&config.guix_build_dir, "guix.sigs"), args, Output::Streamed),
                "Failed to commit attestations",
            ),
        );

        let mut args = no_words();
        push_text(&mut args, "add");
        let ghost first = words(args@);
        let mut files = self.attestation_files(attestation_type);
        let ghost rest = words(files@);
        args.append(&mut files);
        assert(words(args@) =~= first + rest);
        push_task(
            &mut plan,
            run(
                git_command(under(&config.guix_build_dir, "guix.sigs"), args, Output::Streamed),
                "Failed to commit attestations",
            ),
        );

        push_task(
            &mut plan,
            run(
                Command {
                    program: text("cat"),
                    args: self.attestation_files(attestation_type),
                    dir: Some(under(&config.guix_build_dir, "guix.sigs")),
                    env: no_env(),
                    output: Output::Streamed,
                },
                "Failed to commit attestations",
            ),
        );

        let mut args = no_words();
        push_text(&mut args, "commit");
        push_text(&mut args, "-m");
        push_text(&mut args, message.as_str());
        push_task(
            &mut plan,
            run(
                git_command(under(&config.guix_build_dir, "guix.sigs"), args, Output::Streamed),
                "Failed to commit attestations",
            ),
        );
        assert(tasks(plan@) =~~= commit_plan(self.config, self.version@, attestation_type@));
        plan
    }

    /// What the stage of this builder takes, step by step. The steps are to
    /// be taken in order, up to the first that fails.
    pub fn run(&self) -> (plan: Vec<Task>)
        ensures
            tasks(plan@) == run_plan(self.spec_config(), self.spec_version(), self.spec_action()),
    {
        let mut plan = no_tasks();
        match self.action {
            BuildAction::Setup => {},
            BuildAction::Build => {
                append_tasks(&mut plan, self.refresh_repos());
                append_tasks(&mut plan, self.checkout_bitcoin());
                push_task(
                    &mut plan,
                    Task { step: Step::EnsureSdk, on_failure: "Failed to check SDK".to_owned() },
                );
                push_task(
                    &mut plan,
                    run(self.guix_build(), "Failed to execute guix-build command"),
                );
                assert(tasks(plan@) =~~= run_plan(self.config, self.version@, self.action));
            },
            BuildAction::NonCodeSigned => {
                append_tasks(&mut plan, self.checkout_bitcoin());
                append_tasks(&mut plan, self.guix_attest("non-codesigned"));
                assert(tasks(plan@) =~~= run_plan(self.config, self.version@, self.action));
            },
            BuildAction::CodeSigned => {
                append_tasks(&mut plan, self.checkout_bitcoin());
                push_task(
                    &mut plan,
                    run(self.guix_codesign(), "Failed to execute guix-codesign command"),
                );
                append_tasks(&mut plan, self.guix_attest("codesigned"));
                assert(tasks(plan@) =~~= run_plan(self.config, self.version@, self.action));
            },
            BuildAction::Clean => {
                push_task(
                    &mut plan,
                    run(self.guix_clean(), "Failed to execute guix-clean command"),
                );
            },
        }
        plan
    }

    /// How the work directories are prepared. The blocks are to be taken in
    /// order, up to the first task that fails.
    pub fn init(&self) -> (plan: Vec<Block>)
        ensures
            blocks(plan@) == init_plan(self.spec_config()),
    {
        let config = &self.config;
        let mut plan: Vec<Block> = Vec::new();
        assert(blocks(plan@) =~= Seq::<BlockView>::empty());

        let mut block = no_tasks();
        push_task(
            &mut block,
            Task {
                step: Step::CreateDir(config.guix_build_dir.clone()),
                on_failure: "Failed to create guix_build_dir".to_owned(),
            },
        );
        push_block(
            &mut plan,
            Block { unless_exists: Some(config.guix_build_dir.clone()), tasks: block },
        );

        let mut options = no_words();
        push_text(&mut options, "--depth");
        push_text(&mut options, "1");
        let mut block = no_tasks();
        push_task(
            &mut block,
            clone(
                config,
                options,
                "https://github.com/bitcoin/bitcoin",
                &config.bitcoin_dir,
                "Failed to clone bitcoin repository",
            ),
        );
        push_block(&mut plan, Block { unless_exists: Some(config.bitcoin_dir.clone()), tasks: block });

        let mut block = no_tasks();
        push_task(
            &mut block,
            clone(
                config,
                no_words(),
                "https://github.com/bitcoin-core/bitcoin-detached-sigs",
                &config.bitcoin_detached_sigs_dir,
                "Failed to clone bitcoin-detached-sigs repository",
            ),
        );
        push_block(
            &mut plan,
            Block { unless_exists: Some(config.bitcoin_detached_sigs_dir.clone()), tasks: block },
        );

        let mut block = no_tasks();
        push_task(
            &mut block,
            Task {
                step: Step::CreateDir(config.macos_sdks_dir.clone()),
                on_failure: "Failed to create macos_sdks_dir".to_owned(),
            },
        );
        push_block(
            &mut plan,
            Block { unless_exists: Some(config.macos_sdks_dir.clone()), tasks: block },
        );

        let mut options = no_words();
        push_text(&mut options, "--origin");
        push_text(&mut options, "upstream");
        let mut block = no_tasks();
        push_task(
            &mut block,
            clone(
                config,
                options,
                "https://github.com/bitcoin-core/guix.sigs.git",
                &config.guix_sigs_dir,
                "Failed to clone guix.sigs repository",
            ),
        );
        let mut args = no_words();
        push_text(&mut args, "remote");
        push_text(&mut args, "add");
        push_text(&mut args, "origin");
        push_text(&mut args, config.guix_sigs_fork_url.as_str());
        push_task(
            &mut block,
            run(
                git_command(Word::Dir(config.guix_sigs_dir.clone()), args, Output::Inherited),
                "Failed to set the origin remote of guix.sigs",
            ),
        );
        push_block(
            &mut plan,
            Block { unless_exists: Some(config.guix_sigs_dir.clone()), tasks: block },
        );

        let mut args = no_words();
        push_text(&mut args, "--list-keys");
        push_text(&mut args, config.gpg_key_id.as_str());
        let mut message = concat("GPG key ", config.gpg_key_id.as_str());
        message.append(" not found");
        let mut block = no_tasks();
        push_task(
            &mut block,
            run(
                Command {
                    program: text("gpg"),
                    args,
                    dir: None,
                    env: no_env(),
                    output: Output::Captured,
                },
                message.as_str(),
            ),
        );
        push_block(&mut plan, Block { unless_exists: None, tasks: block });
        assert(blocks(plan@) =~~= init_plan(self.config));
        plan
    }
}

/// How it is found out whether the key `key_id` can sign without asking:
/// a signature is tried on nothing and thrown away.
pub open spec fn signing_check(key_id: Seq<char>) -> CommandView {
    CommandView {
        program: text_word("gpg"@),
        args: seq![
            text_word("--batch"@),
            text_word("--dry-run"@),
            text_word("--local-user"@),
            text_word(key_id),
            text_word("--armor"@),
            text_word("--sign"@),
            text_word("--output"@),
            text_word("/dev/null"@),
            text_word("/dev/null"@),
        ],
        dir: None,
        env: Seq::empty(),
        output: Output::Captured,
    }
}

/// How it is found out whether the key `key_id` can sign without asking.
pub fn check_gpg_signing(key_id: &str) -> (command: Command)
    ensures
        command@ == signing_check(key_id@),
{
    let mut args = no_words();
    push_text(&mut args, "--batch");
    push_text(&mut args, "--dry-run");
    push_text(&mut args, "--local-user");
    push_text(&mut args, key_id);
    push_text(&mut args, "--armor");
    push_text(&mut args, "--sign");
    push_text(&mut args, "--output");
    push_text(&mut args, "/dev/null");
    push_text(&mut args, "/dev/null");
    let command = Command {
        program: text("gpg"),
        args,
        dir: None,
        env: no_env(),
        output: Output::Captured,
    };
    assert(command@ =~~= signing_check(key_id@));
    command
}

} // verus!
