//! The configuration of a run: which repositories to watch, who signs, and
//! where the work directories are.

use crate::text::chars_of;
use std::path::Path;
use std::time::Duration;
use vstd::prelude::*;

verus! {

/// `dirs::state_dir`: the directory of the user for what programs keep
/// between their runs, where the system has one. It depends on the system
/// and on the environment, so nothing is said of it.
#[verifier::external_body]
fn state_dir() -> (dir: Option<String>) {
    dirs::state_dir().map(|path| path.to_string_lossy().into_owned())
}

/// `dirs::config_dir`: the directory of the user for the configuration of
/// programs, where the system has one. It depends on the system and on the
/// environment, so nothing is said of it.
#[verifier::external_body]
fn config_dir() -> (dir: Option<String>) {
    dirs::config_dir().map(|path| path.to_string_lossy().into_owned())
}

/// The path `rel`, taken from the path `base`, as `std::path::Path::join`
/// puts the two together. It is a function of the two paths alone; what it
/// is in full depends on the system that the program is built for, and is
/// not said here.
pub uninterp spec fn joined(base: Seq<char>, rel: Seq<char>) -> Seq<char>;

/// `std::path::Path::join`: the result is what `joined` names.
#[verifier::external_body]
fn join_path(base: &str, rel: &str) -> (path: String)
    ensures
        path@ == joined(base@, rel@),
{
    Path::new(base).join(rel).to_string_lossy().into_owned()
}

/// The name of the environment variable that may hold a token for the hosting
/// service.
pub const GH_TOKEN_NAME: &'static str = "GH_API_TOKEN";

/// The work directories of a run.
pub struct WorkDirs {
    /// Where everything is built.
    pub guix_build_dir: String,
    /// The checkout of the attestations repository.
    pub guix_sigs_dir: String,
    /// The checkout of the detached signatures.
    pub bitcoin_detached_sigs_dir: String,
    /// Where the macOS SDKs are kept.
    pub macos_sdks_dir: String,
    /// The checkout of the source repository.
    pub bitcoin_dir: String,
}

/// The configuration of a run.
pub struct Config {
    pub source_repo_owner: String,
    pub source_repo_name: String,
    pub guix_sigs_repo_owner: String,
    pub guix_sigs_repo_name: String,
    pub detached_repo_owner: String,
    pub detached_repo_name: String,
    /// The whole seconds of the interval between two polls of a repository.
    pub poll_interval_secs: u64,
    /// The nanoseconds of that interval beyond its whole seconds.
    pub poll_interval_nanos: u32,
    pub signer_name: String,
    pub gpg_key_id: String,
    pub guix_sigs_fork_url: String,
    pub multi_package: bool,
    pub guix_build_dir: String,
    pub guix_sigs_dir: String,
    pub bitcoin_detached_sigs_dir: String,
    pub macos_sdks_dir: String,
    pub bitcoin_dir: String,
    pub github_username: Option<String>,
}

/// How the path `path` is written for a person to read, as the `Debug` form
/// of `std::path::Path` gives it.
pub uninterp spec fn path_shown(path: Seq<char>) -> Seq<char>;

/// How an interval of `secs` seconds and `nanos` nanoseconds is written for a
/// person to read, as the `Debug` form of `std::time::Duration` gives it.
pub uninterp spec fn interval_shown(secs: u64, nanos: u32) -> Seq<char>;

/// The `Debug` form of `std::path::Path`: the result is what `path_shown`
/// names.
#[verifier::external_body]
pub(crate) fn show_path(path: &str) -> (shown: String)
    ensures
        shown@ == path_shown(path@),
{
    format!("{:?}", Path::new(path))
}

/// The `Debug` form of `std::time::Duration`: the result is what
/// `interval_shown` names.
#[verifier::external_body]
fn show_interval(secs: u64, nanos: u32) -> (shown: String)
    ensures
        shown@ == interval_shown(secs, nanos),
{
    format!("{:?}", Duration::from_secs(secs).saturating_add(Duration::from_nanos(u64::from(nanos))))
}

/// How wide the column of the labels is.
pub const LABEL_WIDTH: usize = 32;

/// `n` spaces.
pub open spec fn spaces(n: nat) -> Seq<char> {
    Seq::new(n, |i: int| ' ')
}

/// One line of a description: the label, filled up with spaces to the width
/// of its column, then a space, the value and a line feed.
pub open spec fn described(label: Seq<char>, value: Seq<char>) -> Seq<char> {
    label + spaces(
        if label.len() < 32 {
            (32 - label.len()) as nat
        } else {
            0
        },
    ) + seq![' '] + value + seq!['\n']
}

/// How a configuration is written for a person to read: a heading, and a
/// line for each setting. `token_set` says whether the environment holds a
/// token for the hosting service.
pub open spec fn description(config: Config, token_set: bool) -> Seq<char> {
    "BGT Builder Configuration:\n"@ + described(
        "Source Repo:"@,
        config.source_repo_owner@ + "/"@ + config.source_repo_name@,
    ) + described(
        "Guix sigs repo:"@,
        config.guix_sigs_repo_owner@ + "/"@ + config.guix_sigs_repo_name@,
    ) + described(
        "Detached sigs repo:"@,
        config.detached_repo_owner@ + "/"@ + config.detached_repo_name@,
    ) + described(
        "Poll Interval:"@,
        interval_shown(config.poll_interval_secs, config.poll_interval_nanos),
    ) + described("Signer Name:"@, config.signer_name@) + described(
        "GPG Key Short ID:"@,
        config.gpg_key_id@,
    ) + described("Guix Sigs Fork URL:"@, config.guix_sigs_fork_url@) + described(
        "Multi-package:"@,
        if config.multi_package {
            "true"@
        } else {
            "false"@
        },
    ) + described("Guix Build Directory:"@, path_shown(config.guix_build_dir@)) + described(
        "Guix Sigs Directory:"@,
        path_shown(config.guix_sigs_dir@),
    ) + described(
        "Bitcoin Detached Sigs Directory:"@,
        path_shown(config.bitcoin_detached_sigs_dir@),
    ) + described("macOS SDKs Directory:"@, path_shown(config.macos_sdks_dir@)) + described(
        "Bitcoin Directory:"@,
        path_shown(config.bitcoin_dir@),
    ) + described(
        "GitHub Username:"@,
        match config.github_username {
            Some(name) => name@,
            None => "None"@,
        },
    ) + described(
        "GitHub Token:"@,
        if token_set {
            "[set in environment]"@
        } else {
            "Not set"@
        },
    )
}

/// Adds one line of a description to `text`.
fn describe_line(text: &mut String, label: &str, value: &str)
    ensures
        final(text)@ == old(text)@ + described(label@, value@),
{
    let width = chars_of(label).len();
    text.append(label);
    let mut n: usize = width;
    let ghost start = text@;
    assert(start + spaces(0) =~= start);
    while n < LABEL_WIDTH
        invariant
            width <= n,
            n <= 32 || n == width,
            text@ == start + spaces((n - width) as nat),
        decreases 32 - n,
    {
        text.append(" ");
        proof {
            reveal_strlit(" ");
            assert(" "@ =~= seq![' ']);
            assert(spaces((n - width) as nat) + seq![' '] =~= spaces((n + 1 - width) as nat));
        }
        n += 1;
    }
    proof {
        reveal_strlit(" ");
        reveal_strlit("\n");
        assert(" "@ =~= seq![' ']);
        assert("\n"@ =~= seq!['\n']);
        if width >= 32 {
            assert(n == width);
        }
    }
    text.append(" ");
    text.append(value);
    text.append("\n");
}

/// The text of an optional directory.
pub open spec fn dir_text(dir: Option<String>) -> Option<Seq<char>> {
    match dir {
        Some(dir) => Some(dir@),
        None => None,
    }
}

/// The directory to use where the system names none: the one that the
/// program runs in.
pub open spec fn or_here_text(dir: Option<Seq<char>>) -> Seq<char> {
    match dir {
        Some(dir) => dir,
        None => "."@,
    }
}

/// The default build directory, where `state` is the state directory of the
/// user as far as the system names one: `guix-builds` in it.
pub open spec fn build_dir_in(state: Option<Seq<char>>) -> Seq<char> {
    joined(or_here_text(state), "guix-builds"@)
}

/// The directory of the files of this program, where `config` is the
/// configuration directory of the user as far as the system names one: `bgt`
/// in it.
pub open spec fn config_home_in(config: Option<Seq<char>>) -> Seq<char> {
    joined(or_here_text(config), "bgt"@)
}

/// The directory to use where the system names none: the one that the
/// program runs in.
pub fn or_here(dir: Option<String>) -> (r: String)
    ensures
        match dir {
            Some(dir) => r == dir,
            None => r@ == "."@,
        },
        r@ == or_here_text(dir_text(dir)),
{
    match dir {
        Some(dir) => dir,
        None => ".".to_owned(),
    }
}

/// The default build directory, where `state` is the state directory of the
/// user as far as the system names one.
pub fn build_dir_from(state: Option<String>) -> (dir: String)
    ensures
        dir@ == build_dir_in(dir_text(state)),
{
    join_path(or_here(state).as_str(), "guix-builds")
}

/// The directory of the files of this program, where `config` is the
/// configuration directory of the user as far as the system names one.
pub fn config_home_from(config: Option<String>) -> (dir: String)
    ensures
        dir@ == config_home_in(dir_text(config)),
{
    join_path(or_here(config).as_str(), "bgt")
}

/// The path of the file `name` among the files of this program, where
/// `config` is the configuration directory of the user as far as the system
/// names one.
pub fn config_file_from(config: Option<String>, name: &str) -> (path: String)
    ensures
        path@ == joined(config_home_in(dir_text(config)), name@),
{
    join_path(config_home_from(config).as_str(), name)
}

/// The build directory that is used where none is configured: `guix-builds`
/// in the state directory of the user, or in the directory that the program
/// runs in where the system names no state directory. Which directory the
/// system names is not said.
pub fn default_build_dir() -> (dir: String)
    ensures
        exists|state: Option<Seq<char>>| dir@ == #[trigger] build_dir_in(state),
{
    let state = state_dir();
    let ghost found = dir_text(state);
    let dir = build_dir_from(state);
    assert(dir@ == build_dir_in(found));
    dir
}

/// The directory in which this program keeps its own files: `bgt` in the
/// configuration directory of the user, or in the directory that the program
/// runs in where the system names no configuration directory. Which
/// directory the system names is not said.
pub fn config_home() -> (dir: String)
    ensures
        exists|config: Option<Seq<char>>| dir@ == #[trigger] config_home_in(config),
{
    let config = config_dir();
    let ghost found = dir_text(config);
    let dir = config_home_from(config);
    assert(dir@ == config_home_in(found));
    dir
}

/// The path of the file `name` among the files of this program: `name`,
/// taken from the directory that `config_home` gives.
pub fn config_file(name: &str) -> (path: String)
    ensures
        exists|config: Option<Seq<char>>|
            path@ == joined(#[trigger] config_home_in(config), name@),
{
    let config = config_dir();
    let ghost found = dir_text(config);
    let path = config_file_from(config, name);
    assert(path@ == joined(config_home_in(found), name@));
    path
}

impl WorkDirs {
    /// The work directories that belong to the build directory
    /// `guix_build_dir`: the checkouts and the SDKs lie in it.
    pub fn under(guix_build_dir: String) -> (dirs: WorkDirs)
        ensures
            dirs.guix_build_dir == guix_build_dir,
            dirs.guix_sigs_dir@ == joined(guix_build_dir@, "guix.sigs"@),
            dirs.bitcoin_detached_sigs_dir@ == joined(guix_build_dir@, "bitcoin-detached-sigs"@),
            dirs.macos_sdks_dir@ == joined(guix_build_dir@, "macos-sdks"@),
            dirs.bitcoin_dir@ == joined(guix_build_dir@, "bitcoin"@),
    {
        let guix_sigs_dir = join_path(guix_build_dir.as_str(), "guix.sigs");
        let bitcoin_detached_sigs_dir = join_path(guix_build_dir.as_str(), "bitcoin-detached-sigs");
        let macos_sdks_dir = join_path(guix_build_dir.as_str(), "macos-sdks");
        let bitcoin_dir = join_path(guix_build_dir.as_str(), "bitcoin");
        WorkDirs {
            guix_build_dir,
            guix_sigs_dir,
            bitcoin_detached_sigs_dir,
            macos_sdks_dir,
            bitcoin_dir,
        }
    }
}

impl Default for Config {
    /// The configuration that holds before setup, with the work directories
    /// of the default build directory.
    fn default() -> (config: Config)
        ensures
            config.source_repo_owner@ == "bitcoin"@,
            config.source_repo_name@ == "bitcoin"@,
            config.guix_sigs_repo_owner@ == "bitcoin-core"@,
            config.guix_sigs_repo_name@ == "guix.sigs"@,
            config.detached_repo_owner@ == "bitcoin-core"@,
            config.detached_repo_name@ == "bitcoin-detached-sigs"@,
            config.poll_interval_secs == 300,
            config.poll_interval_nanos == 0,
            config.signer_name@.len() == 0,
            config.gpg_key_id@.len() == 0,
            config.guix_sigs_fork_url@.len() == 0,
            !config.multi_package,
            config.github_username is None,
            exists|state: Option<Seq<char>>|
                config.guix_build_dir@ == #[trigger] build_dir_in(state),
            config.guix_sigs_dir@ == joined(config.guix_build_dir@, "guix.sigs"@),
            config.bitcoin_detached_sigs_dir@ == joined(
                config.guix_build_dir@,
                "bitcoin-detached-sigs"@,
            ),
            config.macos_sdks_dir@ == joined(config.guix_build_dir@, "macos-sdks"@),
            config.bitcoin_dir@ == joined(config.guix_build_dir@, "bitcoin"@),
    {
        Config::with_dirs(WorkDirs::under(default_build_dir()))
    }
}

impl Config {
    /// The configuration that holds before setup, with the work directories
    /// `dirs`: upstream's repositories, a poll every five minutes, and no
    /// signer yet.
    pub fn with_dirs(dirs: WorkDirs) -> (config: Config)
        ensures
            config.source_repo_owner@ == "bitcoin"@,
            config.source_repo_name@ == "bitcoin"@,
            config.guix_sigs_repo_owner@ == "bitcoin-core"@,
            config.guix_sigs_repo_name@ == "guix.sigs"@,
            config.detached_repo_owner@ == "bitcoin-core"@,
            config.detached_repo_name@ == "bitcoin-detached-sigs"@,
            config.poll_interval_secs == 300,
            config.poll_interval_nanos == 0,
            config.signer_name@.len() == 0,
            config.gpg_key_id@.len() == 0,
            config.guix_sigs_fork_url@.len() == 0,
            !config.multi_package,
            config.guix_build_dir == dirs.guix_build_dir,
            config.guix_sigs_dir == dirs.guix_sigs_dir,
            config.bitcoin_detached_sigs_dir == dirs.bitcoin_detached_sigs_dir,
            config.macos_sdks_dir == dirs.macos_sdks_dir,
            config.bitcoin_dir == dirs.bitcoin_dir,
            config.github_username is None,
    {
        Config {
            source_repo_owner: "bitcoin".to_owned(),
            source_repo_name: "bitcoin".to_owned(),
            guix_sigs_repo_owner: "bitcoin-core".to_owned(),
            guix_sigs_repo_name: "guix.sigs".to_owned(),
            detached_repo_owner: "bitcoin-core".to_owned(),
            detached_repo_name: "bitcoin-detached-sigs".to_owned(),
            poll_interval_secs: 300,
            poll_interval_nanos: 0,
            signer_name: String::new(),
            gpg_key_id: String::new(),
            guix_sigs_fork_url: String::new(),
            multi_package: false,
            guix_build_dir: dirs.guix_build_dir,
            guix_sigs_dir: dirs.guix_sigs_dir,
            bitcoin_detached_sigs_dir: dirs.bitcoin_detached_sigs_dir,
            macos_sdks_dir: dirs.macos_sdks_dir,
            bitcoin_dir: dirs.bitcoin_dir,
            github_username: None,
        }
    }

    /// This configuration, written for a person to read. `token_set` says
    /// whether the environment holds a token for the hosting service.
    pub fn describe(&self, token_set: bool) -> (text: String)
        ensures
            text@ == description(*self, token_set),
    {
        let mut text = "BGT Builder Configuration:\n".to_owned();
        let mut repo = self.source_repo_owner.clone();
        repo.append("/");
        repo.append(self.source_repo_name.as_str());
        describe_line(&mut text, "Source Repo:", repo.as_str());
        let mut repo = self.guix_sigs_repo_owner.clone();
        repo.append("/");
        repo.append(self.guix_sigs_repo_name.as_str());
        describe_line(&mut text, "Guix sigs repo:", repo.as_str());
        let mut repo = self.detached_repo_owner.clone();
        repo.append("/");
        repo.append(self.detached_repo_name.as_str());
        describe_line(&mut text, "Detached sigs repo:", repo.as_str());
        describe_line(
            &mut text,
            "Poll Interval:",
            show_interval(self.poll_interval_secs, self.poll_interval_nanos).as_str(),
        );
        describe_line(&mut text, "Signer Name:", self.signer_name.as_str());
        describe_line(&mut text, "GPG Key Short ID:", self.gpg_key_id.as_str());
        describe_line(&mut text, "Guix Sigs Fork URL:", self.guix_sigs_fork_url.as_str());
        describe_line(
            &mut text,
            "Multi-package:",
            if self.multi_package {
                "true"
            } else {
                "false"
            },
        );
        describe_line(
            &mut text,
            "Guix Build Directory:",
            show_path(self.guix_build_dir.as_str()).as_str(),
        );
        describe_line(
            &mut text,
            "Guix Sigs Directory:",
            show_path(self.guix_sigs_dir.as_str()).as_str(),
        );
        describe_line(
            &mut text,
            "Bitcoin Detached Sigs Directory:",
            show_path(self.bitcoin_detached_sigs_dir.as_str()).as_str(),
        );
        describe_line(
            &mut text,
            "macOS SDKs Directory:",
            show_path(self.macos_sdks_dir.as_str()).as_str(),
        );
        describe_line(&mut text, "Bitcoin Directory:", show_path(self.bitcoin_dir.as_str()).as_str());
        describe_line(
            &mut text,
            "GitHub Username:",
            match &self.github_username {
                Some(name) => name.as_str(),
                None => "None",
            },
        );
        describe_line(
            &mut text,
            "GitHub Token:",
            if token_set {
                "[set in environment]"
            } else {
                "Not set"
            },
        );
        text
    }
}

} // verus!
