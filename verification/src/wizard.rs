//! The answers that setup asks for: which of them are accepted, and the
//! configuration that they make.

use crate::config::{build_dir_in, default_build_dir, joined, Config, WorkDirs};
use crate::text::{chars_of, has_prefix, occurs_at, trim, trimmed};
use vstd::prelude::*;

verus! {

/// Why an answer is not accepted.
#[derive(Debug, Clone, Copy, PartialEq, Eq)]
pub enum InputError {
    /// The short id of a key does not start with `0x`.
    KeyIdPrefix,
    /// The address of a fork does not start with `https://github.com`.
    UrlPrefix,
    /// The answer is neither yes nor no.
    YesOrNo,
}

/// What setup asks, in the order in which it asks.
#[derive(Debug, Clone, Copy, PartialEq, Eq)]
pub enum Question {
    /// The short id of the signing key.
    GpgKeyId,
    /// The name of the signer.
    SignerName,
    /// The address of the signer's fork of the attestations repository.
    ForkUrl,
    /// The build directory; an empty answer means the default.
    BuildDir,
    /// Whether pull requests are to be opened on the hosting service.
    OpenPrs,
    /// The user name on the hosting service.
    GithubUsername,
}

/// What setup has been told.
#[derive(Debug, Clone, PartialEq, Eq)]
pub struct Answers {
    pub gpg_key_id: String,
    pub signer_name: String,
    pub guix_sigs_fork_url: String,
    /// The build directory as it was answered: empty for the default.
    pub guix_build_dir: String,
    pub github_username: Option<String>,
}

/// The answers, with texts in place of strings.
#[verifier::ext_equal]
pub struct AnswersView {
    pub gpg_key_id: Seq<char>,
    pub signer_name: Seq<char>,
    pub guix_sigs_fork_url: Seq<char>,
    pub guix_build_dir: Seq<char>,
    pub github_username: Option<Seq<char>>,
}

impl View for Answers {
    type V = AnswersView;

    open spec fn view(&self) -> AnswersView {
        AnswersView {
            gpg_key_id: self.gpg_key_id@,
            signer_name: self.signer_name@,
            guix_sigs_fork_url: self.guix_sigs_fork_url@,
            guix_build_dir: self.guix_build_dir@,
            github_username: match self.github_username {
                Some(name) => Some(name@),
                None => None,
            },
        }
    }
}

/// Setup under way: the question that is open, and what was answered so far.
pub struct Wizard {
    asking: Question,
    answers: Answers,
}

impl View for Wizard {
    type V = (Question, AnswersView);

    closed spec fn view(&self) -> (Question, AnswersView) {
        (self.asking, self.answers@)
    }
}

/// What an answer leads to.
pub enum Outcome {
    /// The answer was taken; the next question is open.
    Ask(Wizard),
    /// The answer was refused; the same question is open.
    Retry(Wizard, InputError),
    /// Every question is answered.
    Done(Answers),
}

/// An outcome, with texts in place of strings.
#[verifier::ext_equal]
pub enum OutcomeView {
    Ask(Question, AnswersView),
    Retry(Question, AnswersView, InputError),
    Done(AnswersView),
}

impl View for Outcome {
    type V = OutcomeView;

    open spec fn view(&self) -> OutcomeView {
        match self {
            Outcome::Ask(wizard) => OutcomeView::Ask(wizard@.0, wizard@.1),
            Outcome::Retry(wizard, error) => OutcomeView::Retry(wizard@.0, wizard@.1, *error),
            Outcome::Done(answers) => OutcomeView::Done(answers@),
        }
    }
}

/// Nothing answered yet.
pub open spec fn no_answers() -> AnswersView {
    AnswersView {
        gpg_key_id: Seq::empty(),
        signer_name: Seq::empty(),
        guix_sigs_fork_url: Seq::empty(),
        guix_build_dir: Seq::empty(),
        github_username: None,
    }
}

/// What the answer `input` to the question `asking` leads to, after the
/// answers `so_far`. A key id and a fork address that do not start as they
/// must are asked for again, and so is an answer to the question about pull
/// requests that is neither yes nor no. The user name is asked for only
/// where pull requests are wanted.
pub open spec fn answered(asking: Question, so_far: AnswersView, input: Seq<char>) -> OutcomeView {
    match asking {
        Question::GpgKeyId => if has_prefix(input, key_id_prefix()) {
            OutcomeView::Ask(Question::SignerName, AnswersView { gpg_key_id: input, ..so_far })
        } else {
            OutcomeView::Retry(asking, so_far, InputError::KeyIdPrefix)
        },
        Question::SignerName => OutcomeView::Ask(
            Question::ForkUrl,
            AnswersView { signer_name: input, ..so_far },
        ),
        Question::ForkUrl => if has_prefix(input, url_prefix()) {
            OutcomeView::Ask(
                Question::BuildDir,
                AnswersView { guix_sigs_fork_url: input, ..so_far },
            )
        } else {
            OutcomeView::Retry(asking, so_far, InputError::UrlPrefix)
        },
        Question::BuildDir => OutcomeView::Ask(
            Question::OpenPrs,
            AnswersView { guix_build_dir: input, ..so_far },
        ),
        Question::OpenPrs => match yes_no_of(lowercase(input)) {
            Some(true) => OutcomeView::Ask(Question::GithubUsername, so_far),
            Some(false) => OutcomeView::Done(AnswersView { github_username: None, ..so_far }),
            None => OutcomeView::Retry(asking, so_far, InputError::YesOrNo),
        },
        Question::GithubUsername => OutcomeView::Done(
            AnswersView { github_username: Some(input), ..so_far },
        ),
    }
}

/// `s` in lower case, as `str::to_lowercase` gives it.
pub uninterp spec fn lowercase(s: Seq<char>) -> Seq<char>;

/// `str::to_lowercase`: the result is what `lowercase` names.
#[verifier::external_body]
fn to_lowercase(s: &str) -> (r: String)
    ensures
        r@ == lowercase(s@),
{
    s.to_lowercase()
}

/// What a key id starts with.
pub open spec fn key_id_prefix() -> Seq<char> {
    "0x"@
}

/// What the address of a fork starts with.
pub open spec fn url_prefix() -> Seq<char> {
    "https://github.com"@
}

/// What an answer in lower case says to a question of yes or no.
pub open spec fn yes_no_of(lowered: Seq<char>) -> Option<bool> {
    if lowered == "yes"@ {
        Some(true)
    } else if lowered == "no"@ {
        Some(false)
    } else {
        None
    }
}

/// Whether `s` begins with `prefix`.
pub fn starts_with(s: &str, prefix: &str) -> (r: bool)
    ensures
        r == has_prefix(s@, prefix@),
{
    let chars = chars_of(s);
    let pattern = chars_of(prefix);
    occurs_at(&chars, &pattern, 0)
}

/// Accepts the short id of a key that starts with `0x`.
pub fn check_gpg_key_id(input: &str) -> (r: Result<(), InputError>)
    ensures
        r is Ok <==> has_prefix(input@, key_id_prefix()),
        r is Err ==> r == Err::<(), InputError>(InputError::KeyIdPrefix),
{
    if starts_with(input, "0x") {
        Ok(())
    } else {
        Err(InputError::KeyIdPrefix)
    }
}

/// Accepts the address of a fork that starts with `https://github.com`.
pub fn check_fork_url(input: &str) -> (r: Result<(), InputError>)
    ensures
        r is Ok <==> has_prefix(input@, url_prefix()),
        r is Err ==> r == Err::<(), InputError>(InputError::UrlPrefix),
{
    if starts_with(input, "https://github.com") {
        Ok(())
    } else {
        Err(InputError::UrlPrefix)
    }
}

/// What an answer in lower case says to a question of yes or no.
pub fn yes_no(lowered: &str) -> (r: Option<bool>)
    ensures
        r == yes_no_of(lowered@),
{
    let answer = lowered.to_owned();
    if answer == "yes".to_owned() {
        Some(true)
    } else if answer == "no".to_owned() {
        Some(false)
    } else {
        None
    }
}

/// Accepts `yes` and `no`, in capitals or not, and says which it was.
pub fn check_yes_no(input: &str) -> (r: Result<bool, InputError>)
    ensures
        match r {
            Ok(yes) => yes_no_of(lowercase(input@)) == Some(yes),
            Err(e) => yes_no_of(lowercase(input@)) is None && e == InputError::YesOrNo,
        },
{
    let lowered = to_lowercase(input);
    match yes_no(lowered.as_str()) {
        Some(yes) => Ok(yes),
        None => Err(InputError::YesOrNo),
    }
}

impl InputError {
    /// What to tell the user.
    pub fn message(&self) -> (text: String)
        ensures
            text@ == match self {
                InputError::KeyIdPrefix => "GPG key short id must start with '0x'"@,
                InputError::UrlPrefix => "URL must start with 'https://github.com'"@,
                InputError::YesOrNo => "Please enter 'yes' or 'no'"@,
            },
    {
        match self {
            InputError::KeyIdPrefix => "GPG key short id must start with '0x'".to_owned(),
            InputError::UrlPrefix => "URL must start with 'https://github.com'".to_owned(),
            InputError::YesOrNo => "Please enter 'yes' or 'no'".to_owned(),
        }
    }
}

/// The build directory to use: the one that was answered, or `default` where
/// the answer was empty.
pub fn build_dir_or(answer: String, default: String) -> (dir: String)
    ensures
        dir == if answer@.len() == 0 {
            default
        } else {
            answer
        },
{
    if answer.as_str().is_empty() {
        default
    } else {
        answer
    }
}

/// The configuration that the answers make, where `default_build_dir` is the
/// build directory to use if none was answered: what was answered, and for
/// the rest what holds before setup.
pub fn configure(answers: Answers, default_build_dir: String) -> (config: Config)
    ensures
        config.gpg_key_id == answers.gpg_key_id,
        config.signer_name == answers.signer_name,
        config.guix_sigs_fork_url == answers.guix_sigs_fork_url,
        config.github_username == answers.github_username,
        config.guix_build_dir == if answers.guix_build_dir@.len() == 0 {
            default_build_dir
        } else {
            answers.guix_build_dir
        },
        config.guix_sigs_dir@ == joined(config.guix_build_dir@, "guix.sigs"@),
        config.bitcoin_detached_sigs_dir@ == joined(
            config.guix_build_dir@,
            "bitcoin-detached-sigs"@,
        ),
        config.macos_sdks_dir@ == joined(config.guix_build_dir@, "macos-sdks"@),
        config.bitcoin_dir@ == joined(config.guix_build_dir@, "bitcoin"@),
        config.source_repo_owner@ == "bitcoin"@,
        config.source_repo_name@ == "bitcoin"@,
        config.guix_sigs_repo_owner@ == "bitcoin-core"@,
        config.guix_sigs_repo_name@ == "guix.sigs"@,
        config.detached_repo_owner@ == "bitcoin-core"@,
        config.detached_repo_name@ == "bitcoin-detached-sigs"@,
        config.poll_interval_secs == 300,
        config.poll_interval_nanos == 0,
        !config.multi_package,
{
    let dirs = WorkDirs::under(build_dir_or(answers.guix_build_dir, default_build_dir));
    let mut config = Config::with_dirs(dirs);
    config.gpg_key_id = answers.gpg_key_id;
    config.signer_name = answers.signer_name;
    config.guix_sigs_fork_url = answers.guix_sigs_fork_url;
    config.github_username = answers.github_username;
    config
}

impl Answers {
    /// The configuration that the answers make, with the default build
    /// directory of this machine where none was answered.
    pub fn into_config(self) -> (config: Config)
        ensures
            config.gpg_key_id == self.gpg_key_id,
            config.signer_name == self.signer_name,
            config.guix_sigs_fork_url == self.guix_sigs_fork_url,
            config.github_username == self.github_username,
            self.guix_build_dir@.len() > 0 ==> config.guix_build_dir == self.guix_build_dir,
            self.guix_build_dir@.len() == 0 ==> exists|state: Option<Seq<char>>|
                config.guix_build_dir@ == #[trigger] build_dir_in(state),
            config.guix_sigs_dir@ == joined(config.guix_build_dir@, "guix.sigs"@),
            config.bitcoin_detached_sigs_dir@ == joined(
                config.guix_build_dir@,
                "bitcoin-detached-sigs"@,
            ),
            config.macos_sdks_dir@ == joined(config.guix_build_dir@, "macos-sdks"@),
            config.bitcoin_dir@ == joined(config.guix_build_dir@, "bitcoin"@),
    {
        configure(self, default_build_dir())
    }
}

impl Question {
    /// The words with which the question is put. The question about the
    /// build directory shows the default, which is handed in as it is to be
    /// shown.
    pub fn prompt(&self, default_build_dir: &str) -> (text: String)
        ensures
            text@ == match self {
                Question::GpgKeyId => "Enter your gpg key short id (e.g. 0xA1B2C3D4E5F6G7H8)"@,
                Question::SignerName => "Enter your signer name"@,
                Question::ForkUrl => "Enter the URL of your guix.sigs fork"@,
                Question::BuildDir =>
                    "Enter the path you want to use for the guix_build_dir (press Enter for default of "@
                        + default_build_dir@ + ")"@,
                Question::OpenPrs => "Would you like to automatically open PRs on GitHub? (yes/no)"@,
                Question::GithubUsername => "Enter your GitHub username"@,
            },
    {
        match self {
            Question::GpgKeyId => "Enter your gpg key short id (e.g. 0xA1B2C3D4E5F6G7H8)".to_owned(),
            Question::SignerName => "Enter your signer name".to_owned(),
            Question::ForkUrl => "Enter the URL of your guix.sigs fork".to_owned(),
            Question::BuildDir => {
                let mut text =
                    "Enter the path you want to use for the guix_build_dir (press Enter for default of ".to_owned();
                text.append(default_build_dir);
                text.append(")");
                text
            },
            Question::OpenPrs => "Would you like to automatically open PRs on GitHub? (yes/no)".to_owned(),
            Question::GithubUsername => "Enter your GitHub username".to_owned(),
        }
    }
}

impl Wizard {
    /// Setup at its beginning: the first question is open.
    pub fn new() -> (wizard: Wizard)
        ensures
            wizard@ == (Question::GpgKeyId, no_answers()),
    {
        Wizard {
            asking: Question::GpgKeyId,
            answers: Answers {
                gpg_key_id: String::new(),
                signer_name: String::new(),
                guix_sigs_fork_url: String::new(),
                guix_build_dir: String::new(),
                github_username: None,
            },
        }
    }

    /// The question that is open.
    pub fn question(&self) -> (question: Question)
        ensures
            question == self@.0,
    {
        self.asking
    }

    /// Takes the line that was typed in answer to the open question. The
    /// white space around the answer does not count.
    pub fn answer(self, line: &str) -> (outcome: Outcome)
        ensures
            outcome@ == answered(self@.0, self@.1, trimmed(line@)),
    {
        let input = trim(line);
        let Wizard { asking, answers } = self;
        let Answers { gpg_key_id, signer_name, guix_sigs_fork_url, guix_build_dir, github_username } =
            answers;
        let outcome = match asking {
            Question::GpgKeyId => {
                if starts_with(input.as_str(), "0x") {
                    Outcome::Ask(
                        Wizard {
                            asking: Question::SignerName,
                            answers: Answers {
                                gpg_key_id: input,
                                signer_name,
                                guix_sigs_fork_url,
                                guix_build_dir,
                                github_username,
                            },
                        },
                    )
                } else {
                    Outcome::Retry(
                        Wizard {
                            asking,
                            answers: Answers {
                                gpg_key_id,
                                signer_name,
                                guix_sigs_fork_url,
                                guix_build_dir,
                                github_username,
                            },
                        },
                        InputError::KeyIdPrefix,
                    )
                }
            },
            Question::SignerName => Outcome::Ask(
                Wizard {
                    asking: Question::ForkUrl,
                    answers: Answers {
                        gpg_key_id,
                        signer_name: input,
                        guix_sigs_fork_url,
                        guix_build_dir,
                        github_username,
                    },
                },
            ),
            Question::ForkUrl => {
                if starts_with(input.as_str(), "https://github.com") {
                    Outcome::Ask(
                        Wizard {
                            asking: Question::BuildDir,
                            answers: Answers {
                                gpg_key_id,
                                signer_name,
                                guix_sigs_fork_url: input,
                                guix_build_dir,
                                github_username,
                            },
                        },
                    )
                } else {
                    Outcome::Retry(
                        Wizard {
                            asking,
                            answers: Answers {
                                gpg_key_id,
                                signer_name,
                                guix_sigs_fork_url,
                                guix_build_dir,
                                github_username,
                            },
                        },
                        InputError::UrlPrefix,
                    )
                }
            },
            Question::BuildDir => Outcome::Ask(
                Wizard {
                    asking: Question::OpenPrs,
                    answers: Answers {
                        gpg_key_id,
                        signer_name,
                        guix_sigs_fork_url,
                        guix_build_dir: input,
                        github_username,
                    },
                },
            ),
            Question::OpenPrs => match check_yes_no(input.as_str()) {
                Ok(true) => Outcome::Ask(
                    Wizard {
                        asking: Question::GithubUsername,
                        answers: Answers {
                            gpg_key_id,
                            signer_name,
                            guix_sigs_fork_url,
                            guix_build_dir,
                            github_username,
                        },
                    },
                ),
                Ok(false) => Outcome::Done(
                    Answers {
                        gpg_key_id,
                        signer_name,
                        guix_sigs_fork_url,
                        guix_build_dir,
                        github_username: None,
                    },
                ),
                Err(e) => Outcome::Retry(
                    Wizard {
                        asking,
                        answers: Answers {
                            gpg_key_id,
                            signer_name,
                            guix_sigs_fork_url,
                            guix_build_dir,
                            github_username,
                        },
                    },
                    e,
                ),
            },
            Question::GithubUsername => Outcome::Done(
                Answers {
                    gpg_key_id,
                    signer_name,
                    guix_sigs_fork_url,
                    guix_build_dir,
                    github_username: Some(input),
                },
            ),
        };
        assert(outcome@ =~~= answered(self@.0, self@.1, trimmed(line@)));
        outcome
    }
}

} // verus!
