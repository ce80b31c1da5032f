//! What a stage asks the machine to do, written down as data: directories to
//! make and programs to run. Paths are named by the configured directory that
//! they lie in; whoever carries a plan out puts them together.

use vstd::prelude::*;

verus! {

/// One word of a command line.
#[derive(Debug, Clone, PartialEq, Eq)]
pub enum Word {
    /// A text as it stands.
    Text(String),
    /// The path of a directory.
    Dir(String),
    /// The path `rel`, taken from the directory `dir`.
    Under { dir: String, rel: String },
    /// The last part of the path of a directory.
    NameOf(String),
}

/// A word, with texts in place of strings.
#[verifier::ext_equal]
pub enum WordView {
    Text(Seq<char>),
    Dir(Seq<char>),
    Under { dir: Seq<char>, rel: Seq<char> },
    NameOf(Seq<char>),
}

impl View for Word {
    type V = WordView;

    open spec fn view(&self) -> WordView {
        match self {
            Word::Text(text) => WordView::Text(text@),
            Word::Dir(dir) => WordView::Dir(dir@),
            Word::Under { dir, rel } => WordView::Under { dir: dir@, rel: rel@ },
            Word::NameOf(dir) => WordView::NameOf(dir@),
        }
    }
}

/// What becomes of the output of a program.
#[derive(Debug, Clone, Copy, PartialEq, Eq)]
pub enum Output {
    /// It goes where the output of the caller goes.
    Inherited,
    /// It is passed on line by line while the program runs.
    Streamed,
    /// It is taken in and not shown.
    Captured,
}

/// A variable of the environment of a program.
#[derive(Debug, Clone, PartialEq, Eq)]
pub struct EnvVar {
    pub name: String,
    pub value: Word,
}

/// An environment variable, with texts in place of strings.
#[verifier::ext_equal]
pub struct EnvVarView {
    pub name: Seq<char>,
    pub value: WordView,
}

impl View for EnvVar {
    type V = EnvVarView;

    open spec fn view(&self) -> EnvVarView {
        EnvVarView { name: self.name@, value: self.value@ }
    }
}

/// A program to run. It fails where the program cannot be started or ends
/// with another status than success.
#[derive(Debug, Clone, PartialEq, Eq)]
pub struct Command {
    /// The program.
    pub program: Word,
    /// Its arguments.
    pub args: Vec<Word>,
    /// The directory in which it runs.
    pub dir: Option<Word>,
    /// What is added to its environment.
    pub env: Vec<EnvVar>,
    /// What becomes of its output.
    pub output: Output,
}

/// A command, with texts in place of strings.
#[verifier::ext_equal]
pub struct CommandView {
    pub program: WordView,
    pub args: Seq<WordView>,
    pub dir: Option<WordView>,
    pub env: Seq<EnvVarView>,
    pub output: Output,
}

/// The views of a sequence of words.
pub open spec fn words(v: Seq<Word>) -> Seq<WordView> {
    v.map_values(|w: Word| w@)
}

/// The views of a sequence of environment variables.
pub open spec fn env_vars(v: Seq<EnvVar>) -> Seq<EnvVarView> {
    v.map_values(|e: EnvVar| e@)
}

impl View for Command {
    type V = CommandView;

    open spec fn view(&self) -> CommandView {
        CommandView {
            program: self.program@,
            args: words(self.args@),
            dir: match self.dir {
                Some(dir) => Some(dir@),
                None => None,
            },
            env: env_vars(self.env@),
            output: self.output,
        }
    }
}

/// One thing to do.
#[derive(Debug, Clone, PartialEq, Eq)]
pub enum Step {
    /// Make a directory, with the directories above it that are missing.
    CreateDir(String),
    /// Run a program.
    Run(Command),
    /// See that the macOS SDK that the source tree asks for is there, and
    /// fetch it if it is not.
    EnsureSdk,
}

/// A step, with texts in place of strings.
#[verifier::ext_equal]
pub enum StepView {
    CreateDir(Seq<char>),
    Run(CommandView),
    EnsureSdk,
}

impl View for Step {
    type V = StepView;

    open spec fn view(&self) -> StepView {
        match self {
            Step::CreateDir(dir) => StepView::CreateDir(dir@),
            Step::Run(command) => StepView::Run(command@),
            Step::EnsureSdk => StepView::EnsureSdk,
        }
    }
}

/// A step of a plan, with what to say where it fails. The steps of a plan
/// are taken in order, and the first one that fails ends the plan.
#[derive(Debug, Clone, PartialEq, Eq)]
pub struct Task {
    /// What to do.
    pub step: Step,
    /// What to say where the step fails.
    pub on_failure: String,
}

/// A task, with texts in place of strings.
#[verifier::ext_equal]
pub struct TaskView {
    pub step: StepView,
    pub on_failure: Seq<char>,
}

impl View for Task {
    type V = TaskView;

    open spec fn view(&self) -> TaskView {
        TaskView { step: self.step@, on_failure: self.on_failure@ }
    }
}

/// The views of a sequence of tasks.
pub open spec fn tasks(v: Seq<Task>) -> Seq<TaskView> {
    v.map_values(|t: Task| t@)
}

/// Tasks that are taken together or not at all.
#[derive(Debug, Clone, PartialEq, Eq)]
pub struct Block {
    /// The tasks are left out where this directory exists when the turn of
    /// the block comes.
    pub unless_exists: Option<String>,
    /// What to do, in order.
    pub tasks: Vec<Task>,
}

/// A block, with texts in place of strings.
#[verifier::ext_equal]
pub struct BlockView {
    pub unless_exists: Option<Seq<char>>,
    pub tasks: Seq<TaskView>,
}

impl View for Block {
    type V = BlockView;

    open spec fn view(&self) -> BlockView {
        BlockView {
            unless_exists: match self.unless_exists {
                Some(dir) => Some(dir@),
                None => None,
            },
            tasks: tasks(self.tasks@),
        }
    }
}

/// The views of a sequence of blocks.
pub open spec fn blocks(v: Seq<Block>) -> Seq<BlockView> {
    v.map_values(|b: Block| b@)
}

/// The word for the text `text`.
pub open spec fn text_word(text: Seq<char>) -> WordView {
    WordView::Text(text)
}

/// The words for the texts `texts`.
pub open spec fn text_words(texts: Seq<Seq<char>>) -> Seq<WordView> {
    texts.map_values(|text: Seq<char>| WordView::Text(text))
}

/// `git` with the arguments `args`, run in `dir`.
pub open spec fn git(dir: WordView, args: Seq<WordView>, output: Output) -> CommandView {
    CommandView { program: WordView::Text("git"@), args, dir: Some(dir), env: Seq::empty(), output }
}

/// The task to run `command`.
pub open spec fn run_task(command: CommandView, on_failure: Seq<char>) -> TaskView {
    TaskView { step: StepView::Run(command), on_failure }
}

/// The word for the text `text`.
pub fn text(s: &str) -> (w: Word)
    ensures
        w@ == text_word(s@),
{
    Word::Text(s.to_owned())
}

/// The word for the path `rel` under `dir`.
pub fn under(dir: &String, rel: &str) -> (w: Word)
    ensures
        w@ == (WordView::Under { dir: dir@, rel: rel@ }),
{
    Word::Under { dir: dir.clone(), rel: rel.to_owned() }
}

/// `git` with the arguments `args`, run in `dir`.
pub fn git_command(dir: Word, args: Vec<Word>, output: Output) -> (command: Command)
    ensures
        command@ == git(dir@, words(args@), output),
{
    let env: Vec<EnvVar> = Vec::new();
    assert(env_vars(env@) =~= Seq::<EnvVarView>::empty());
    Command { program: Word::Text("git".to_owned()), args, dir: Some(dir), env, output }
}

/// The task to run `command`.
pub fn run(command: Command, on_failure: &str) -> (task: Task)
    ensures
        task@ == run_task(command@, on_failure@),
{
    Task { step: Step::Run(command), on_failure: on_failure.to_owned() }
}

/// `a` followed by `b`.
pub fn concat(a: &str, b: &str) -> (s: String)
    ensures
        s@ == a@ + b@,
{
    let mut s = a.to_owned();
    s.append(b);
    s
}

/// Adds a word to the end of `v`.
pub fn push_word(v: &mut Vec<Word>, w: Word)
    ensures
        words(final(v)@) == words(old(v)@).push(w@),
{
    v.push(w);
    assert(words(v@) =~= words(old(v)@).push(w@));
}

/// Adds the text `s` as a word to the end of `v`.
pub fn push_text(v: &mut Vec<Word>, s: &str)
    ensures
        words(final(v)@) == words(old(v)@).push(text_word(s@)),
{
    push_word(v, text(s));
}

/// Adds a task to the end of `v`.
pub fn push_task(v: &mut Vec<Task>, t: Task)
    ensures
        tasks(final(v)@) == tasks(old(v)@).push(t@),
{
    v.push(t);
    assert(tasks(v@) =~= tasks(old(v)@).push(t@));
}

/// Adds the tasks of `more` to the end of `v`.
pub fn append_tasks(v: &mut Vec<Task>, more: Vec<Task>)
    ensures
        tasks(final(v)@) == tasks(old(v)@) + tasks(more@),
{
    let mut more = more;
    let ghost added = tasks(more@);
    v.append(&mut more);
    assert(tasks(v@) =~= tasks(old(v)@) + added);
}

/// Adds a block to the end of `v`.
pub fn push_block(v: &mut Vec<Block>, b: Block)
    ensures
        blocks(final(v)@) == blocks(old(v)@).push(b@),
{
    v.push(b);
    assert(blocks(v@) =~= blocks(old(v)@).push(b@));
}

/// Adds an environment variable to the end of `v`.
pub fn push_env(v: &mut Vec<EnvVar>, name: &str, value: Word)
    ensures
        env_vars(final(v)@) == env_vars(old(v)@).push(EnvVarView { name: name@, value: value@ }),
{
    v.push(EnvVar { name: name.to_owned(), value });
    assert(env_vars(v@) =~= env_vars(old(v)@).push(EnvVarView { name: name@, value: value@ }));
}

/// No words.
pub fn no_words() -> (v: Vec<Word>)
    ensures
        words(v@) == Seq::<WordView>::empty(),
{
    let v: Vec<Word> = Vec::new();
    assert(words(v@) =~= Seq::<WordView>::empty());
    v
}

/// No tasks.
pub fn no_tasks() -> (v: Vec<Task>)
    ensures
        tasks(v@) == Seq::<TaskView>::empty(),
{
    let v: Vec<Task> = Vec::new();
    assert(tasks(v@) =~= Seq::<TaskView>::empty());
    v
}

/// No environment variables.
pub fn no_env() -> (v: Vec<EnvVar>)
    ensures
        env_vars(v@) == Seq::<EnvVarView>::empty(),
{
    let v: Vec<EnvVar> = Vec::new();
    assert(env_vars(v@) =~= Seq::<EnvVarView>::empty());
    v
}

} // verus!
