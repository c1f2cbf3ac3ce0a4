//! The publish workflow: check the settings table, check that the working
//! tree is clean, build the docs, commit them in a repository of their own
//! and force-push it to the publishing branch. The workflow only decides;
//! an executor performs each request and hands back the reply.
use vstd::prelude::*;
use vstd::utf8::{decode_utf8, valid_utf8};

use crate::cmd::{action_matches, call, strings_view, Action, Invocation};
use crate::config::{
    entries_of, parse_config, parsed_table, settings_entries, recognized, resolve_settings, settings_resolved, toml_accepts, validate, CliArgs,
    ConfigDoc, ConfigValue, Settings,
};
use crate::error::FatalError;
use crate::git::{
    add_all, add_all_tokens, commit_all, commit_tokens, force_push, force_push_tokens, init,
    init_tokens, is_clean, remote_get_url, remote_url_invocation, status, status_invocation,
    url_from_output,
};

verus! {

/// Where the docs are built, and where their repository is assembled.
pub const DOC_PATH: &'static str = "target/doc/";

pub const DIRTY_MESSAGE: &'static str = "Uncommitted changes detected, please commit before release";

pub const BUILD_MESSAGE: &'static str = "Building and exporting docs.";

pub const UNKNOWN_KEY_PREFIX: &'static str = "Unknown config key \"";

pub const UNKNOWN_KEY_SUFFIX: &'static str = "\" found for [package.metadata.gh-pages]";

pub const REFSPEC_PREFIX: &'static str = "master:";

/// How a run ends.
#[derive(Debug, Clone, PartialEq, Eq)]
pub enum Outcome {
    Success,
    UnknownConfigKey,
    DirtyTree,
    Fatal(FatalError),
}

impl Outcome {
    /// The process exit code for the outcome.
    pub fn exit_code(&self) -> (r: i32)
        ensures
            r == match self {
                Outcome::Success => 0i32,
                Outcome::UnknownConfigKey => 109i32,
                Outcome::DirtyTree => 101i32,
                Outcome::Fatal(_) => 128i32,
            },
    {
        match self {
            Outcome::Success => 0,
            Outcome::UnknownConfigKey => 109,
            Outcome::DirtyTree => 101,
            Outcome::Fatal(_) => 128,
        }
    }
}

/// What the workflow waits for next.
#[derive(Debug, Clone, Copy, PartialEq, Eq)]
pub enum Stage {
    Status,
    Build,
    Init,
    Add,
    Commit,
    Remote,
    Push,
    Finished,
}

/// What the executor is asked to do.
#[derive(Debug, Clone, PartialEq, Eq)]
pub enum Request {
    /// Perform the action and reply with its success; a printed action
    /// succeeds.
    Run(Action),
    /// Run the invocation for real, even in a dry run, and reply with its
    /// standard output.
    Capture(Invocation),
    /// Stop with this outcome.
    Finish(Outcome),
}

/// Lines to print, then a request.
#[derive(Debug, Clone, PartialEq, Eq)]
pub struct Step {
    pub messages: Vec<String>,
    pub request: Request,
}

/// What came back from a `Run` or a `Capture`: whether the command exited
/// with success, and what it wrote to standard output.
#[derive(Debug, Clone, PartialEq, Eq)]
pub struct Reply {
    pub success: bool,
    pub output: Vec<u8>,
}

/// The state of one run.
#[derive(Debug, Clone, PartialEq, Eq)]
pub struct Publisher {
    pub settings: Settings,
    pub stage: Stage,
}

pub open spec fn build_tokens() -> Seq<Seq<char>> {
    seq!["cargo"@, "doc"@]
}

pub open spec fn refspec_of(branch: Seq<char>) -> Seq<char> {
    REFSPEC_PREFIX@ + branch
}

pub open spec fn unknown_key_message(key: Seq<char>) -> Seq<char> {
    UNKNOWN_KEY_PREFIX@ + key + UNKNOWN_KEY_SUFFIX@
}

pub uninterp spec fn trimmed(s: Seq<char>) -> Seq<char>;

/// Relies on `str::trim`: the text without leading and trailing white space,
/// a contiguous part of it.
#[verifier::external_body]
fn trim(s: &str) -> (r: &str)
    ensures
        r@ == trimmed(s@),
        r@.len() <= s@.len() && exists|i: int| 0 <= i <= s@.len() - r@.len() && r@ == #[trigger] s@.subrange(
            i,
            i + r@.len(),
        ),
{
    s.trim()
}

/// Builds the documentation.
pub fn build_docs(dry_run: bool) -> (r: Action)
    ensures
        action_matches(r, build_tokens(), None, dry_run),
{
    let command = vec!["cargo", "doc"];
    assert(crate::cmd::tokens_view(command@) =~= build_tokens());
    call(command, dry_run)
}

/// `master:<branch>`: the local branch of the docs' repository onto
/// `branch`.
pub fn refspec(branch: &str) -> (r: String)
    ensures
        r@ == refspec_of(branch@),
{
    String::from_str(REFSPEC_PREFIX).concat(branch)
}

/// The push of the docs' repository to `url`, with the settings' branch.
pub fn push_action(settings: &Settings, url: &str) -> (r: Action)
    ensures
        action_matches(
            r,
            force_push_tokens(url@, refspec_of(settings.doc_branch@)),
            Some(DOC_PATH@),
            settings.dry_run,
        ),
{
    let spec = refspec(settings.doc_branch.as_str());
    force_push(DOC_PATH, url, spec.as_str(), settings.dry_run)
}

/// The first step for `args` and the settings table `e`: an unknown key
/// ends the run before any command; otherwise the tree's status is asked.
pub open spec fn started(args: CliArgs, e: Seq<(String, ConfigValue)>, p: Publisher, s: Step) -> bool {
    &&& settings_resolved(p.settings, args, e)
    &&& if forall|i: int| 0 <= i < e.len() ==> recognized(#[trigger] e[i].0@) {
        &&& p.stage == Stage::Status
        &&& s.messages@.len() == 0
        &&& s.request matches Request::Capture(inv) && status_invocation(inv)
    } else {
        &&& p.stage == Stage::Finished
        &&& s.request == Request::Finish(Outcome::UnknownConfigKey)
        &&& exists|i: int|
            0 <= i < e.len() && !recognized(#[trigger] e[i].0@) && (forall|j: int|
                0 <= j < i ==> recognized(#[trigger] e[j].0@)) && strings_view(s.messages@)
                == seq![unknown_key_message(e[i].0@)]
    }
}

/// The workflow moves to `next` and asks for `tokens` to be run in `dir`.
pub open spec fn runs(
    new: Publisher,
    s: Step,
    next: Stage,
    tokens: Seq<Seq<char>>,
    dir: Option<Seq<char>>,
    dry_run: bool,
) -> bool {
    &&& new.stage == next
    &&& s.messages@.len() == 0
    &&& s.request matches Request::Run(a) && action_matches(a, tokens, dir, dry_run)
}

/// The workflow ends with `outcome`, printing nothing more.
pub open spec fn finishes(new: Publisher, s: Step, outcome: Outcome) -> bool {
    &&& new.stage == Stage::Finished
    &&& s.messages@.len() == 0
    &&& s.request == Request::Finish(outcome)
}

/// The stages that wait for the reply to a build or git command that
/// changes something.
pub open spec fn awaits_command(stage: Stage) -> bool {
    stage == Stage::Build || stage == Stage::Init || stage == Stage::Add || stage == Stage::Commit
        || stage == Stage::Push
}

/// The name of the command whose reply `stage` waits for.
pub open spec fn command_of(stage: Stage) -> Seq<char> {
    match stage {
        Stage::Build => "cargo doc"@,
        Stage::Init => "git init"@,
        Stage::Add => "git add"@,
        Stage::Commit => "git commit"@,
        _ => "git push"@,
    }
}

/// The workflow ends because the command awaited at `stage` failed.
pub open spec fn fails(new: Publisher, s: Step, stage: Stage) -> bool {
    &&& new.stage == Stage::Finished
    &&& s.messages@.len() == 0
    &&& s.request matches Request::Finish(Outcome::Fatal(FatalError::CommandFailed(c)))
    &&& c@ == command_of(stage)
}

/// One move of the workflow from `old`, given the reply to its last
/// request: every error, and every build or git command that exits with a
/// failure status, ends the run; each stage asks for the next command.
pub open spec fn stepped(old: Publisher, reply: Result<Reply, FatalError>, new: Publisher, s: Step) -> bool {
    let st = old.settings;
    let dry = st.dry_run;
    &&& new.settings == old.settings
    &&& match reply {
        Err(e) => finishes(new, s, Outcome::Fatal(e)),
        Ok(rep) => if awaits_command(old.stage) && !rep.success {
            fails(new, s, old.stage)
        } else { match old.stage {
            Stage::Status => if rep.output@.len() == 0 {
                &&& new.stage == Stage::Build
                &&& strings_view(s.messages@) == seq![BUILD_MESSAGE@]
                &&& s.request matches Request::Run(a) && action_matches(a, build_tokens(), None, dry)
            } else if dry {
                &&& new.stage == Stage::Build
                &&& strings_view(s.messages@) == seq![DIRTY_MESSAGE@, BUILD_MESSAGE@]
                &&& s.request matches Request::Run(a) && action_matches(a, build_tokens(), None, dry)
            } else {
                &&& new.stage == Stage::Finished
                &&& strings_view(s.messages@) == seq![DIRTY_MESSAGE@]
                &&& s.request == Request::Finish(Outcome::DirtyTree)
            },
            Stage::Build => runs(new, s, Stage::Init, init_tokens(), Some(DOC_PATH@), dry),
            Stage::Init => runs(new, s, Stage::Add, add_all_tokens(), Some(DOC_PATH@), dry),
            Stage::Add => runs(
                new,
                s,
                Stage::Commit,
                commit_tokens(st.doc_commit_message@, st.sign_commit),
                Some(DOC_PATH@),
                dry,
            ),
            Stage::Commit => {
                &&& new.stage == Stage::Remote
                &&& s.messages@.len() == 0
                &&& s.request matches Request::Capture(inv) && remote_url_invocation(inv, st.push_remote@)
            },
            Stage::Remote => if valid_utf8(rep.output@) {
                runs(
                    new,
                    s,
                    Stage::Push,
                    force_push_tokens(trimmed(decode_utf8(rep.output@)), refspec_of(st.doc_branch@)),
                    Some(DOC_PATH@),
                    dry,
                )
            } else {
                finishes(new, s, Outcome::Fatal(FatalError::FromUtf8Error))
            },
            Stage::Push => finishes(new, s, Outcome::Success),
            Stage::Finished => false,
        } },
    }
}

fn command_name(stage: Stage) -> (r: String)
    ensures
        r@ == command_of(stage),
{
    match stage {
        Stage::Build => String::from_str("cargo doc"),
        Stage::Init => String::from_str("git init"),
        Stage::Add => String::from_str("git add"),
        Stage::Commit => String::from_str("git commit"),
        _ => String::from_str("git push"),
    }
}

fn run_step(a: Action) -> (r: Step)
    ensures
        r.messages@.len() == 0,
        r.request == Request::Run(a),
{
    Step { messages: Vec::new(), request: Request::Run(a) }
}

fn finish_step(outcome: Outcome) -> (r: Step)
    ensures
        r.messages@.len() == 0,
        r.request == Request::Finish(outcome),
{
    Step { messages: Vec::new(), request: Request::Finish(outcome) }
}

/// The message that names an unknown key.
pub fn unknown_key_text(key: &str) -> (r: String)
    ensures
        r@ == unknown_key_message(key@),
{
    String::from_str(UNKNOWN_KEY_PREFIX).concat(key).concat(UNKNOWN_KEY_SUFFIX)
}

impl Publisher {
    /// Starts a run on the settings table `doc`.
    pub fn start_with(args: &CliArgs, doc: &ConfigDoc) -> (r: (Publisher, Step))
        requires
            doc.wf(),
        ensures
            started(*args, doc.entries@, r.0, r.1),
    {
        let settings = resolve_settings(args, doc);
        match validate(doc) {
            Ok(()) => {
                let step = Step { messages: Vec::new(), request: Request::Capture(status()) };
                (Publisher { settings, stage: Stage::Status }, step)
            },
            Err(e) => {
                let ghost i = choose|i: int|
                    0 <= i < doc.entries@.len() && !recognized(#[trigger] doc.entries@[i].0@)
                        && e == FatalError::UnknownCargoFileKey(doc.entries@[i].0) && forall|j: int|
                        0 <= j < i ==> recognized(#[trigger] doc.entries@[j].0@);
                let key = match e {
                    FatalError::UnknownCargoFileKey(k) => k,
                    _ => String::new(),
                };
                let mut messages: Vec<String> = Vec::new();
                messages.push(unknown_key_text(key.as_str()));
                assert(strings_view(messages@) =~= seq![unknown_key_message(doc.entries@[i].0@)]);
                let step = Step { messages, request: Request::Finish(Outcome::UnknownConfigKey) };
                (Publisher { settings, stage: Stage::Finished }, step)
            },
        }
    }

    /// Starts a run on the text of the project file.
    pub fn start(args: &CliArgs, config_text: &str) -> (r: (Publisher, Step))
        ensures
            !toml_accepts(config_text@) ==> r.0.stage == Stage::Finished && r.1.request
                == Request::Finish(Outcome::Fatal(FatalError::InvalidCargoFileFormat)),
            toml_accepts(config_text@) ==> started(
                *args,
                settings_entries(entries_of(parsed_table(config_text@))),
                r.0,
                r.1,
            ),
    {
        match parse_config(config_text) {
            Ok(doc) => {
                Publisher::start_with(args, &doc)
            },
            Err(e) => {
                let empty = ConfigDoc::empty();
                let settings = resolve_settings(args, &empty);
                (Publisher { settings, stage: Stage::Finished }, finish_step(Outcome::Fatal(e)))
            },
        }
    }

    /// Moves the run on, given the reply to the last request.
    pub fn step(&mut self, reply: Result<Reply, FatalError>) -> (r: Step)
        requires
            old(self).stage != Stage::Finished,
        ensures
            stepped(*old(self), reply, *final(self), r),
    {
        let rep = match reply {
            Ok(rep) => rep,
            Err(e) => {
                self.stage = Stage::Finished;
                return finish_step(Outcome::Fatal(e));
            },
        };
        let dry_run = self.settings.dry_run;
        let waits_for_command = match self.stage {
            Stage::Build | Stage::Init | Stage::Add | Stage::Commit | Stage::Push => true,
            _ => false,
        };
        if waits_for_command && !rep.success {
            let failed = command_name(self.stage);
            self.stage = Stage::Finished;
            return finish_step(Outcome::Fatal(FatalError::CommandFailed(failed)));
        }
        match self.stage {
            Stage::Status => {
                let mut messages: Vec<String> = Vec::new();
                if !is_clean(&rep.output) {
                    messages.push(String::from_str(DIRTY_MESSAGE));
                    if !dry_run {
                        self.stage = Stage::Finished;
                        assert(strings_view(messages@) =~= seq![DIRTY_MESSAGE@]);
                        return Step { messages, request: Request::Finish(Outcome::DirtyTree) };
                    }
                }
                let ghost before = messages@;
                messages.push(String::from_str(BUILD_MESSAGE));
                assert(strings_view(messages@) =~= strings_view(before).push(BUILD_MESSAGE@));
                assert(rep.output@.len() == 0 ==> strings_view(messages@) =~= seq![BUILD_MESSAGE@]);
                assert(rep.output@.len() != 0 ==> strings_view(messages@) =~= seq![
                    DIRTY_MESSAGE@,
                    BUILD_MESSAGE@,
                ]);
                self.stage = Stage::Build;
                Step { messages, request: Request::Run(build_docs(dry_run)) }
            },
            Stage::Build => {
                self.stage = Stage::Init;
                run_step(init(DOC_PATH, dry_run))
            },
            Stage::Init => {
                self.stage = Stage::Add;
                run_step(add_all(DOC_PATH, dry_run))
            },
            Stage::Add => {
                self.stage = Stage::Commit;
                run_step(
                    commit_all(
                        DOC_PATH,
                        self.settings.doc_commit_message.as_str(),
                        self.settings.sign_commit,
                        dry_run,
                    ),
                )
            },
            Stage::Commit => {
                self.stage = Stage::Remote;
                let query = remote_get_url(self.settings.push_remote.as_str());
                Step { messages: Vec::new(), request: Request::Capture(query) }
            },
            Stage::Remote => match url_from_output(rep.output) {
                Ok(text) => {
                    self.stage = Stage::Push;
                    run_step(push_action(&self.settings, trim(text.as_str())))
                },
                Err(e) => {
                    self.stage = Stage::Finished;
                    finish_step(Outcome::Fatal(e))
                },
            },
            Stage::Push => {
                self.stage = Stage::Finished;
                finish_step(Outcome::Success)
            },
            Stage::Finished => {
                finish_step(Outcome::Success)
            },
        }
    }
}

/// A table with a key outside the recognized four ends the run before any
/// command is asked for.
pub proof fn lemma_unknown_key_stops(args: CliArgs, doc: ConfigDoc, p: Publisher, s: Step)
    requires
        started(args, doc.entries@, p, s),
        exists|i: int| 0 <= i < doc.entries@.len() && !recognized(#[trigger] doc.entries@[i].0@),
    ensures
        p.stage == Stage::Finished,
        s.request == Request::Finish(Outcome::UnknownConfigKey),
{
}

/// A dirty tree ends a real run before the docs are built; a dry run goes
/// on to the build.
pub proof fn lemma_dirty_tree(old: Publisher, rep: Reply, new: Publisher, s: Step)
    requires
        old.stage == Stage::Status,
        rep.output@.len() > 0,
        stepped(old, Ok(rep), new, s),
    ensures
        !old.settings.dry_run ==> new.stage == Stage::Finished && s.request == Request::Finish(
            Outcome::DirtyTree,
        ),
        old.settings.dry_run ==> new.stage == Stage::Build && (s.request matches Request::Run(a)
            && a is Print),
{
}

/// In a dry run every command is only printed, and a successful reply (a
/// printed action succeeds) never ends the run before the push.
pub proof fn lemma_dry_run_prints(old: Publisher, reply: Result<Reply, FatalError>, new: Publisher, s: Step)
    requires
        old.settings.dry_run,
        stepped(old, reply, new, s),
    ensures
        (s.request matches Request::Run(a)) ==> (s.request matches Request::Run(a) && a is Print),
        (reply matches Ok(rep) && rep.success) && (old.stage == Stage::Status || old.stage == Stage::Build || old.stage
            == Stage::Init || old.stage == Stage::Add || old.stage == Stage::Commit) ==> new.stage
            != Stage::Finished,
{
}

/// A build or git command that exits with a failure status ends the run
/// as a fatal error that names it; nothing more is run.
pub proof fn lemma_failed_command_stops(old: Publisher, rep: Reply, new: Publisher, s: Step)
    requires
        awaits_command(old.stage),
        !rep.success,
        stepped(old, Ok(rep), new, s),
    ensures
        new.stage == Stage::Finished,
        s.request matches Request::Finish(Outcome::Fatal(FatalError::CommandFailed(c))),
{
}

} // verus!
