use cargo_gh_pages::cmd::{Action, Invocation};
use cargo_gh_pages::config::CliArgs;
use cargo_gh_pages::error::FatalError;
use cargo_gh_pages::publish::{refspec, unknown_key_text, Outcome, Publisher, Reply, Request, Stage, Step};

fn strings(v: &[&str]) -> Vec<String> {
    v.iter().map(|s| s.to_string()).collect()
}

fn no_flags() -> CliArgs {
    CliArgs { dry_run: false, sign: false, doc_commit_message: None, push_remote: None, doc_branch: None }
}

fn ok(output: &[u8]) -> Result<Reply, FatalError> {
    Ok(Reply { success: true, output: output.to_vec() })
}

fn spawned(step: &Step) -> Invocation {
    match &step.request {
        Request::Run(Action::Spawn(inv)) => inv.clone(),
        other => panic!("expected a spawn, got {:?}", other),
    }
}

fn captured(step: &Step) -> Invocation {
    match &step.request {
        Request::Capture(inv) => inv.clone(),
        other => panic!("expected a capture, got {:?}", other),
    }
}

#[test]
fn exit_codes() {
    assert_eq!(Outcome::Success.exit_code(), 0);
    assert_eq!(Outcome::UnknownConfigKey.exit_code(), 109);
    assert_eq!(Outcome::DirtyTree.exit_code(), 101);
    assert_eq!(Outcome::Fatal(FatalError::FromUtf8Error).exit_code(), 128);
}

#[test]
fn unknown_key_stops_before_any_command() {
    let (p, s) = Publisher::start(&no_flags(), "[package.metadata.gh-pages]\nbranch = \"x\"\n");
    assert_eq!(p.stage, Stage::Finished);
    assert_eq!(s.request, Request::Finish(Outcome::UnknownConfigKey));
    assert_eq!(
        s.messages,
        strings(&["Unknown config key \"branch\" found for [package.metadata.gh-pages]"])
    );
}

#[test]
fn unreadable_file_is_fatal() {
    let (p, s) = Publisher::start(&no_flags(), "[[[");
    assert_eq!(p.stage, Stage::Finished);
    assert_eq!(s.request, Request::Finish(Outcome::Fatal(FatalError::InvalidCargoFileFormat)));
}

#[test]
fn dirty_tree_stops_real_run() {
    let (mut p, s) = Publisher::start(&no_flags(), "");
    assert_eq!(captured(&s).args, strings(&["status", "--porcelain"]));
    let s = p.step(ok(b" M a.rs\n"));
    assert_eq!(s.request, Request::Finish(Outcome::DirtyTree));
    assert_eq!(s.messages, strings(&["Uncommitted changes detected, please commit before release"]));
    assert_eq!(p.stage, Stage::Finished);
}

#[test]
fn dirty_tree_dry_run_only_prints() {
    let mut args = no_flags();
    args.dry_run = true;
    let (mut p, _) = Publisher::start(&args, "");
    let s = p.step(ok(b"?? x\n"));
    assert_eq!(
        s.messages,
        strings(&["Uncommitted changes detected, please commit before release", "Building and exporting docs."])
    );
    assert_eq!(s.request, Request::Run(Action::Print(strings(&["cargo doc"]))));
    let s = p.step(ok(b""));
    assert_eq!(s.request, Request::Run(Action::Print(strings(&["cd target/doc/", "git init", "cd -"]))));
    let s = p.step(ok(b""));
    assert_eq!(s.request, Request::Run(Action::Print(strings(&["cd target/doc/", "git add .", "cd -"]))));
    let s = p.step(ok(b""));
    assert_eq!(
        s.request,
        Request::Run(Action::Print(strings(&[
            "cd target/doc/",
            "git commit -am (cargo-gh-pages) Generate docs.",
            "cd -"
        ])))
    );
    let s = p.step(ok(b""));
    assert_eq!(captured(&s).args, strings(&["remote", "get-url", "origin"]));
    let s = p.step(ok(b"https://h/r.git\n"));
    assert_eq!(
        s.request,
        Request::Run(Action::Print(strings(&[
            "cd target/doc/",
            "git push -f https://h/r.git master:gh-pages",
            "cd -"
        ])))
    );
    let s = p.step(ok(b""));
    assert_eq!(s.request, Request::Finish(Outcome::Success));
}

#[test]
fn clean_run_with_defaults() {
    let (mut p, s) = Publisher::start(&no_flags(), "[package]\nname = \"x\"\n");
    assert_eq!(p.stage, Stage::Status);
    assert!(s.messages.is_empty());
    let s = p.step(ok(b""));
    assert_eq!(s.messages, strings(&["Building and exporting docs."]));
    let build = spawned(&s);
    assert_eq!(build.program, "cargo");
    assert_eq!(build.args, strings(&["doc"]));
    assert_eq!(spawned(&p.step(ok(b""))).args, strings(&["init"]));
    assert_eq!(spawned(&p.step(ok(b""))).args, strings(&["add", "."]));
    let commit = spawned(&p.step(ok(b"")));
    assert_eq!(commit.args, strings(&["commit", "-am", "(cargo-gh-pages) Generate docs."]));
    assert_eq!(commit.dir, Some("target/doc/".to_string()));
    let query = captured(&p.step(ok(b"")));
    assert_eq!(query.args, strings(&["remote", "get-url", "origin"]));
    let push = spawned(&p.step(ok(b"  git@github.com:u/r.git \n")));
    assert_eq!(push.args, strings(&["push", "-f", "git@github.com:u/r.git", "master:gh-pages"]));
    assert_eq!(push.dir, Some("target/doc/".to_string()));
    let s = p.step(ok(b""));
    assert_eq!(s.request, Request::Finish(Outcome::Success));
    assert_eq!(Outcome::Success.exit_code(), 0);
}

#[test]
fn remote_from_table_and_branch_from_flag() {
    let mut args = no_flags();
    args.doc_branch = Some("release-docs".to_string());
    let (mut p, _) = Publisher::start(&args, "[package.metadata.gh-pages]\npush-remote = \"upstream\"\n");
    assert_eq!(p.settings.push_remote, "upstream");
    assert_eq!(p.settings.doc_branch, "release-docs");
    for _ in 0..4 {
        p.step(ok(b""));
    }
    let query = captured(&p.step(ok(b"")));
    assert_eq!(query.args, strings(&["remote", "get-url", "upstream"]));
    let push = spawned(&p.step(ok(b"u\n")));
    assert_eq!(push.args, strings(&["push", "-f", "u", "master:release-docs"]));
}

#[test]
fn signed_commit() {
    let mut args = no_flags();
    args.sign = true;
    args.doc_commit_message = Some("msg".to_string());
    let (mut p, _) = Publisher::start(&args, "");
    for _ in 0..3 {
        p.step(ok(b""));
    }
    assert_eq!(spawned(&p.step(ok(b""))).args, strings(&["commit", "-S", "-am", "msg"]));
}

#[test]
fn failure_is_fatal() {
    let (mut p, _) = Publisher::start(&no_flags(), "");
    p.step(ok(b""));
    let s = p.step(Err(FatalError::IOError("no such file".to_string())));
    assert_eq!(s.request, Request::Finish(Outcome::Fatal(FatalError::IOError("no such file".to_string()))));
    assert_eq!(p.stage, Stage::Finished);
}

#[test]
fn undecodable_remote_is_fatal() {
    let (mut p, _) = Publisher::start(&no_flags(), "");
    for _ in 0..5 {
        p.step(ok(b""));
    }
    assert_eq!(p.stage, Stage::Remote);
    let s = p.step(ok(&[0xc3, 0x28]));
    assert_eq!(s.request, Request::Finish(Outcome::Fatal(FatalError::FromUtf8Error)));
}

#[test]
fn texts() {
    assert_eq!(refspec("b"), "master:b");
    assert_eq!(unknown_key_text("k"), "Unknown config key \"k\" found for [package.metadata.gh-pages]");
    assert_eq!(FatalError::InvalidCargoFileFormat.message(), "Invalid cargo file format");
}

fn failed() -> Result<Reply, FatalError> {
    Ok(Reply { success: false, output: Vec::new() })
}

#[test]
fn failed_build_is_fatal() {
    let (mut p, _) = Publisher::start(&no_flags(), "");
    p.step(ok(b""));
    let s = p.step(failed());
    let outcome = Outcome::Fatal(FatalError::CommandFailed("cargo doc".to_string()));
    assert_eq!(s.request, Request::Finish(outcome.clone()));
    assert_eq!(outcome.exit_code(), 128);
    assert_eq!(p.stage, Stage::Finished);
}

#[test]
fn failed_git_steps_are_fatal() {
    let names = ["git init", "git add", "git commit"];
    for (n, name) in names.iter().enumerate() {
        let (mut p, _) = Publisher::start(&no_flags(), "");
        for _ in 0..(n + 2) {
            p.step(ok(b""));
        }
        let s = p.step(failed());
        assert_eq!(s.request, Request::Finish(Outcome::Fatal(FatalError::CommandFailed(name.to_string()))));
    }
}

#[test]
fn failed_push_is_fatal() {
    let (mut p, _) = Publisher::start(&no_flags(), "");
    for _ in 0..5 {
        p.step(ok(b""));
    }
    p.step(ok(b"u\n"));
    assert_eq!(p.stage, Stage::Push);
    let s = p.step(failed());
    assert_eq!(s.request, Request::Finish(Outcome::Fatal(FatalError::CommandFailed("git push".to_string()))));
}

#[test]
fn failure_messages() {
    assert_eq!(FatalError::CommandFailed("git push".to_string()).message(), "Command failed: git push");
    assert_eq!(FatalError::IOError("x".to_string()).message(), "x");
}
