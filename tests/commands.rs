use cargo_gh_pages::cmd::{call, call_on_path, do_call, Action, Invocation};
use cargo_gh_pages::error::FatalError;
use cargo_gh_pages::git::{
    add_all, commit_all, force_push, init, is_clean, remote_get_url, status, url_from_output,
};

fn strings(v: &[&str]) -> Vec<String> {
    v.iter().map(|s| s.to_string()).collect()
}

fn spawn(program: &str, args: &[&str], dir: Option<&str>) -> Action {
    Action::Spawn(Invocation {
        program: program.to_string(),
        args: strings(args),
        dir: dir.map(|d| d.to_string()),
    })
}

#[test]
fn dry_run_in_directory_prints_three_lines() {
    let a = call_on_path(vec!["git", "add", "."], "target/doc/", true);
    assert_eq!(a, Action::Print(strings(&["cd target/doc/", "git add .", "cd -"])));
}

#[test]
fn dry_run_without_directory_prints_one_line() {
    let a = call(vec!["cargo", "doc"], true);
    assert_eq!(a, Action::Print(strings(&["cargo doc"])));
}

#[test]
fn empty_tokens_left_out_of_spawn() {
    let a = call(vec!["git", "commit", "", "-am", "msg", ""], false);
    assert_eq!(a, spawn("git", &["commit", "-am", "msg"], None));
}

#[test]
fn empty_tokens_left_out_of_printed_line() {
    let a = do_call(vec!["git", "", "commit", "", "-am", "msg"], None, true);
    assert_eq!(a, Action::Print(strings(&["git commit -am msg"])));
}

#[test]
fn real_run_keeps_directory() {
    let a = call_on_path(vec!["git", "init"], "target/doc/", false);
    assert_eq!(a, spawn("git", &["init"], Some("target/doc/")));
}

#[test]
fn git_init_and_add() {
    assert_eq!(init("d", false), spawn("git", &["init"], Some("d")));
    assert_eq!(add_all("d", false), spawn("git", &["add", "."], Some("d")));
    assert_eq!(init("d", true), Action::Print(strings(&["cd d", "git init", "cd -"])));
}

#[test]
fn commit_signed_and_unsigned() {
    assert_eq!(
        commit_all("d", "docs", true, false),
        spawn("git", &["commit", "-S", "-am", "docs"], Some("d"))
    );
    assert_eq!(
        commit_all("d", "docs", false, false),
        spawn("git", &["commit", "-am", "docs"], Some("d"))
    );
    assert_eq!(
        commit_all("d", "docs", false, true),
        Action::Print(strings(&["cd d", "git commit -am docs", "cd -"]))
    );
}

#[test]
fn force_push_shape() {
    assert_eq!(
        force_push("d", "git@host:r.git", "master:gh-pages", false),
        spawn("git", &["push", "-f", "git@host:r.git", "master:gh-pages"], Some("d"))
    );
}

#[test]
fn queries() {
    let r = remote_get_url("origin");
    assert_eq!(r.program, "git");
    assert_eq!(r.args, strings(&["remote", "get-url", "origin"]));
    assert_eq!(r.dir, None);
    let s = status();
    assert_eq!(s.args, strings(&["status", "--porcelain"]));
    assert!(is_clean(&Vec::new()));
    assert!(!is_clean(&b" M src/lib.rs\n".to_vec()));
}

#[test]
fn output_decoding() {
    assert_eq!(url_from_output(b"https://x/y.git\n".to_vec()), Ok("https://x/y.git\n".to_string()));
    assert_eq!(url_from_output(vec![0xff, 0xfe]), Err(FatalError::FromUtf8Error));
}
