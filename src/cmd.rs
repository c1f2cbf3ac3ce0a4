//! What running a command amounts to: either the lines that a dry run
//! prints, or the process to spawn. The executor performs the action.
use vstd::prelude::*;

verus! {

/// A process to start: program, arguments and working directory.
#[derive(Debug, Clone, PartialEq, Eq)]
pub struct Invocation {
    pub program: String,
    pub args: Vec<String>,
    pub dir: Option<String>,
}

/// The effect of one command under the chosen mode.
#[derive(Debug, Clone, PartialEq, Eq)]
pub enum Action {
    /// Dry run: print these lines, spawn nothing, count as success.
    Print(Vec<String>),
    /// Real run: spawn, wait, and report whether the exit status was success.
    Spawn(Invocation),
}

/// The tokens of a command as character sequences.
pub open spec fn tokens_view(command: Seq<&str>) -> Seq<Seq<char>> {
    command.map_values(|t: &str| t@)
}

pub open spec fn is_token(t: Seq<char>) -> bool {
    t.len() > 0
}

/// The tokens that survive: every empty one is dropped, order is kept.
pub open spec fn kept(tokens: Seq<Seq<char>>) -> Seq<Seq<char>> {
    tokens.filter(|t: Seq<char>| is_token(t))
}

/// Tokens joined with single spaces.
pub open spec fn joined(tokens: Seq<Seq<char>>) -> Seq<char>
    decreases tokens.len(),
{
    if tokens.len() == 0 {
        Seq::empty()
    } else if tokens.len() == 1 {
        tokens[0]
    } else {
        joined(tokens.drop_last()) + seq![' '] + tokens.last()
    }
}

pub open spec fn strings_view(v: Seq<String>) -> Seq<Seq<char>> {
    v.map_values(|s: String| s@)
}

pub open spec fn opt_view(o: Option<String>) -> Option<Seq<char>> {
    match o {
        Some(s) => Some(s@),
        None => None,
    }
}

/// The line a dry run prints for the command.
pub open spec fn command_line(tokens: Seq<Seq<char>>) -> Seq<char> {
    joined(kept(tokens))
}

/// The lines a dry run prints: enter the directory, the command, come back.
pub open spec fn dry_run_lines(tokens: Seq<Seq<char>>, dir: Option<Seq<char>>) -> Seq<Seq<char>> {
    match dir {
        Some(d) => seq![seq!['c', 'd', ' '] + d, command_line(tokens), seq!['c', 'd', ' ', '-']],
        None => seq![command_line(tokens)],
    }
}

/// The action that running `tokens` in `dir` amounts to.
pub open spec fn action_matches(a: Action, tokens: Seq<Seq<char>>, dir: Option<Seq<char>>, dry_run: bool) -> bool {
    if dry_run {
        a matches Action::Print(lines) && strings_view(lines@) == dry_run_lines(tokens, dir)
    } else {
        a matches Action::Spawn(inv) && inv.program@ == tokens[0] && strings_view(inv.args@)
            == kept(tokens.skip(1)) && opt_view(inv.dir) == dir
    }
}

/// A dropped token is never passed on, and every other token is.
pub proof fn lemma_empty_tokens_dropped(tokens: Seq<Seq<char>>)
    ensures
        forall|i: int| 0 <= i < kept(tokens).len() ==> #[trigger] kept(tokens)[i].len() > 0,
        forall|i: int|
            0 <= i < tokens.len() && tokens[i].len() > 0 ==> kept(tokens).contains(#[trigger] tokens[i]),
        !kept(tokens).contains(Seq::<char>::empty()),
{
    broadcast use vstd::seq_lib::group_filter_ensures;

    assert forall|i: int| 0 <= i < kept(tokens).len() implies #[trigger] kept(tokens)[i].len() > 0 by {
        assert(is_token(kept(tokens)[i]));
    }
    assert forall|i: int| 0 <= i < tokens.len() && tokens[i].len() > 0 implies kept(tokens).contains(
        #[trigger] tokens[i],
    ) by {
        assert(is_token(tokens[i]));
    }
    if kept(tokens).contains(Seq::<char>::empty()) {
        let j = choose|j: int| 0 <= j < kept(tokens).len() && kept(tokens)[j] == Seq::<char>::empty();
        assert(is_token(kept(tokens)[j]));
    }
}

proof fn lemma_kept_step(tokens: Seq<Seq<char>>, i: int)
    requires
        0 <= i < tokens.len(),
    ensures
        kept(tokens.take(i + 1)) == if is_token(tokens[i]) {
            kept(tokens.take(i)).push(tokens[i])
        } else {
            kept(tokens.take(i))
        },
{
    reveal(Seq::filter);
    assert(tokens.take(i + 1).drop_last() =~= tokens.take(i));
    assert(tokens.take(i + 1).last() == tokens[i]);
}

/// Joins the non-empty tokens of `command[from..]` with single spaces.
fn join_kept(command: &Vec<&str>, from: usize) -> (r: (String, Vec<String>))
    requires
        from <= command.len(),
    ensures
        r.0@ == joined(kept(tokens_view(command@.skip(from as int)))),
        strings_view(r.1@) == kept(tokens_view(command@.skip(from as int))),
{
    let ghost tail = tokens_view(command@.skip(from as int));
    let mut line = String::new();
    let mut args: Vec<String> = Vec::new();
    let mut i: usize = from;
    while i < command.len()
        invariant
            from <= i <= command.len(),
            tail == tokens_view(command@.skip(from as int)),
            strings_view(args@) == kept(tail.take(i - from)),
            line@ == joined(kept(tail.take(i - from))),
        decreases command.len() - i,
    {
        let t: &str = command[i];
        proof {
            assert(tail[i - from] == t@);
            lemma_kept_step(tail, i - from);
            assert(i - from + 1 == (i + 1) - from);
        }
        if !t.is_empty() {
            let ghost before = kept(tail.take(i - from));
            if args.len() > 0 {
                line.append(" ");
            }
            line.append(t);
            args.push(t.to_owned());
            proof {
                reveal_strlit(" ");
                let now = before.push(t@);
                assert(now.drop_last() =~= before);
                assert(strings_view(args@) =~= now);
            }
        }
        i = i + 1;
    }
    assert(tail.take(i - from) =~= tail);
    (line, args)
}

/// Runs `command` in `path` if one is given; the first token is the program.
pub fn do_call(command: Vec<&str>, path: Option<&str>, dry_run: bool) -> (r: Action)
    requires
        command.len() > 0,
    ensures
        action_matches(
            r,
            tokens_view(command@),
            match path {
                Some(p) => Some(p@),
                None => None,
            },
            dry_run,
        ),
{
    if dry_run {
        let (line, _) = join_kept(&command, 0);
        assert(command@.skip(0) =~= command@);
        let mut lines: Vec<String> = Vec::new();
        match path {
            Some(p) => {
                let enter = String::from_str("cd ").concat(p);
                lines.push(enter);
                lines.push(line);
                lines.push(String::from_str("cd -"));
                proof {
                    reveal_strlit("cd ");
                    reveal_strlit("cd -");
                    assert("cd "@ =~= seq!['c', 'd', ' ']);
                    assert("cd -"@ =~= seq!['c', 'd', ' ', '-']);
                }
            },
            None => {
                lines.push(line);
            },
        }
        assert(strings_view(lines@) =~= dry_run_lines(
            tokens_view(command@),
            match path {
                Some(p) => Some(p@),
                None => None,
            },
        ));
        Action::Print(lines)
    } else {
        let (_, args) = join_kept(&command, 1);
        assert(tokens_view(command@.skip(1)) =~= tokens_view(command@).skip(1));
        let dir = match path {
            Some(p) => Some(p.to_owned()),
            None => None,
        };
        Action::Spawn(Invocation { program: command[0].to_owned(), args, dir })
    }
}

/// Runs `command` in the current directory.
pub fn call(command: Vec<&str>, dry_run: bool) -> (r: Action)
    requires
        command.len() > 0,
    ensures
        action_matches(r, tokens_view(command@), None, dry_run),
{
    do_call(command, None, dry_run)
}

/// Runs `command` inside the directory `path`.
pub fn call_on_path(command: Vec<&str>, path: &str, dry_run: bool) -> (r: Action)
    requires
        command.len() > 0,
    ensures
        action_matches(r, tokens_view(command@), Some(path@), dry_run),
{
    do_call(command, Some(path), dry_run)
}

} // verus!
