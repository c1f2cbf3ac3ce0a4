//! Settings: the `[package.metadata.gh-pages]` table of the project file,
//! its recognized keys, and the precedence of command line over table over
//! defaults.
use vstd::prelude::*;

use crate::cmd::opt_view;
use crate::error::FatalError;

verus! {

#[verifier::external_type_specification]
#[verifier::external_body]
#[verifier::reject_recursive_types(K)]
#[verifier::reject_recursive_types(V)]
pub struct ExTomlMap<K, V>(toml::map::Map<K, V>);

#[verifier::external_type_specification]
#[verifier::external_body]
pub struct ExTomlValue(toml::Value);

#[verifier::external_type_specification]
#[verifier::external_body]
pub struct ExTomlError(toml::de::Error);

pub const SIGN_COMMIT: &'static str = "sign-commit";

pub const PUSH_REMOTE: &'static str = "push-remote";

pub const DOC_BRANCH: &'static str = "doc-branch";

pub const DOC_COMMIT_MESSAGE: &'static str = "doc-commit-message";

pub const DEFAULT_PUSH_REMOTE: &'static str = "origin";

pub const DEFAULT_DOC_BRANCH: &'static str = "gh-pages";

pub const DEFAULT_DOC_COMMIT_MESSAGE: &'static str = "(cargo-gh-pages) Generate docs.";

/// A value of the settings table, as far as settings read it.
#[derive(Debug)]
pub enum ConfigValue {
    Bool(bool),
    Str(String),
    Table(toml::Table),
    /// A number, date or array: never a setting's value.
    Other,
}

/// The settings table: its entries, each key once.
#[derive(Debug)]
pub struct ConfigDoc {
    pub entries: Vec<(String, ConfigValue)>,
}

pub open spec fn keys_distinct(e: Seq<(String, ConfigValue)>) -> bool {
    forall|i: int, j: int| 0 <= i < j < e.len() ==> #[trigger] e[i].0@ != #[trigger] e[j].0@
}

pub open spec fn has_key(e: Seq<(String, ConfigValue)>, key: Seq<char>) -> bool {
    exists|i: int| 0 <= i < e.len() && #[trigger] e[i].0@ == key
}

/// The value stored under `key`, if any.
pub open spec fn value_of(e: Seq<(String, ConfigValue)>, key: Seq<char>) -> Option<ConfigValue> {
    if has_key(e, key) {
        Some(e[choose|i: int| 0 <= i < e.len() && #[trigger] e[i].0@ == key].1)
    } else {
        None
    }
}

/// The boolean under `key`; absent or not a boolean reads as none.
pub open spec fn doc_bool(e: Seq<(String, ConfigValue)>, key: Seq<char>) -> Option<bool> {
    match value_of(e, key) {
        Some(ConfigValue::Bool(b)) => Some(b),
        _ => None,
    }
}

/// The string under `key`; absent or not a string reads as none.
pub open spec fn doc_str(e: Seq<(String, ConfigValue)>, key: Seq<char>) -> Option<Seq<char>> {
    match value_of(e, key) {
        Some(ConfigValue::Str(s)) => Some(s@),
        _ => None,
    }
}

pub open spec fn recognized(key: Seq<char>) -> bool {
    key == SIGN_COMMIT@ || key == PUSH_REMOTE@ || key == DOC_BRANCH@ || key == DOC_COMMIT_MESSAGE@
}

/// The first value that is present: command line, then table, then default.
pub open spec fn resolved(cli: Option<Seq<char>>, doc: Option<Seq<char>>, default: Seq<char>) -> Seq<char> {
    match cli {
        Some(c) => c,
        None => match doc {
            Some(d) => d,
            None => default,
        },
    }
}

/// A flag given on the command line forces signing; else the table decides.
pub open spec fn resolved_flag(cli: bool, doc: Option<bool>) -> bool {
    cli || match doc {
        Some(b) => b,
        None => false,
    }
}

impl ConfigDoc {
    pub open spec fn wf(&self) -> bool {
        keys_distinct(self.entries@)
    }

    /// The table with no entries.
    pub fn empty() -> (r: ConfigDoc)
        ensures
            r.wf(),
            r.entries@.len() == 0,
    {
        ConfigDoc { entries: Vec::new() }
    }
}

pub uninterp spec fn toml_accepts(text: Seq<char>) -> bool;

/// The table that a text reads as, where it is a TOML document.
pub uninterp spec fn parsed_table(text: Seq<char>) -> toml::Table;

/// Relies on `toml::from_str` (through `FromStr` of `toml::Table`): it
/// succeeds exactly on the texts that it accepts as a TOML document, and
/// the table depends on the text alone.
#[verifier::external_body]
fn parse_table(text: &str) -> (r: Result<toml::Table, toml::de::Error>)
    ensures
        r is Ok <==> toml_accepts(text@),
        r matches Ok(t) ==> t == parsed_table(text@),
{
    text.parse::<toml::Table>()
}

/// The entries of a table, in the order its owning iterator yields them.
pub uninterp spec fn entries_of(t: toml::Table) -> Seq<(String, ConfigValue)>;

/// Relies on the owning iterator of `toml::map::Map`, which yields each
/// entry of the map once, so that no key repeats; each value is converted
/// by its kind.
#[verifier::external_body]
fn table_entries(t: toml::Table) -> (r: Vec<(String, ConfigValue)>)
    ensures
        r@ == entries_of(t),
        keys_distinct(r@),
{
    t.into_iter().map(|(k, v)| (k, match v {
        toml::Value::Boolean(b) => ConfigValue::Bool(b),
        toml::Value::String(s) => ConfigValue::Str(s),
        toml::Value::Table(t) => ConfigValue::Table(t),
        toml::Value::Integer(_) | toml::Value::Float(_) => ConfigValue::Other,
        toml::Value::Datetime(_) | toml::Value::Array(_) => ConfigValue::Other,
    })).collect()
}

/// The position of `key` among the entries, if it is there.
pub fn find_key(entries: &Vec<(String, ConfigValue)>, key: &str) -> (r: Option<usize>)
    ensures
        match r {
            Some(i) => i < entries@.len() && entries@[i as int].0@ == key@,
            None => !has_key(entries@, key@),
        },
{
    let k = key.to_owned();
    let mut i: usize = 0;
    while i < entries.len()
        invariant
            i <= entries@.len(),
            k@ == key@,
            forall|j: int| 0 <= j < i ==> #[trigger] entries@[j].0@ != key@,
        decreases entries.len() - i,
    {
        if entries[i].0 == k {
            return Some(i);
        }
        i = i + 1;
    }
    None
}

proof fn lemma_value_at(e: Seq<(String, ConfigValue)>, key: Seq<char>, i: int)
    requires
        keys_distinct(e),
        0 <= i < e.len(),
        e[i].0@ == key,
    ensures
        value_of(e, key) == Some(e[i].1),
{
    assert(has_key(e, key));
    let j = choose|j: int| 0 <= j < e.len() && #[trigger] e[j].0@ == key;
    if j < i {
        assert(e[j].0@ != e[i].0@);
    } else if i < j {
        assert(e[i].0@ != e[j].0@);
    }
}

/// The boolean stored under `key`.
pub fn get_bool(doc: &ConfigDoc, key: &str) -> (r: Option<bool>)
    requires
        doc.wf(),
    ensures
        r == doc_bool(doc.entries@, key@),
{
    match find_key(&doc.entries, key) {
        Some(i) => {
            proof {
                lemma_value_at(doc.entries@, key@, i as int);
            }
            match &doc.entries[i].1 {
                ConfigValue::Bool(b) => Some(*b),
                _ => None,
            }
        },
        None => None,
    }
}

/// The string stored under `key`.
pub fn get_str<'a>(doc: &'a ConfigDoc, key: &str) -> (r: Option<&'a str>)
    requires
        doc.wf(),
    ensures
        match r {
            Some(s) => doc_str(doc.entries@, key@) == Some(s@),
            None => doc_str(doc.entries@, key@) is None,
        },
{
    match find_key(&doc.entries, key) {
        Some(i) => {
            proof {
                lemma_value_at(doc.entries@, key@, i as int);
            }
            match &doc.entries[i].1 {
                ConfigValue::Str(s) => Some(s.as_str()),
                _ => None,
            }
        },
        None => None,
    }
}

/// The entries of the table stored under `key`; none where the key is
/// absent or holds something else.
pub open spec fn sub_entries(e: Seq<(String, ConfigValue)>, key: Seq<char>) -> Option<
    Seq<(String, ConfigValue)>,
> {
    match value_of(e, key) {
        Some(ConfigValue::Table(t)) => Some(entries_of(t)),
        _ => None,
    }
}

/// The entries of `[package.metadata.gh-pages]` in a document with entries
/// `root`; none where any table on the way is missing.
pub open spec fn settings_entries(root: Seq<(String, ConfigValue)>) -> Seq<(String, ConfigValue)> {
    match sub_entries(root, "package"@) {
        Some(p) => match sub_entries(p, "metadata"@) {
            Some(m) => match sub_entries(m, "gh-pages"@) {
                Some(g) => g,
                None => Seq::empty(),
            },
            None => Seq::empty(),
        },
        None => Seq::empty(),
    }
}

/// Takes out the table stored under `key`; anything else there reads as
/// absent.
fn take_table(entries: Vec<(String, ConfigValue)>, key: &str) -> (r: Option<toml::Table>)
    requires
        keys_distinct(entries@),
    ensures
        match r {
            Some(t) => sub_entries(entries@, key@) == Some(entries_of(t)),
            None => sub_entries(entries@, key@) is None,
        },
{
    let ghost old_entries = entries@;
    let mut entries = entries;
    match find_key(&entries, key) {
        Some(i) => {
            proof {
                lemma_value_at(old_entries, key@, i as int);
            }
            match entries.remove(i).1 {
                ConfigValue::Table(t) => Some(t),
                _ => None,
            }
        },
        None => None,
    }
}

/// The settings table of a document with entries `root`.
pub fn settings_table(root: Vec<(String, ConfigValue)>) -> (r: ConfigDoc)
    requires
        keys_distinct(root@),
    ensures
        r.wf(),
        r.entries@ == settings_entries(root@),
{
    let package = match take_table(root, "package") {
        Some(t) => t,
        None => {
            return ConfigDoc::empty();
        },
    };
    let metadata = match take_table(table_entries(package), "metadata") {
        Some(t) => t,
        None => {
            return ConfigDoc::empty();
        },
    };
    match take_table(table_entries(metadata), "gh-pages") {
        Some(t) => ConfigDoc { entries: table_entries(t) },
        None => ConfigDoc::empty(),
    }
}

/// Reads the settings table out of the text of the project file. A missing
/// table, or one of its parents missing or not a table, gives the empty
/// table; text that is not TOML is an error.
pub fn parse_config(text: &str) -> (r: Result<ConfigDoc, FatalError>)
    ensures
        r is Ok <==> toml_accepts(text@),
        r matches Ok(d) ==> d.wf() && d.entries@ == settings_entries(entries_of(parsed_table(text@))),
        r matches Err(e) ==> e == FatalError::InvalidCargoFileFormat,
{
    match parse_table(text) {
        Ok(root) => Ok(settings_table(table_entries(root))),
        Err(_) => Err(FatalError::InvalidCargoFileFormat),
    }
}

/// Whether `key` is one of the four settings.
pub fn is_recognized(key: &String) -> (r: bool)
    ensures
        r == recognized(key@),
{
    *key == SIGN_COMMIT.to_owned() || *key == PUSH_REMOTE.to_owned() || *key
        == DOC_BRANCH.to_owned() || *key == DOC_COMMIT_MESSAGE.to_owned()
}

/// Checks that every key of the table is a setting; the first that is not
/// is the error.
pub fn validate(doc: &ConfigDoc) -> (r: Result<(), FatalError>)
    ensures
        r is Ok <==> forall|i: int| 0 <= i < doc.entries@.len() ==> recognized(#[trigger] doc.entries@[i].0@),
        r matches Err(e) ==> exists|i: int|
            0 <= i < doc.entries@.len() && !recognized(#[trigger] doc.entries@[i].0@)
                && e == FatalError::UnknownCargoFileKey(doc.entries@[i].0) && forall|j: int|
                0 <= j < i ==> recognized(#[trigger] doc.entries@[j].0@),
{
    let mut i: usize = 0;
    while i < doc.entries.len()
        invariant
            i <= doc.entries@.len(),
            forall|j: int| 0 <= j < i ==> recognized(#[trigger] doc.entries@[j].0@),
        decreases doc.entries.len() - i,
    {
        if !is_recognized(&doc.entries[i].0) {
            return Err(FatalError::UnknownCargoFileKey(doc.entries[i].0.clone()));
        }
        i = i + 1;
    }
    Ok(())
}

/// What the command line says; `None` and `false` where a flag is absent.
#[derive(Debug, Clone, PartialEq, Eq)]
pub struct CliArgs {
    pub dry_run: bool,
    pub sign: bool,
    pub doc_commit_message: Option<String>,
    pub push_remote: Option<String>,
    pub doc_branch: Option<String>,
}

/// The settings in force for one run.
#[derive(Debug, Clone, PartialEq, Eq)]
pub struct Settings {
    pub sign_commit: bool,
    pub push_remote: String,
    pub doc_branch: String,
    pub doc_commit_message: String,
    pub dry_run: bool,
}

/// `s` holds, for each setting, the first present of command line, table
/// entry and default.
pub open spec fn settings_resolved(s: Settings, args: CliArgs, e: Seq<(String, ConfigValue)>) -> bool {
    &&& s.dry_run == args.dry_run
    &&& s.sign_commit == resolved_flag(args.sign, doc_bool(e, SIGN_COMMIT@))
    &&& s.push_remote@ == resolved(opt_view(args.push_remote), doc_str(e, PUSH_REMOTE@), DEFAULT_PUSH_REMOTE@)
    &&& s.doc_branch@ == resolved(opt_view(args.doc_branch), doc_str(e, DOC_BRANCH@), DEFAULT_DOC_BRANCH@)
    &&& s.doc_commit_message@ == resolved(
        opt_view(args.doc_commit_message),
        doc_str(e, DOC_COMMIT_MESSAGE@),
        DEFAULT_DOC_COMMIT_MESSAGE@,
    )
}

/// One string setting: the command-line value, else the table's, else
/// `default`.
pub fn resolve_str(cli: &Option<String>, doc: &ConfigDoc, key: &str, default: &str) -> (r: String)
    requires
        doc.wf(),
    ensures
        r@ == resolved(opt_view(*cli), doc_str(doc.entries@, key@), default@),
{
    match cli {
        Some(c) => c.clone(),
        None => match get_str(doc, key) {
            Some(d) => d.to_owned(),
            None => default.to_owned(),
        },
    }
}

/// The settings for a run from the command line and the settings table.
pub fn resolve_settings(args: &CliArgs, doc: &ConfigDoc) -> (r: Settings)
    requires
        doc.wf(),
    ensures
        settings_resolved(r, *args, doc.entries@),
{
    let sign_commit = args.sign || match get_bool(doc, SIGN_COMMIT) {
        Some(b) => b,
        None => false,
    };
    Settings {
        sign_commit,
        push_remote: resolve_str(&args.push_remote, doc, PUSH_REMOTE, DEFAULT_PUSH_REMOTE),
        doc_branch: resolve_str(&args.doc_branch, doc, DOC_BRANCH, DEFAULT_DOC_BRANCH),
        doc_commit_message: resolve_str(
            &args.doc_commit_message,
            doc,
            DOC_COMMIT_MESSAGE,
            DEFAULT_DOC_COMMIT_MESSAGE,
        ),
        dry_run: args.dry_run,
    }
}

/// For every setting, a value given on the command line wins over the
/// table's, and the table's wins over the default, whichever of them are
/// present.
pub proof fn lemma_precedence(s: Settings, args: CliArgs, doc: ConfigDoc)
    requires
        settings_resolved(s, args, doc.entries@),
    ensures
        args.sign ==> s.sign_commit,
        !args.sign ==> s.sign_commit == (doc_bool(doc.entries@, SIGN_COMMIT@) == Some(true)),
        args.push_remote matches Some(c) ==> s.push_remote@ == c@,
        args.push_remote is None ==> s.push_remote@ == match doc_str(doc.entries@, PUSH_REMOTE@) {
            Some(d) => d,
            None => DEFAULT_PUSH_REMOTE@,
        },
        args.doc_branch matches Some(c) ==> s.doc_branch@ == c@,
        args.doc_branch is None ==> s.doc_branch@ == match doc_str(doc.entries@, DOC_BRANCH@) {
            Some(d) => d,
            None => DEFAULT_DOC_BRANCH@,
        },
        args.doc_commit_message matches Some(c) ==> s.doc_commit_message@ == c@,
        args.doc_commit_message is None ==> s.doc_commit_message@ == match doc_str(
            doc.entries@,
            DOC_COMMIT_MESSAGE@,
        ) {
            Some(d) => d,
            None => DEFAULT_DOC_COMMIT_MESSAGE@,
        },
{
}

} // verus!
