//! The persisted settings of a project: a JSON document with the workspace directory, the
//! project options and the extra arguments.

use crate::app_context::join_path;
use crate::error::{BuildError, BuildErrorView};
use crate::string_map::{inserted, Pair, StringMap};
use serde_json::Value;
use vstd::prelude::*;

verus! {

/// The error of the `serde_json` crate: a text that is no JSON document, or a value that
/// cannot be written as one.
#[verifier::external_type_specification]
#[verifier::external_body]
pub struct ExDocumentError(serde_json::Error);

/// The name of the settings file, in the project directory.
pub const PROJECT_SETTINGS_FILEPATH_NAME: &'static str = "project_settings.json";

/// The member that holds the workspace directory.
pub const WORKSPACE_DIR: &'static str = "workspace_dir";

/// The member that holds the project options.
pub const PROJECT_OPTIONS: &'static str = "project_options";

/// The member that holds the extra arguments.
pub const EXTRA_ARGS: &'static str = "extra_args";

/// The workspace directory of fresh settings, for the user to replace.
pub const PLACEHOLDER_WORKSPACE: &'static str = "path/to/valid/directory";

/// A member of the top-level object of a document, as far as the settings look into it.
#[derive(Clone, Debug, PartialEq, Eq)]
pub enum Member {
    /// A string.
    Text(String),
    /// An object, with its members in their order. A member that is a string has its text,
    /// any other has none.
    Table(Vec<(String, Option<String>)>),
    /// Anything else.
    Other,
}

/// A `Member` with its strings as sequences of characters.
pub enum MemberView {
    Text(Seq<char>),
    Table(Seq<(Seq<char>, Option<Seq<char>>)>),
    Other,
}

impl DeepView for Member {
    type V = MemberView;

    open spec fn deep_view(&self) -> MemberView {
        match self {
            Member::Text(text) => MemberView::Text(text@),
            Member::Table(table) => MemberView::Table(table.deep_view()),
            Member::Other => MemberView::Other,
        }
    }
}

/// The members of the top-level object of the JSON document `text`, in the order in which the
/// parser holds them, or `None` where `text` is no JSON document. A document that is no
/// object has no members.
pub uninterp spec fn document_of(text: Seq<char>) -> Option<Seq<(Seq<char>, MemberView)>>;

/// The text of the JSON document whose top-level object has the members `members`, indented
/// for reading, or `None` where the members cannot be written.
pub uninterp spec fn document_text(members: Seq<(Seq<char>, MemberView)>) -> Option<Seq<char>>;

/// `serde_json::from_str`, for a `serde_json::Value`: reads `text` as a JSON document. The
/// result is the named one: an error where `text` is no document, else the members of its
/// top-level object, each taken apart into a string, an object or anything else.
#[verifier::external_body]
fn read_document(text: &str) -> (r: Result<Vec<(String, Member)>, serde_json::Error>)
    ensures
        match r {
            Ok(members) => document_of(text@) == Some(members.deep_view()),
            Err(_) => document_of(text@) is None,
        },
{
    let members = match serde_json::from_str::<Value>(text)? {
        Value::Object(members) => members,
        _ => return Ok(Vec::new()),
    };
    Ok(members.into_iter().map(|(key, value)| (key, match value {
        Value::String(text) => Member::Text(text),
        Value::Object(table) => Member::Table(table.into_iter().map(|(key, inner)| (key, match inner {
            Value::String(text) => Some(text),
            _ => None,
        })).collect()),
        _ => Member::Other,
    })).collect())
}

/// `serde_json::to_string_pretty`, for a `serde_json::Value`: writes the object with the
/// members `members` as a JSON document. A member without text is written as `null`. The
/// result is the named one.
#[verifier::external_body]
fn write_document(members: &Vec<(String, Member)>) -> (r: Result<String, serde_json::Error>)
    ensures
        match r {
            Ok(text) => document_text(members.deep_view()) == Some(text@),
            Err(_) => document_text(members.deep_view()) is None,
        },
{
    let object: serde_json::Map<String, Value> = members.iter().map(|(key, member)| (key.clone(), match member {
        Member::Text(text) => Value::String(text.clone()),
        Member::Table(table) => Value::Object(table.iter().map(|(key, inner)| (key.clone(), match inner {
            Some(text) => Value::String(text.clone()),
            None => Value::Null,
        })).collect()),
        Member::Other => Value::Null,
    })).collect();
    serde_json::to_string_pretty(&Value::Object(object))
}

/// `Display` of `serde_json::Error`: what the error says. Nothing is stated of the result.
#[verifier::external_body]
fn error_text(error: &serde_json::Error) -> String {
    error.to_string()
}

/// The first member with the name `key`, if there is one.
pub open spec fn member(members: Seq<(Seq<char>, MemberView)>, key: Seq<char>) -> Option<
    MemberView,
>
    decreases members.len(),
{
    if members.len() == 0 {
        None
    } else if members[0].0 == key {
        Some(members[0].1)
    } else {
        member(members.drop_first(), key)
    }
}

/// The entries that an object of strings stands for, in its order, or `None` where a member
/// of the object is no string.
pub open spec fn table_entries(table: Seq<(Seq<char>, Option<Seq<char>>)>) -> Option<Seq<Pair>>
    decreases table.len(),
{
    if table.len() == 0 {
        Some(Seq::empty())
    } else {
        match (table_entries(table.drop_last()), table.last().1) {
            (Some(entries), Some(value)) => Some(inserted(entries, table.last().0, value)),
            _ => None,
        }
    }
}

/// What is said where the member `key` is missing or is no string.
pub open spec fn no_text(key: Seq<char>) -> Seq<char> {
    "`"@ + key + "` is missing or is not a string"@
}

/// What is said where the member `key` is missing or is no object of strings.
pub open spec fn no_table(key: Seq<char>) -> Seq<char> {
    "`"@ + key + "` is missing or is not an object of strings"@
}

/// The entries of the member `key`, or what is said where it is missing or is no object of
/// strings.
pub open spec fn table_of(members: Seq<(Seq<char>, MemberView)>, key: Seq<char>) -> Result<
    Seq<Pair>,
    Seq<char>,
> {
    match member(members, key) {
        Some(MemberView::Table(table)) => match table_entries(table) {
            Some(entries) => Ok(entries),
            None => Err(no_table(key)),
        },
        _ => Err(no_table(key)),
    }
}

/// The settings that a document holds: the project options, the extra arguments and the
/// workspace directory. All three members must be there, the directory as a string and the
/// other two as objects of strings; the first that is not gives the error.
pub open spec fn settings_of(members: Seq<(Seq<char>, MemberView)>) -> Result<
    (Seq<Pair>, Seq<Pair>, Seq<char>),
    Seq<char>,
> {
    match member(members, WORKSPACE_DIR@) {
        Some(MemberView::Text(workspace)) => match table_of(members, PROJECT_OPTIONS@) {
            Ok(options) => match table_of(members, EXTRA_ARGS@) {
                Ok(extra) => Ok((options, extra, workspace)),
                Err(message) => Err(message),
            },
            Err(message) => Err(message),
        },
        _ => Err(no_text(WORKSPACE_DIR@)),
    }
}

/// Whether `found` is the settings `expected`, or the error that `expected` says.
pub open spec fn is_settings(
    found: Result<(StringMap, StringMap, String), BuildError>,
    expected: Result<(Seq<Pair>, Seq<Pair>, Seq<char>), Seq<char>>,
) -> bool {
    match expected {
        Ok(settings) => found matches Ok(read) && read.0.entries() == settings.0
            && read.1.entries() == settings.1 && read.2@ == settings.2,
        Err(message) => found matches Err(error) && error.deep_view() == (
        BuildErrorView::ConfigParse { message }),
    }
}

/// The document of fresh settings: the placeholder for the workspace directory, the options
/// that the project declares, and no extra arguments.
pub open spec fn fresh_document(options: Seq<Pair>) -> Seq<(Seq<char>, MemberView)> {
    seq![
        (WORKSPACE_DIR@, MemberView::Text(PLACEHOLDER_WORKSPACE@)),
        (
            PROJECT_OPTIONS@,
            MemberView::Table(Seq::new(options.len(), |i: int| (options[i].0, Some(options[i].1)))),
        ),
        (EXTRA_ARGS@, MemberView::Table(Seq::empty())),
    ]
}

/// Once an object has a member that is no string, every object that begins with it has one.
proof fn lemma_table_entries_none(table: Seq<(Seq<char>, Option<Seq<char>>)>, upto: int)
    requires
        0 <= upto <= table.len(),
        table_entries(table.subrange(0, upto)) is None,
    ensures
        table_entries(table) is None,
    decreases table.len() - upto,
{
    if upto < table.len() {
        assert(table.subrange(0, upto + 1).drop_last() == table.subrange(0, upto));
        lemma_table_entries_none(table, upto + 1);
    } else {
        assert(table.subrange(0, upto) == table);
    }
}

/// The helpers for the persisted settings. It holds nothing.
pub struct JsonUtil {}

impl JsonUtil {
    /// Where the settings of the project in `dir_path` are kept.
    pub fn project_setting_path(dir_path: &str) -> (r: String)
        ensures
            r@ == crate::app_context::joined_path(dir_path@, PROJECT_SETTINGS_FILEPATH_NAME@),
    {
        join_path(dir_path, PROJECT_SETTINGS_FILEPATH_NAME)
    }

    /// The first member with the name `key`, if there is one.
    pub fn find_member<'a>(members: &'a Vec<(String, Member)>, key: &str) -> (r: Option<
        &'a Member,
    >)
        ensures
            r.deep_view() == member(members.deep_view(), key@),
    {
        let n: usize = members.len();
        let mut i: usize = 0;
        assert(members.deep_view().subrange(0, n as int) == members.deep_view());
        while i < n
            invariant
                n == members.len(),
                i <= n,
                member(members.deep_view(), key@) == member(
                    members.deep_view().subrange(i as int, n as int),
                    key@,
                ),
            decreases n - i,
        {
            let ghost rest = members.deep_view().subrange(i as int, n as int);
            assert(rest[0] == members[i as int].deep_view());
            assert(rest.drop_first() == members.deep_view().subrange(i + 1, n as int));
            if crate::text::same(members[i].0.as_str(), key) {
                return Some(&members[i].1);
            }
            i += 1;
        }
        None
    }

    /// The map that an object of strings stands for, or nothing where a member of the object
    /// is no string.
    pub fn table_map(table: &Vec<(String, Option<String>)>) -> (r: Option<StringMap>)
        ensures
            match table_entries(table.deep_view()) {
                Some(entries) => r matches Some(map) && map.entries() == entries,
                None => r is None,
            },
    {
        let mut map = StringMap::new();
        let n: usize = table.len();
        let mut i: usize = 0;
        assert(table.deep_view().subrange(0, 0) == Seq::<(Seq<char>, Option<Seq<char>>)>::empty());
        while i < n
            invariant
                n == table.len(),
                i <= n,
                table_entries(table.deep_view().subrange(0, i as int)) == Some(map.entries()),
            decreases n - i,
        {
            assert(table.deep_view().subrange(0, i + 1).drop_last() == table.deep_view().subrange(
                0,
                i as int,
            ));
            assert(table.deep_view().subrange(0, i + 1).last() == table[i as int].deep_view());
            match &table[i].1 {
                Some(value) => {
                    map.insert(table[i].0.clone(), value.clone());
                },
                None => {
                    proof {
                        lemma_table_entries_none(table.deep_view(), i + 1);
                    }
                    return None;
                },
            }
            i += 1;
        }
        assert(table.deep_view().subrange(0, n as int) == table.deep_view());
        Some(map)
    }

    /// The entries of the member `key`, which must be an object of strings.
    pub fn table_member(members: &Vec<(String, Member)>, key: &str) -> (r: Result<
        StringMap,
        BuildError,
    >)
        ensures
            match table_of(members.deep_view(), key@) {
                Ok(entries) => r matches Ok(map) && map.entries() == entries,
                Err(message) => r matches Err(error) && error.deep_view() == (
                BuildErrorView::ConfigParse { message }),
            },
    {
        let found = match Self::find_member(members, key) {
            Some(Member::Table(table)) => Self::table_map(table),
            _ => None,
        };
        match found {
            Some(map) => Ok(map),
            None => {
                let mut message = String::from_str("`");
                message.append(key);
                message.append("` is missing or is not an object of strings");
                Err(BuildError::ConfigParse { message })
            },
        }
    }

    /// The settings that a document with the members `members` holds.
    pub fn settings_from(members: &Vec<(String, Member)>) -> (r: Result<
        (StringMap, StringMap, String),
        BuildError,
    >)
        ensures
            is_settings(r, settings_of(members.deep_view())),
    {
        let workspace = match Self::find_member(members, WORKSPACE_DIR) {
            Some(Member::Text(workspace)) => workspace.clone(),
            _ => {
                let mut message = String::from_str("`");
                message.append(WORKSPACE_DIR);
                message.append("` is missing or is not a string");
                return Err(BuildError::ConfigParse { message });
            },
        };
        let options = match Self::table_member(members, PROJECT_OPTIONS) {
            Ok(options) => options,
            Err(error) => {
                return Err(error);
            },
        };
        let extra = match Self::table_member(members, EXTRA_ARGS) {
            Ok(extra) => extra,
            Err(error) => {
                return Err(error);
            },
        };
        Ok((options, extra, workspace))
    }

    /// Reads the settings of a project from the text of its settings file: the project
    /// options, the extra arguments and the workspace directory.
    pub fn parse_json(text: &str) -> (r: Result<(StringMap, StringMap, String), BuildError>)
        ensures
            match document_of(text@) {
                Some(members) => is_settings(r, settings_of(members)),
                None => r matches Err(error) && error is ConfigParse,
            },
    {
        match read_document(text) {
            Ok(members) => Self::settings_from(&members),
            Err(error) => Err(BuildError::ConfigParse { message: error_text(&error) }),
        }
    }

    /// The document of fresh settings for a project that declares the options `options`.
    pub fn default_document(options: &StringMap) -> (r: Vec<(String, Member)>)
        ensures
            r.deep_view() == fresh_document(options.entries()),
    {
        let n: usize = options.len();
        let mut table: Vec<(String, Option<String>)> = Vec::new();
        let mut i: usize = 0;
        while i < n
            invariant
                n == options.entries().len(),
                i <= n,
                table.deep_view() == Seq::new(
                    i as nat,
                    |k: int| (options.entries()[k].0, Some(options.entries()[k].1)),
                ),
            decreases n - i,
        {
            let ghost before = table.deep_view();
            let entry = (
                String::from_str(options.key_at(i)),
                Some(String::from_str(options.value_at(i))),
            );
            table.push(entry);
            assert(table.deep_view() == before.push(entry.deep_view()));
            i += 1;
        }
        let mut members: Vec<(String, Member)> = Vec::new();
        members.push(
            (String::from_str(WORKSPACE_DIR), Member::Text(String::from_str(PLACEHOLDER_WORKSPACE))),
        );
        members.push((String::from_str(PROJECT_OPTIONS), Member::Table(table)));
        let none: Vec<(String, Option<String>)> = Vec::new();
        assert(none.deep_view() == Seq::<(Seq<char>, Option<Seq<char>>)>::empty());
        members.push((String::from_str(EXTRA_ARGS), Member::Table(none)));
        assert(members.deep_view() == fresh_document(options.entries()));
        members
    }

    /// The text of the settings file of a project that has none yet and declares the options
    /// `options`.
    pub fn create_project_setting(options: &StringMap) -> (r: Result<String, BuildError>)
        ensures
            match document_text(fresh_document(options.entries())) {
                Some(text) => r matches Ok(written) && written@ == text,
                None => r matches Err(error) && error is ConfigParse,
            },
    {
        let members = Self::default_document(options);
        match write_document(&members) {
            Ok(text) => Ok(text),
            Err(error) => Err(BuildError::ConfigParse { message: error_text(&error) }),
        }
    }
}

} // verus!
