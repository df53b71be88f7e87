//! Helpers around the build description and the argument maps.

use crate::string_map::{inserted, Pair, StringMap};
use crate::text;
use vstd::prelude::*;

verus! {

/// The error of the `regex` crate: a pattern that is not a regular expression, or one that
/// is too large.
#[verifier::external_type_specification]
#[verifier::external_body]
pub struct ExPatternError(regex::Error);

/// The declaration of an option in a build description: `option(NAME "text" ON)` or the same
/// with `OFF`. The first group is the name, the second the value.
pub const OPTION_PATTERN: &'static str = "option\\((\\w+)\\s+\".*?\"\\s+(ON|OFF)\\)";

/// How the line that declares the project begins.
pub const PROJECT_OPENING: &'static str = "project(";

/// The line that declares the project, with the name of the project as its first group.
pub const DECLARATION_PATTERN: &'static str = "^project\\(\\s*\"?([^\\s\"]+)\"?\\s*";

/// A line that follows the opening of the declaration, with the first word of the line, up
/// to white space or a bracket, as its first group.
pub const CONTINUATION_PATTERN: &'static str = "^\\s*([^\\s()]+)";

/// The groups of the first match of the regular expression `pattern` in `haystack`, or `None`
/// inside where nothing matches, or `None` outside where `pattern` is no regular expression.
/// Group 0 is the whole match, and a group that took no part in the match is `None`.
pub uninterp spec fn first_match(pattern: Seq<char>, haystack: Seq<char>) -> Option<
    Option<Seq<Option<Seq<char>>>>,
>;

/// The groups of every match of the regular expression `pattern` in `haystack`, from left to
/// right, no two overlapping, or `None` where `pattern` is no regular expression.
pub uninterp spec fn all_matches(pattern: Seq<char>, haystack: Seq<char>) -> Option<
    Seq<Seq<Option<Seq<char>>>>,
>;

/// `Regex::new` and `Regex::captures` of the `regex` crate: compiles `pattern` and looks for
/// its first match in `haystack`. The result is the named one: an error where the pattern
/// does not compile, else the groups of the first match, if there is a match.
#[verifier::external_body]
fn captures(pattern: &str, haystack: &str) -> (r: Result<
    Option<Vec<Option<String>>>,
    regex::Error,
>)
    ensures
        match r {
            Ok(found) => first_match(pattern@, haystack@) == Some(found.deep_view()),
            Err(_) => first_match(pattern@, haystack@) is None,
        },
{
    let expression = regex::Regex::new(pattern)?;
    Ok(
        expression.captures(haystack).map(
            |found| found.iter().map(|group| group.map(|part| part.as_str().to_string())).collect(),
        ),
    )
}

/// `Regex::new` and `Regex::captures_iter` of the `regex` crate: compiles `pattern` and
/// collects its matches in `haystack`. The result is the named one: an error where the
/// pattern does not compile, else the groups of each match, from left to right.
#[verifier::external_body]
fn captures_iter(pattern: &str, haystack: &str) -> (r: Result<
    Vec<Vec<Option<String>>>,
    regex::Error,
>)
    ensures
        match r {
            Ok(found) => all_matches(pattern@, haystack@) == Some(found.deep_view()),
            Err(_) => all_matches(pattern@, haystack@) is None,
        },
{
    let expression = regex::Regex::new(pattern)?;
    Ok(
        expression.captures_iter(haystack).map(
            |found| found.iter().map(|group| group.map(|part| part.as_str().to_string())).collect(),
        ).collect(),
    )
}

/// The helpers of the build driver. It holds nothing.
pub struct UtilityHelper;

/// An entry written as an argument: key, equals sign, value.
pub open spec fn token(entry: Pair) -> Seq<char> {
    entry.0 + "="@ + entry.1
}

/// The arguments that the entries of one map give, in the order of the entries.
pub open spec fn tokens(entries: Seq<Pair>) -> Seq<Seq<char>> {
    Seq::new(entries.len(), |i: int| token(entries[i]))
}

/// The arguments that several maps give: those of the first map, then those of the second,
/// and so on. A key that stands in two maps gives two arguments.
pub open spec fn all_tokens(maps: Seq<StringMap>) -> Seq<Seq<char>>
    decreases maps.len(),
{
    if maps.len() == 0 {
        Seq::empty()
    } else {
        all_tokens(maps.drop_last()) + tokens(maps.last().entries())
    }
}

/// Writes the arguments of `entry` behind those that `out` holds already. `fresh` says that
/// `out` holds none yet; the result says whether it still holds none.
fn append_tokens(
    out: &mut String,
    fresh: bool,
    entry: &StringMap,
    Ghost(done): Ghost<Seq<Seq<char>>>,
) -> (still_fresh: bool)
    requires
        old(out)@ == text::joined(done, " "@),
        fresh == (done.len() == 0),
    ensures
        final(out)@ == text::joined(done + tokens(entry.entries()), " "@),
        still_fresh == ((done + tokens(entry.entries())).len() == 0),
{
    let ghost all = done + tokens(entry.entries());
    let n: usize = entry.len();
    let mut i: usize = 0;
    let mut fresh = fresh;
    assert(all.subrange(0, done.len() as int) == done);
    while i < n
        invariant
            n == entry.entries().len(),
            i <= n,
            all == done + tokens(entry.entries()),
            fresh == (done.len() + i == 0),
            out@ == text::joined(all.subrange(0, done.len() + i), " "@),
        decreases n - i,
    {
        let ghost before = all.subrange(0, done.len() + i);
        let ghost now = all.subrange(0, done.len() + i + 1);
        assert(now.drop_last() == before);
        assert(now.last() == token(entry.entries()[i as int]));
        if !fresh {
            out.append(" ");
        }
        out.append(entry.key_at(i));
        out.append("=");
        out.append(entry.value_at(i));
        if fresh {
            assert(out@ == token(entry.entries()[i as int]));
        } else {
            assert(out@ == text::joined(before, " "@) + " "@ + token(entry.entries()[i as int]));
        }
        fresh = false;
        i += 1;
    }
    assert(all.subrange(0, done.len() + n) == all);
    fresh
}

impl UtilityHelper {
    /// Writes a map out as arguments of the form key=value, separated by single spaces, in the
    /// order of the map's entries.
    pub fn stringify(entry: &StringMap) -> (r: String)
        ensures
            r@ == text::joined(tokens(entry.entries()), " "@),
    {
        let mut out = String::new();
        let ghost done = Seq::<Seq<char>>::empty();
        append_tokens(&mut out, true, entry, Ghost(done));
        assert(done + tokens(entry.entries()) == tokens(entry.entries()));
        out
    }

    /// Writes several maps out as one list of arguments of the form key=value, separated by
    /// single spaces: the entries of the first map, then those of the second, and so on. No
    /// map overrides another.
    pub fn merge(maps: &Vec<StringMap>) -> (r: String)
        ensures
            r@ == text::joined(all_tokens(maps@), " "@),
            maps@.len() == 0 ==> r@ == Seq::<char>::empty(),
    {
        let mut out = String::new();
        let n: usize = maps.len();
        let mut m: usize = 0;
        let mut fresh = true;
        assert(maps@.subrange(0, 0) == Seq::<StringMap>::empty());
        while m < n
            invariant
                n == maps.len(),
                m <= n,
                fresh == (all_tokens(maps@.subrange(0, m as int)).len() == 0),
                out@ == text::joined(all_tokens(maps@.subrange(0, m as int)), " "@),
            decreases n - m,
        {
            let ghost done = all_tokens(maps@.subrange(0, m as int));
            assert(maps@.subrange(0, m + 1).drop_last() == maps@.subrange(0, m as int));
            fresh = append_tokens(&mut out, fresh, &maps[m], Ghost(done));
            m += 1;
        }
        assert(maps@.subrange(0, n as int) == maps@);
        out
    }
}

/// Group `index` of a match, where the match has such a group and it took part.
pub open spec fn group(groups: Option<Seq<Option<Seq<char>>>>, index: int) -> Option<Seq<char>> {
    match groups {
        Some(found) => if 0 <= index < found.len() {
            found[index]
        } else {
            None
        },
        None => None,
    }
}

/// The match inside, where there is one and the pattern was a regular expression.
pub open spec fn matched(found: Option<Option<Seq<Option<Seq<char>>>>>) -> Option<
    Seq<Option<Seq<char>>>,
> {
    match found {
        Some(inner) => inner,
        None => None,
    }
}

/// The option that a match of the option pattern declares: the key is `-D` and the name, the
/// value is `ON` or `OFF` as written.
pub open spec fn option_in(groups: Seq<Option<Seq<char>>>) -> Option<Pair> {
    match (group(Some(groups), 1), group(Some(groups), 2)) {
        (Some(name), Some(value)) => Some(("-D"@ + name, value)),
        _ => None,
    }
}

/// `entries` with the option of a match, if there is a match and it declares one.
pub open spec fn with_option(entries: Seq<Pair>, groups: Option<Seq<Option<Seq<char>>>>) -> Seq<
    Pair,
> {
    match groups {
        Some(found) => match option_in(found) {
            Some(option) => inserted(entries, option.0, option.1),
            None => entries,
        },
        None => entries,
    }
}

/// `entries` with the options of `lines`: each line gives the option of the first declaration
/// on it. A later declaration of a name replaces the value of an earlier one.
pub open spec fn with_lines(entries: Seq<Pair>, lines: Seq<Seq<char>>) -> Seq<Pair>
    decreases lines.len(),
{
    if lines.len() == 0 {
        entries
    } else {
        with_option(
            with_lines(entries, lines.drop_last()),
            matched(first_match(OPTION_PATTERN@, lines.last())),
        )
    }
}

/// `entries` with the options of the fragments `fragments`, each read line by line.
pub open spec fn with_fragments(entries: Seq<Pair>, fragments: Seq<Seq<char>>) -> Seq<Pair>
    decreases fragments.len(),
{
    if fragments.len() == 0 {
        entries
    } else {
        with_lines(
            with_fragments(entries, fragments.drop_last()),
            text::lines_of(fragments.last()),
        )
    }
}

/// `entries` with the options of the matches `found`, one after another.
pub open spec fn with_matches(entries: Seq<Pair>, found: Seq<Seq<Option<Seq<char>>>>) -> Seq<
    Pair,
>
    decreases found.len(),
{
    if found.len() == 0 {
        entries
    } else {
        with_option(with_matches(entries, found.drop_last()), Some(found.last()))
    }
}

/// The matches inside, or none where the pattern was no regular expression.
pub open spec fn matches_or_none(found: Option<Seq<Seq<Option<Seq<char>>>>>) -> Seq<
    Seq<Option<Seq<char>>>,
> {
    match found {
        Some(all) => all,
        None => Seq::empty(),
    }
}

/// The options that a project declares: those of the fragments, in their order, and then
/// those of the top-level build description, which is read as a whole and not line by line.
pub open spec fn options_of(top_level: Seq<char>, fragments: Seq<Seq<char>>) -> Seq<Pair> {
    with_matches(
        with_fragments(Seq::empty(), fragments),
        matches_or_none(all_matches(OPTION_PATTERN@, top_level)),
    )
}

/// The project name that a line gives, once its white space at both ends is gone.
///
/// Before the declaration has begun, only a line that begins it can give the name, and a
/// closing bracket at the end of the name is dropped. After it has begun, the first word of a
/// line is the name.
pub open spec fn name_on_line(line: Seq<char>, in_declaration: bool) -> Option<Seq<char>> {
    if in_declaration {
        group(matched(first_match(CONTINUATION_PATTERN@, line)), 1)
    } else if PROJECT_OPENING@.is_prefix_of(line) {
        match group(matched(first_match(DECLARATION_PATTERN@, line)), 1) {
            Some(name) => Some(text::without_trailing(name, ')')),
            None => None,
        }
    } else {
        None
    }
}

/// The project name that `lines` give: that of the first line that gives one.
pub open spec fn name_in_lines(lines: Seq<Seq<char>>, in_declaration: bool) -> Option<Seq<char>>
    decreases lines.len(),
{
    if lines.len() == 0 {
        None
    } else {
        let line = text::trimmed(lines[0]);
        match name_on_line(line, in_declaration) {
            Some(name) => Some(name),
            None => name_in_lines(
                lines.drop_first(),
                in_declaration || PROJECT_OPENING@.is_prefix_of(line),
            ),
        }
    }
}

/// The name of the project that a build description declares, if it declares one.
pub open spec fn project_name_of(contents: Seq<char>) -> Option<Seq<char>> {
    name_in_lines(text::lines_of(contents), false)
}

/// How long a build took, as hours, minutes and seconds of two digits each; the hours take
/// more digits where they need them.
pub open spec fn elapsed_text(seconds: nat) -> Seq<char> {
    "Elapsed time: "@ + text::at_least_two_digits(seconds / 3600) + ":"@
        + text::at_least_two_digits((seconds % 3600) / 60) + ":"@ + text::at_least_two_digits(
        seconds % 60,
    )
}

/// Whether a file of this name is a fragment of a build description: its extension is
/// `cmake`.
pub open spec fn is_fragment_name(file_name: Seq<char>) -> bool {
    file_name.len() > 6 && file_name.subrange(file_name.len() - 6, file_name.len() as int)
        == ".cmake"@
}

/// The match that a search gave, if it gave one.
fn found_groups(found: Result<Option<Vec<Option<String>>>, regex::Error>) -> (r: Option<
    Vec<Option<String>>,
>)
    ensures
        found is Ok ==> r == found->Ok_0,
        found is Err ==> r is None,
{
    match found {
        Ok(groups) => groups,
        Err(_) => None,
    }
}

impl UtilityHelper {
    /// Group `index` of a match, where the match has such a group and it took part.
    pub fn group_text(groups: &Option<Vec<Option<String>>>, index: usize) -> (r: Option<String>)
        ensures
            r.deep_view() == group(groups.deep_view(), index as int),
    {
        match groups {
            Some(found) => {
                if index < found.len() {
                    match &found[index] {
                        Some(part) => Some(part.clone()),
                        None => None,
                    }
                } else {
                    None
                }
            },
            None => None,
        }
    }

    /// Adds the option that a match of the option pattern declares, if it declares one.
    pub fn add_option(options: &mut StringMap, groups: &Option<Vec<Option<String>>>)
        ensures
            final(options).entries() == with_option(old(options).entries(), groups.deep_view()),
    {
        if groups.is_some() {
            let name = Self::group_text(groups, 1);
            let value = Self::group_text(groups, 2);
            match (name, value) {
                (Some(name), Some(value)) => {
                    let mut key = String::from_str("-D");
                    key.append(name.as_str());
                    options.insert(key, value);
                },
                _ => {},
            }
        }
    }

    /// The options that a project declares, from the text of its top-level build description
    /// and the texts of its fragments.
    pub fn fetch_cmake_project_options(top_level: &str, fragments: &Vec<String>) -> (r: StringMap)
        ensures
            r.entries() == options_of(top_level@, fragments.deep_view()),
    {
        let mut options = StringMap::new();
        let count: usize = fragments.len();
        let mut f: usize = 0;
        assert(fragments.deep_view().subrange(0, 0) == Seq::<Seq<char>>::empty());
        while f < count
            invariant
                count == fragments.len(),
                f <= count,
                options.entries() == with_fragments(
                    Seq::empty(),
                    fragments.deep_view().subrange(0, f as int),
                ),
            decreases count - f,
        {
            let lines = text::lines(fragments[f].as_str());
            let n: usize = lines.len();
            let mut i: usize = 0;
            let ghost before = options.entries();
            assert(lines.deep_view().subrange(0, 0) == Seq::<Seq<char>>::empty());
            while i < n
                invariant
                    n == lines.len(),
                    i <= n,
                    options.entries() == with_lines(before, lines.deep_view().subrange(0, i as int)),
                decreases n - i,
            {
                let found = found_groups(captures(OPTION_PATTERN, lines[i].as_str()));
                assert(lines.deep_view().subrange(0, i + 1).drop_last()
                    == lines.deep_view().subrange(0, i as int));
                assert(lines.deep_view().subrange(0, i + 1).last() == lines[i as int]@);
                Self::add_option(&mut options, &found);
                i += 1;
            }
            assert(lines.deep_view().subrange(0, n as int) == lines.deep_view());
            assert(fragments.deep_view().subrange(0, f + 1).drop_last()
                == fragments.deep_view().subrange(0, f as int));
            assert(fragments.deep_view().subrange(0, f + 1).last() == fragments[f as int]@);
            f += 1;
        }
        assert(fragments.deep_view().subrange(0, count as int) == fragments.deep_view());
        let all = match captures_iter(OPTION_PATTERN, top_level) {
            Ok(all) => all,
            Err(_) => Vec::new(),
        };
        assert(all.deep_view() == matches_or_none(all_matches(OPTION_PATTERN@, top_level@)));
        let n: usize = all.len();
        let mut i: usize = 0;
        let ghost before = options.entries();
        assert(all.deep_view().subrange(0, 0) == Seq::<Seq<Option<Seq<char>>>>::empty());
        while i < n
            invariant
                n == all.len(),
                i <= n,
                options.entries() == with_matches(before, all.deep_view().subrange(0, i as int)),
            decreases n - i,
        {
            assert(all.deep_view().subrange(0, i + 1).drop_last() == all.deep_view().subrange(
                0,
                i as int,
            ));
            assert(all.deep_view().subrange(0, i + 1).last() == all[i as int].deep_view());
            let groups = Some(Self::copy_groups(&all[i]));
            Self::add_option(&mut options, &groups);
            i += 1;
        }
        assert(all.deep_view().subrange(0, n as int) == all.deep_view());
        options
    }

    /// A copy of the groups of a match.
    fn copy_groups(groups: &Vec<Option<String>>) -> (r: Vec<Option<String>>)
        ensures
            r.deep_view() == groups.deep_view(),
    {
        let n: usize = groups.len();
        let mut copy: Vec<Option<String>> = Vec::new();
        let mut i: usize = 0;
        while i < n
            invariant
                n == groups.len(),
                i <= n,
                copy.deep_view() == groups.deep_view().subrange(0, i as int),
            decreases n - i,
        {
            let part = match &groups[i] {
                Some(text) => Some(text.clone()),
                None => None,
            };
            assert(part.deep_view() == groups@[i as int].deep_view());
            let ghost before = copy.deep_view();
            copy.push(part);
            assert(copy.deep_view() == before.push(part.deep_view()));
            assert(copy.deep_view() == groups.deep_view().subrange(0, i + 1));
            i += 1;
        }
        assert(groups.deep_view().subrange(0, n as int) == groups.deep_view());
        copy
    }

    /// The project name that a match on a line gives: its first group, without the closing
    /// brackets at its end where the line is the one that begins the declaration.
    pub fn name_in_groups(groups: &Option<Vec<Option<String>>>, opening: bool) -> (r: Option<
        String,
    >)
        ensures
            r.deep_view() == (match group(groups.deep_view(), 1) {
                Some(name) => Some(
                    if opening {
                        text::without_trailing(name, ')')
                    } else {
                        name
                    },
                ),
                None => None,
            }),
    {
        match Self::group_text(groups, 1) {
            Some(name) => {
                if opening {
                    Some(text::strip_trailing(name.as_str(), ')'))
                } else {
                    Some(name)
                }
            },
            None => None,
        }
    }

    /// The name of the project that a build description declares, from the text of the
    /// description.
    pub fn fetch_project_name(contents: &str) -> (r: Option<String>)
        ensures
            r.deep_view() == project_name_of(contents@),
    {
        let lines = text::lines(contents);
        let n: usize = lines.len();
        let mut in_declaration = false;
        let mut i: usize = 0;
        assert(lines.deep_view().subrange(0, n as int) == lines.deep_view());
        while i < n
            invariant
                n == lines.len(),
                i <= n,
                project_name_of(contents@) == name_in_lines(
                    lines.deep_view().subrange(i as int, n as int),
                    in_declaration,
                ),
            decreases n - i,
        {
            let ghost rest = lines.deep_view().subrange(i as int, n as int);
            assert(rest[0] == lines[i as int]@);
            assert(rest.drop_first() == lines.deep_view().subrange(i + 1, n as int));
            let line = text::trim(lines[i].as_str());
            if in_declaration {
                let found = found_groups(captures(CONTINUATION_PATTERN, line.as_str()));
                let name = Self::name_in_groups(&found, false);
                if name.is_some() {
                    return name;
                }
            } else if text::starts_with(line.as_str(), PROJECT_OPENING) {
                in_declaration = true;
                let found = found_groups(captures(DECLARATION_PATTERN, line.as_str()));
                let name = Self::name_in_groups(&found, true);
                if name.is_some() {
                    return name;
                }
            }
            i += 1;
        }
        None
    }

    /// What is shown of the time that a build took.
    pub fn elapsed_message(elapsed_seconds: u64) -> (r: String)
        ensures
            r@ == elapsed_text(elapsed_seconds as nat),
    {
        let hours = text::two_digits(elapsed_seconds / 3600);
        let minutes = text::two_digits((elapsed_seconds % 3600) / 60);
        let seconds = text::two_digits(elapsed_seconds % 60);
        let mut message = String::from_str("Elapsed time: ");
        message.append(hours.as_str());
        message.append(":");
        message.append(minutes.as_str());
        message.append(":");
        message.append(seconds.as_str());
        message
    }

    /// Whether a file of this name is a fragment of a build description.
    pub fn is_cmake_fragment(file_name: &str) -> (r: bool)
        ensures
            r == is_fragment_name(file_name@),
    {
        let n: usize = file_name.unicode_len();
        if n <= 6 {
            return false;
        }
        text::same(file_name.substring_char(n - 6, n), ".cmake")
    }
}

} // verus!
