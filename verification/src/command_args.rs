//! What the command line asks for: the stages to run, the build variant, and the rest of the
//! arguments as plain values.

use crate::text;
use vstd::prelude::*;

verus! {

/// One phase of a build.
#[derive(Copy, Clone, Debug, PartialEq, Eq, Structural)]
pub enum Stage {
    Clean,
    Configure,
    Build,
    Install,
}

/// The stages that were asked for, or why the argument was refused.
pub type StageResult = Result<Vec<Stage>, String>;

impl Stage {
    /// The word that stands for the stage on the command line.
    pub open spec fn name(self) -> Seq<char> {
        match self {
            Stage::Clean => "clean"@,
            Stage::Configure => "configure"@,
            Stage::Build => "build"@,
            Stage::Install => "install"@,
        }
    }

    /// Whether `input` is the word of this stage.
    pub open spec fn accepts(self, input: Seq<char>, ignore_case: bool) -> bool {
        if ignore_case {
            text::same_ignoring_ascii_case(self.name(), input)
        } else {
            self.name() == input
        }
    }

    /// The first stage, in the order of the pipeline, whose word `input` is.
    pub open spec fn named(input: Seq<char>, ignore_case: bool) -> Option<Stage> {
        if Stage::Clean.accepts(input, ignore_case) {
            Some(Stage::Clean)
        } else if Stage::Configure.accepts(input, ignore_case) {
            Some(Stage::Configure)
        } else if Stage::Build.accepts(input, ignore_case) {
            Some(Stage::Build)
        } else if Stage::Install.accepts(input, ignore_case) {
            Some(Stage::Install)
        } else {
            None
        }
    }

    /// What is said of an input that names no stage.
    pub open spec fn refusal(input: Seq<char>) -> Seq<char> {
        "invalid variant: "@ + input
    }

    /// The word that stands for the stage on the command line.
    pub fn value_name(self) -> (r: &'static str)
        ensures
            r@ == self.name(),
    {
        match self {
            Stage::Clean => "clean",
            Stage::Configure => "configure",
            Stage::Build => "build",
            Stage::Install => "install",
        }
    }

    /// Whether `input` is the word of this stage.
    pub fn matches(self, input: &str, ignore_case: bool) -> (r: bool)
        ensures
            r == self.accepts(input@, ignore_case),
    {
        if ignore_case {
            text::eq_ignore_ascii_case(self.value_name(), input)
        } else {
            text::same(self.value_name(), input)
        }
    }

    /// Reads one stage from its word.
    pub fn from_str(input: &str, ignore_case: bool) -> (r: Result<Stage, String>)
        ensures
            match Stage::named(input@, ignore_case) {
                Some(stage) => r == Ok::<Stage, String>(stage),
                None => r matches Err(message) && message@ == Stage::refusal(input@),
            },
    {
        if Stage::Clean.matches(input, ignore_case) {
            Ok(Stage::Clean)
        } else if Stage::Configure.matches(input, ignore_case) {
            Ok(Stage::Configure)
        } else if Stage::Build.matches(input, ignore_case) {
            Ok(Stage::Build)
        } else if Stage::Install.matches(input, ignore_case) {
            Ok(Stage::Install)
        } else {
            let mut message = String::from_str("invalid variant: ");
            message.append(input);
            Err(message)
        }
    }
}

/// The stages that `words` name, in their order, or the refusal of the first word that names
/// none.
pub open spec fn stages_named(words: Seq<Seq<char>>) -> Result<Seq<Stage>, Seq<char>>
    decreases words.len(),
{
    if words.len() == 0 {
        Ok(Seq::empty())
    } else {
        match Stage::named(words[0], true) {
            None => Err(Stage::refusal(words[0])),
            Some(stage) => after(seq![stage], stages_named(words.drop_first())),
        }
    }
}

/// `rest` with `done` in front of what it holds, where it holds stages.
pub open spec fn after(done: Seq<Stage>, rest: Result<Seq<Stage>, Seq<char>>) -> Result<
    Seq<Stage>,
    Seq<char>,
> {
    match rest {
        Ok(stages) => Ok(done + stages),
        Err(message) => Err(message),
    }
}

/// What a stage argument stands for: its words are separated by commas, and case does not
/// matter.
pub open spec fn stages_of(arg: Seq<char>) -> Result<Seq<Stage>, Seq<char>> {
    stages_named(text::pieces(arg, ','))
}

/// Reads a comma-separated list of stages.
pub fn parse_stages(arg: &str) -> (r: StageResult)
    ensures
        match stages_of(arg@) {
            Ok(stages) => r matches Ok(found) && found@ == stages,
            Err(message) => r matches Err(said) && said@ == message,
        },
{
    let words = text::split(arg, ',');
    let n: usize = words.len();
    let mut found: Vec<Stage> = Vec::new();
    let mut i: usize = 0;
    assert(words.deep_view().subrange(0, n as int) == words.deep_view());
    assert(Seq::<Stage>::empty() + Seq::<Stage>::empty() == Seq::<Stage>::empty());
    while i < n
        invariant
            n == words.len(),
            i <= n,
            words.deep_view() == text::pieces(arg@, ','),
            stages_of(arg@) == after(
                found@,
                stages_named(words.deep_view().subrange(i as int, n as int)),
            ),
        decreases n - i,
    {
        let ghost rest = words.deep_view().subrange(i as int, n as int);
        assert(rest[0] == words[i as int]@);
        assert(rest.drop_first() == words.deep_view().subrange(i + 1, n as int));
        match Stage::from_str(words[i].as_str(), true) {
            Ok(stage) => {
                proof {
                    let tail = stages_named(rest.drop_first());
                    match tail {
                        Ok(stages) => {
                            assert(found@ + (seq![stage] + stages) == found@.push(stage)
                                + stages);
                        },
                        Err(_) => {},
                    }
                }
                found.push(stage);
            },
            Err(message) => {
                return Err(message);
            },
        }
        i += 1;
    }
    assert(found@ + Seq::<Stage>::empty() == found@);
    Ok(found)
}

/// A build configuration profile.
#[derive(Copy, Clone, Debug, PartialEq, Eq, Structural)]
pub enum Variant {
    Debug,
    Release,
    RelWithDebInfo,
}

/// The lowercase form of a string, as Unicode defines it.
pub uninterp spec fn lowercase(s: Seq<char>) -> Seq<char>;

/// `str::to_lowercase` of std: the result is the lowercase form of the argument. It depends on
/// the characters of the argument alone.
#[verifier::external_body]
fn to_lowercase(s: &str) -> (r: String)
    ensures
        r@ == lowercase(s@),
{
    s.to_lowercase()
}

impl Variant {
    /// The name of the variant as the build tool writes it.
    pub open spec fn name(self) -> Seq<char> {
        match self {
            Variant::Debug => "Debug"@,
            Variant::Release => "Release"@,
            Variant::RelWithDebInfo => "RelWithDebInfo"@,
        }
    }

    /// The variant that the word `lowered`, already in lowercase, stands for.
    pub open spec fn named(lowered: Seq<char>) -> Option<Variant> {
        if lowered == "debug"@ {
            Some(Variant::Debug)
        } else if lowered == "release"@ {
            Some(Variant::Release)
        } else if lowered == "relwithdebinfo"@ {
            Some(Variant::RelWithDebInfo)
        } else {
            None
        }
    }

    /// What is said of an argument that names no variant.
    pub open spec fn refusal(arg: Seq<char>) -> Seq<char> {
        "unknown variant '"@ + arg + "'"@
    }

    /// The name of the variant as the build tool writes it.
    pub fn as_str(&self) -> (r: &str)
        ensures
            r@ == self.name(),
    {
        match self {
            Variant::Debug => "Debug",
            Variant::Release => "Release",
            Variant::RelWithDebInfo => "RelWithDebInfo",
        }
    }

    /// The variant that `lowered` stands for, where `lowered` is the argument `arg` in
    /// lowercase.
    pub fn from_lowercase(lowered: &str, arg: &str) -> (r: Result<Variant, String>)
        ensures
            match Variant::named(lowered@) {
                Some(variant) => r == Ok::<Variant, String>(variant),
                None => r matches Err(message) && message@ == Variant::refusal(arg@),
            },
    {
        if text::same(lowered, "debug") {
            Ok(Variant::Debug)
        } else if text::same(lowered, "release") {
            Ok(Variant::Release)
        } else if text::same(lowered, "relwithdebinfo") {
            Ok(Variant::RelWithDebInfo)
        } else {
            let mut message = String::from_str("unknown variant '");
            message.append(arg);
            message.append("'");
            Err(message)
        }
    }
}

/// Reads a build variant. Case does not matter.
pub fn parse_variant(arg: &str) -> (r: Result<Variant, String>)
    ensures
        match Variant::named(lowercase(arg@)) {
            Some(variant) => r == Ok::<Variant, String>(variant),
            None => r matches Err(message) && message@ == Variant::refusal(arg@),
        },
{
    let lowered = to_lowercase(arg);
    Variant::from_lowercase(lowered.as_str(), arg)
}

/// The arguments of one invocation.
#[derive(Clone, Debug, PartialEq, Eq)]
pub struct CommandArgs {
    /// The directory that holds the top-level build description.
    pub project_location: String,
    /// The stages to run.
    pub stages: Vec<Stage>,
    /// The build variant.
    pub variant: Variant,
    /// The generator to use instead of the default one.
    pub generator: Option<String>,
    /// Present where the output of the commands goes to the build log.
    pub redirect_outstream: Option<bool>,
}

} // verus!
