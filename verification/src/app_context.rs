//! Everything that one build needs to know, gathered from the command line, the persisted
//! settings and the build description.

use crate::command_args::{CommandArgs, Stage, Variant};
use crate::error::BuildError;
use crate::string_map::StringMap;
use vstd::prelude::*;

verus! {

/// The generator that is used where the command line names none.
pub const NINJA_GENERATOR: &'static str = "Ninja";

/// The file, below the build directory of the variant, that captured output goes to.
pub const BUILD_LOG_NAME: &'static str = "build_log.txt";

/// The project name that is shown where the build description declares none.
pub const UNNAMED_PROJECT: &'static str = "Not found";

/// The path that adjoining `name` to `base` gives on the platform that the library is built
/// for.
pub uninterp spec fn joined_path(base: Seq<char>, name: Seq<char>) -> Seq<char>;

/// `Path::join` of std, on paths that are text: the result is the path `base` with `name`
/// adjoined. For one platform it depends on the two arguments alone.
#[verifier::external_body]
pub(crate) fn join_path(base: &str, name: &str) -> (r: String)
    ensures
        r@ == joined_path(base@, name@),
{
    std::path::Path::new(base).join(name).to_string_lossy().into_owned()
}

/// The settings of one build.
pub struct AppContext {
    /// The directory that holds the top-level build description.
    pub project_location: String,
    /// The directory below which the build and install trees stand.
    pub workspace_dir: String,
    /// The root of the build trees, one per variant.
    pub build_dir: String,
    /// The root of the install trees, one per variant.
    pub install_dir: String,
    /// The build variant.
    pub variant: Variant,
    /// The project options of the persisted settings.
    pub configure_args: StringMap,
    /// The extra arguments of the persisted settings.
    pub extra_args: StringMap,
    /// The generator that the configure step selects.
    pub generator: String,
    /// The stages that were asked for, as they were written.
    pub stages: Vec<Stage>,
    /// Present where the output of the commands goes to the build log.
    pub redirect_outstream: Option<bool>,
    /// The build log.
    pub build_log_location: String,
    /// The name of the project.
    pub project_name: String,
}

impl AppContext {
    /// The generator for a command line that names `chosen`.
    pub open spec fn generator_for(chosen: Option<String>) -> Seq<char> {
        match chosen {
            Some(generator) => generator@,
            None => NINJA_GENERATOR@,
        }
    }

    /// The project name to show for the declared name `declared`.
    pub open spec fn name_for(declared: Option<String>) -> Seq<char> {
        match declared {
            Some(name) => name@,
            None => UNNAMED_PROJECT@,
        }
    }

    /// Whether the context is the one that the given arguments, settings and directories
    /// make.
    pub open spec fn made_of(
        &self,
        args: CommandArgs,
        configure_args: StringMap,
        extra_args: StringMap,
        workspace_dir: Seq<char>,
        project_name: Option<String>,
        build_dir: Seq<char>,
        install_dir: Seq<char>,
        build_log_location: Seq<char>,
    ) -> bool {
        &&& self.project_location@ == args.project_location@
        &&& self.workspace_dir@ == workspace_dir
        &&& self.build_dir@ == build_dir
        &&& self.install_dir@ == install_dir
        &&& self.variant == args.variant
        &&& self.configure_args.entries() == configure_args.entries()
        &&& self.extra_args.entries() == extra_args.entries()
        &&& self.generator@ == Self::generator_for(args.generator)
        &&& self.stages@ == args.stages@
        &&& self.redirect_outstream == args.redirect_outstream
        &&& self.build_log_location@ == build_log_location
        &&& self.project_name@ == Self::name_for(project_name)
    }

    /// The build directory of the variant.
    pub open spec fn build_variant_path(&self) -> Seq<char> {
        joined_path(self.build_dir@, self.variant.name())
    }

    /// The install directory of the variant.
    pub open spec fn install_variant_path(&self) -> Seq<char> {
        joined_path(self.install_dir@, self.variant.name())
    }

    /// Puts a context together from the arguments, the settings and the three locations that
    /// depend on the workspace directory.
    pub fn assemble(
        args: CommandArgs,
        configure_args: StringMap,
        extra_args: StringMap,
        workspace_dir: String,
        project_name: Option<String>,
        build_dir: String,
        install_dir: String,
        build_log_location: String,
    ) -> (r: AppContext)
        ensures
            r.made_of(
                args,
                configure_args,
                extra_args,
                workspace_dir@,
                project_name,
                build_dir@,
                install_dir@,
                build_log_location@,
            ),
    {
        let generator = match args.generator {
            Some(generator) => generator,
            None => String::from_str(NINJA_GENERATOR),
        };
        let project_name = match project_name {
            Some(name) => name,
            None => String::from_str(UNNAMED_PROJECT),
        };
        AppContext {
            project_location: args.project_location,
            workspace_dir,
            build_dir,
            install_dir,
            variant: args.variant,
            configure_args,
            extra_args,
            generator,
            stages: args.stages,
            redirect_outstream: args.redirect_outstream,
            build_log_location,
            project_name,
        }
    }

    /// The context of a build: the build tree is `build` below the workspace directory, the
    /// install tree is `install` below it, and the build log stands in the build directory of
    /// the variant. A generator named on the command line replaces the default one.
    pub fn new(
        args: CommandArgs,
        configure_args: StringMap,
        extra_args: StringMap,
        workspace_dir: String,
        project_name: Option<String>,
    ) -> (r: AppContext)
        ensures
            r.made_of(
                args,
                configure_args,
                extra_args,
                workspace_dir@,
                project_name,
                joined_path(workspace_dir@, "build"@),
                joined_path(workspace_dir@, "install"@),
                joined_path(
                    joined_path(joined_path(workspace_dir@, "build"@), args.variant.name()),
                    BUILD_LOG_NAME@,
                ),
            ),
    {
        let build_location = join_path(workspace_dir.as_str(), "build");
        let install_location = join_path(workspace_dir.as_str(), "install");
        let build_variant = join_path(build_location.as_str(), args.variant.as_str());
        let build_log_path = join_path(build_variant.as_str(), BUILD_LOG_NAME);
        AppContext::assemble(
            args,
            configure_args,
            extra_args,
            workspace_dir,
            project_name,
            build_location,
            install_location,
            build_log_path,
        )
    }

    /// Whether `stage_value` was asked for.
    pub fn has_stage(&self, stage_value: Stage) -> (r: bool)
        ensures
            r == self.stages@.contains(stage_value),
    {
        let n: usize = self.stages.len();
        let mut i: usize = 0;
        while i < n
            invariant
                n == self.stages.len(),
                i <= n,
                forall|j: int| 0 <= j < i ==> self.stages@[j] != stage_value,
            decreases n - i,
        {
            if self.stages[i] == stage_value {
                return true;
            }
            i += 1;
        }
        false
    }

    /// Whether the output of the commands goes to the build log.
    pub fn captures_output(&self) -> (r: bool)
        ensures
            r == self.redirect_outstream.is_some(),
    {
        self.redirect_outstream.is_some()
    }

    /// The build directory of the variant.
    pub fn build_variant_dir(&self) -> (r: String)
        ensures
            r@ == self.build_variant_path(),
    {
        join_path(self.build_dir.as_str(), self.variant.as_str())
    }

    /// The install directory of the variant.
    pub fn install_variant_dir(&self) -> (r: String)
        ensures
            r@ == self.install_variant_path(),
    {
        join_path(self.install_dir.as_str(), self.variant.as_str())
    }

    /// Lets a build go on only where the workspace directory exists.
    pub fn workspace_guard(&self, exists: bool) -> (r: Result<(), BuildError>)
        ensures
            exists <==> r is Ok,
            !exists ==> r.unwrap_err().deep_view() == (crate::error::BuildErrorView::MissingWorkspace {
                path: self.workspace_dir@,
            }),
    {
        if exists {
            Ok(())
        } else {
            Err(BuildError::MissingWorkspace { path: self.workspace_dir.clone() })
        }
    }
}

} // verus!
