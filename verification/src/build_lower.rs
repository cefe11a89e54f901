//! What lowering takes and what it gives: a build-plan node with everything
//! resolved for it goes in, one exact external command comes out.

use vstd::prelude::*;

use crate::model::{BuildTarget, ModuleId, PackageId, TargetBackend};

verus! {

/// An external process invocation, and the files beyond its primary sources
/// whose change makes it stale.
#[derive(Debug)]
pub struct BuildCommand {
    /// The argument vector, executable first.
    pub commandline: Vec<String>,
    /// The extra files to track.
    pub extra_inputs: Vec<String>,
}

/// A `BuildCommand` as plain texts.
pub struct BuildCommandView {
    pub commandline: Seq<Seq<char>>,
    pub extra_inputs: Seq<Seq<char>>,
}

impl View for BuildCommand {
    type V = BuildCommandView;

    open spec fn view(&self) -> BuildCommandView {
        BuildCommandView {
            commandline: self.commandline.deep_view(),
            extra_inputs: self.extra_inputs.deep_view(),
        }
    }
}

/// One unit of work in the build plan.
#[derive(Clone, Copy, Debug, PartialEq, Eq, Structural)]
pub enum BuildPlanNode {
    /// Type-check a target.
    Check(BuildTarget),
    /// Compile a target into its core artifact.
    BuildCore(BuildTarget),
    /// Link a target's core artifacts.
    LinkCore(BuildTarget),
    /// Generate the driver of a test target.
    GenerateTestDriver(BuildTarget),
    /// Render the interface summary of a target.
    GenerateMbti(BuildTarget),
    /// Bundle the core artifacts of a module.
    Bundle(ModuleId),
    /// Compile the native runtime.
    BuildRuntimeLib,
    /// Build the documentation.
    BuildDocs,
    /// Run one pre-build step of a package.
    RunPrebuild(PackageId, u32),
}

/// A node that another node depends on, with the artifact that the layout
/// assigns to it.
#[derive(Debug)]
pub struct ResolvedDependency {
    pub node: BuildPlanNode,
    pub artifact: String,
}

/// The files resolved for one target.
#[derive(Debug)]
pub struct BuildTargetInfo {
    /// Every file of the target.
    pub files: Vec<String>,
    /// The files of its whitebox tests.
    pub whitebox_files: Vec<String>,
    /// The files read for their doctests only.
    pub doctest_files: Vec<String>,
    /// A patch to apply to the sources.
    pub patch_file: Option<String>,
}

/// One pre-build step, resolved: the shell command to run and the files it
/// reads.
#[derive(Debug)]
pub struct PrebuildInfo {
    pub command: String,
    pub resolved_inputs: Vec<String>,
}

/// A place other than the local disk that a module can come from.
#[derive(Clone, Copy, Debug, PartialEq, Eq, Structural)]
pub enum RemoteSource {
    Registry,
    Git,
    Stdlib,
}

impl RemoteSource {
    /// The name of the kind of source.
    pub open spec fn name(self) -> Seq<char> {
        match self {
            RemoteSource::Registry => "registry"@,
            RemoteSource::Git => "git"@,
            RemoteSource::Stdlib => "stdlib"@,
        }
    }

    /// The name of the kind of source.
    pub fn as_str(self) -> (text: &'static str)
        ensures
            text@ == self.name(),
    {
        match self {
            RemoteSource::Registry => "registry",
            RemoteSource::Git => "git",
            RemoteSource::Stdlib => "stdlib",
        }
    }
}

/// Where a module's sources come from.
#[derive(Debug)]
pub enum ModuleSourceKind {
    /// A directory on the local disk.
    Local(String),
    /// A package registry.
    Registry,
    /// A version-control repository.
    Git,
    /// The standard library.
    Stdlib,
}

impl ModuleSourceKind {
    /// The remote kind of a source that is not local.
    pub open spec fn remote(&self) -> Option<RemoteSource> {
        match self {
            ModuleSourceKind::Local(_) => None,
            ModuleSourceKind::Registry => Some(RemoteSource::Registry),
            ModuleSourceKind::Git => Some(RemoteSource::Git),
            ModuleSourceKind::Stdlib => Some(RemoteSource::Stdlib),
        }
    }
}

/// A request that the build plan must never make. Lowering cannot go on
/// after one: whoever drives it stops with the message.
#[derive(Clone, Copy, Debug, PartialEq, Eq, Structural)]
pub enum LowerError {
    /// A test driver was asked for a source target.
    SourceTestDriver,
    /// A test driver was asked for a sub-package.
    SubPackageTestDriver,
    /// A bundle depends on a node that compiles no core artifact.
    BundleDependsOnNonCore,
    /// Documentation was asked for without exactly one module in scope.
    NoMainModule,
    /// Documentation was asked for a module that is not on the local disk.
    RemoteDocsModule(RemoteSource),
}

impl LowerError {
    /// The message that names the broken invariant.
    pub open spec fn message_text(self) -> Seq<char> {
        match self {
            LowerError::SourceTestDriver => "Source package cannot be a test driver"@,
            LowerError::SubPackageTestDriver => "Sub-package cannot be a test driver"@,
            LowerError::BundleDependsOnNonCore => "Bundle node can only depend on BuildCore nodes"@,
            LowerError::NoMainModule =>
                "Currently only one module in the workspace is supported."@,
            LowerError::RemoteDocsModule(source) => "Remote modules for docs are not supported: "@
                + source.name(),
        }
    }

    /// The message that names the broken invariant.
    pub fn message(&self) -> (text: String)
        ensures
            text@ == self.message_text(),
    {
        match self {
            LowerError::SourceTestDriver => String::from_str(
                "Source package cannot be a test driver",
            ),
            LowerError::SubPackageTestDriver => String::from_str(
                "Sub-package cannot be a test driver",
            ),
            LowerError::BundleDependsOnNonCore => String::from_str(
                "Bundle node can only depend on BuildCore nodes",
            ),
            LowerError::NoMainModule => String::from_str(
                "Currently only one module in the workspace is supported.",
            ),
            LowerError::RemoteDocsModule(source) => {
                let mut text = String::from_str("Remote modules for docs are not supported: ");
                text.append(source.as_str());
                text
            },
        }
    }
}

/// The options of one build that lowering reads.
#[derive(Debug)]
pub struct LowerOptions {
    /// The backend everything is built for.
    pub target_backend: TargetBackend,
    /// Instrument tests for coverage.
    pub enable_coverage: bool,
    /// Spell out names in interface summaries.
    pub info_no_alias: bool,
    /// Build documentation for the documentation server.
    pub docs_serve: bool,
    /// The standard library, if the build uses one.
    pub stdlib_path: Option<String>,
    /// The source file of the native runtime.
    pub runtime_dot_c_path: String,
    /// The root of the directory that everything is built into.
    pub target_dir_root: String,
    /// The source of the one module in scope, if there is exactly one.
    pub main_module: Option<ModuleSourceKind>,
}

/// Everything that lowering knows beyond the node it is given.
#[derive(Debug)]
pub struct BuildPlanLowerContext {
    pub opt: LowerOptions,
}

/// A build-plan node of one of the kinds lowered here, together with what
/// was resolved for it: its files, the paths the layout assigns to it, and
/// what it depends on.
#[derive(Clone, Copy, Debug)]
pub enum ResolvedNode<'a> {
    GenerateTestDriver {
        target: BuildTarget,
        info: &'a BuildTargetInfo,
        /// The full name of the tested package.
        pkg_full_name: &'a str,
        /// Where the driver source is written.
        output_driver: &'a str,
        /// Where the test metadata is written.
        output_metadata: &'a str,
    },
    Bundle {
        /// The nodes that the bundle depends on directly.
        dependencies: &'a [ResolvedDependency],
        /// Where the bundle is written.
        output: &'a str,
    },
    BuildRuntimeLib {
        /// The command line that the C toolchain made of
        /// `BuildPlanLowerContext::runtime_cc_invocation`.
        cc_command: &'a [String],
    },
    GenerateMbti {
        /// The compiled interface of the target.
        mi_in: &'a str,
        /// Where the summary is written.
        out: &'a str,
    },
    BuildDocs {
        /// Where the documentation is written.
        doc_dir: &'a str,
        /// The generated index of the module's packages.
        packages_json: &'a str,
    },
    RunPrebuild {
        /// The step, resolved.
        prebuild: &'a PrebuildInfo,
    },
}

} // verus!
