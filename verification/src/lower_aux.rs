//! Lowering of the auxiliary build steps: test drivers, bundles, the native
//! runtime, interface summaries, documentation and pre-build steps.

use vstd::pervasive::unreached;
use vstd::prelude::*;
use vstd::relations::sorted_by;

use crate::args::{copy_texts, has_run_at, no_texts, optional_text, push_arg, push_owned};
use crate::build_lower::{
    BuildCommand, BuildCommandView, BuildPlanLowerContext, BuildPlanNode, BuildTargetInfo,
    LowerError, ModuleSourceKind, PrebuildInfo, RemoteSource, ResolvedDependency, ResolvedNode,
};
use crate::bundle_core::{bundle_core_arguments, MooncBundleCore};
use crate::compiler::CmdlineAbstraction;
use crate::gen_test_driver::{DriverKind, MoonGenTestDriver, MoonGenTestDriverView};
use crate::model::{BuildTarget, TargetKind};
use crate::moondoc::{moondoc_arguments, MoondocCommand};
use crate::mooninfo::{mooninfo_arguments, Mooninfo};
use crate::path_order::{
    lemma_sorted_texts, lemma_sorted_texts_unique, sort_texts, sorted_texts, text_order,
};

verus! {

/// The view of an optional owned text.
pub open spec fn optional_string(value: Option<String>) -> Option<Seq<char>> {
    match value {
        Some(text) => Some(text@),
        None => None,
    }
}

/// A borrowed view of an optional owned text.
pub fn borrow_optional(value: &Option<String>) -> (text: Option<&str>)
    ensures
        optional_text(text) == optional_string(*value),
{
    match value {
        Some(text) => Some(text.as_str()),
        None => None,
    }
}

/// The files a test driver is generated from: the whitebox files for a
/// whitebox test, every file of the target for any other kind.
pub open spec fn driver_files(kind: TargetKind, info: &BuildTargetInfo) -> Seq<Seq<char>> {
    if kind is WhiteboxTest {
        info.whitebox_files.deep_view()
    } else {
        info.files.deep_view()
    }
}

/// Every dependency compiles a core artifact.
pub open spec fn all_build_core(dependencies: Seq<ResolvedDependency>) -> bool {
    forall|i: int| 0 <= i < dependencies.len() ==> (#[trigger] dependencies[i]).node is BuildCore
}

/// The artifacts of the dependencies, in the order of the dependencies.
pub open spec fn dependency_artifacts(dependencies: Seq<ResolvedDependency>) -> Seq<Seq<char>> {
    dependencies.map_values(|dependency: ResolvedDependency| dependency.artifact@)
}

/// The C compiler's output that a build asks for.
#[derive(Clone, Copy, Debug, PartialEq, Eq, Structural)]
pub enum CcOutputType {
    Object,
    SharedLib,
    Executable,
}

/// What the C compiler optimises for.
#[derive(Clone, Copy, Debug, PartialEq, Eq, Structural)]
pub enum CcOptLevel {
    Speed,
    Size,
    Debug,
    Off,
}

/// Settings of one C compiler invocation.
#[derive(Clone, Copy, Debug, PartialEq, Eq, Structural)]
pub struct CcConfig {
    pub no_sys_header: bool,
    pub output_ty: CcOutputType,
    pub opt_level: CcOptLevel,
    pub debug_info: bool,
    pub link_moonbitrun: bool,
    pub define_use_shared_runtime_macro: bool,
}

/// What the C toolchain is asked to make a command line of.
#[derive(Debug)]
pub struct CcInvocation {
    pub config: CcConfig,
    /// Flags passed through from the user.
    pub user_flags: Vec<String>,
    /// The files to compile.
    pub sources: Vec<String>,
    /// The directory that intermediate files go to.
    pub dest_dir: String,
    /// Where the result is written.
    pub output: String,
}

/// A `CcInvocation` as plain texts.
pub struct CcInvocationView {
    pub config: CcConfig,
    pub user_flags: Seq<Seq<char>>,
    pub sources: Seq<Seq<char>>,
    pub dest_dir: Seq<char>,
    pub output: Seq<char>,
}

impl View for CcInvocation {
    type V = CcInvocationView;

    open spec fn view(&self) -> CcInvocationView {
        CcInvocationView {
            config: self.config,
            user_flags: self.user_flags.deep_view(),
            sources: self.sources.deep_view(),
            dest_dir: self.dest_dir@,
            output: self.output@,
        }
    }
}

/// The settings the native runtime is compiled with: an object file,
/// optimised for speed, with debug information, without the system headers,
/// linked against the runtime itself and not against a shared one.
pub open spec fn runtime_cc_settings() -> CcConfig {
    CcConfig {
        no_sys_header: true,
        output_ty: CcOutputType::Object,
        opt_level: CcOptLevel::Speed,
        debug_info: true,
        link_moonbitrun: true,
        define_use_shared_runtime_macro: false,
    }
}

impl BuildPlanLowerContext {
    /// What the toolchain is asked for when the native runtime is compiled:
    /// the runtime's source alone, with the runtime's settings and no flags
    /// of the user's.
    pub open spec fn runtime_cc_request(&self, artifact_path: Seq<char>) -> CcInvocationView {
        CcInvocationView {
            config: runtime_cc_settings(),
            user_flags: seq![],
            sources: seq![self.opt.runtime_dot_c_path@],
            dest_dir: self.opt.target_dir_root@,
            output: artifact_path,
        }
    }

    /// The command that generates the driver of a test target.
    pub open spec fn gen_test_driver_command(
        &self,
        target: BuildTarget,
        info: &BuildTargetInfo,
        pkg_full_name: Seq<char>,
        output_driver: Seq<char>,
        output_metadata: Seq<char>,
    ) -> BuildCommandView
        recommends
            target.kind.is_test_kind(),
    {
        let files = driver_files(target.kind, info);
        BuildCommandView {
            commandline: seq!["moon"@] + (MoonGenTestDriverView {
                files,
                doctest_only_files: info.doctest_files.deep_view(),
                output_driver,
                output_metadata,
                bench: false,
                enable_coverage: self.opt.enable_coverage,
                coverage_package_override: None,
                driver_kind: DriverKind::of_target(target.kind)->0,
                target_backend: self.opt.target_backend@,
                patch_file: optional_string(info.patch_file),
                pkg_name: pkg_full_name,
            }).arguments(),
            extra_inputs: files,
        }
    }

    /// The command that bundles the given core artifacts: the artifacts are
    /// passed in lexicographic order, and nothing extra is tracked.
    pub open spec fn bundle_command(
        artifacts: Seq<Seq<char>>,
        output: Seq<char>,
    ) -> BuildCommandView {
        BuildCommandView {
            commandline: seq!["moonc"@] + bundle_core_arguments(sorted_texts(artifacts), output),
            extra_inputs: seq![],
        }
    }

    /// The command that compiles the native runtime: the C compiler
    /// invocation as the toolchain made it, tracking the runtime's source.
    pub open spec fn compile_runtime_command(
        &self,
        cc_command: Seq<Seq<char>>,
    ) -> BuildCommandView {
        BuildCommandView {
            commandline: cc_command,
            extra_inputs: seq![self.opt.runtime_dot_c_path@],
        }
    }

    /// The command that renders an interface summary.
    pub open spec fn generate_mbti_command(
        &self,
        mi_in: Seq<char>,
        out: Seq<char>,
    ) -> BuildCommandView {
        BuildCommandView {
            commandline: seq!["mooninfo"@] + mooninfo_arguments(
                mi_in,
                out,
                self.opt.info_no_alias,
            ),
            extra_inputs: seq![],
        }
    }

    /// The source root of the module whose documentation can be built: the
    /// one module in scope, if it is on the local disk.
    pub open spec fn docs_root(&self) -> Result<Seq<char>, LowerError> {
        match self.opt.main_module {
            None => Err(LowerError::NoMainModule),
            Some(ModuleSourceKind::Local(path)) => Ok(path@),
            Some(ModuleSourceKind::Registry) => Err(
                LowerError::RemoteDocsModule(RemoteSource::Registry),
            ),
            Some(ModuleSourceKind::Git) => Err(LowerError::RemoteDocsModule(RemoteSource::Git)),
            Some(ModuleSourceKind::Stdlib) => Err(
                LowerError::RemoteDocsModule(RemoteSource::Stdlib),
            ),
        }
    }

    /// The command that builds the documentation, tracking the package
    /// index.
    pub open spec fn build_docs_command(
        &self,
        doc_dir: Seq<char>,
        packages_json: Seq<char>,
    ) -> BuildCommandView
        recommends
            self.docs_root() is Ok,
    {
        BuildCommandView {
            commandline: seq!["moondoc"@] + moondoc_arguments(
                self.docs_root()->Ok_0,
                doc_dir,
                optional_string(self.opt.stdlib_path),
                packages_json,
                self.opt.docs_serve,
            ),
            extra_inputs: seq![packages_json],
        }
    }

    /// The command that runs a pre-build step: the step's command text, as
    /// it is, handed to the shell, tracking the step's inputs.
    pub open spec fn run_prebuild_command(info: &PrebuildInfo) -> BuildCommandView {
        BuildCommandView {
            commandline: seq!["sh"@, "-c"@, info.command@],
            extra_inputs: info.resolved_inputs.deep_view(),
        }
    }

    /// The invariant that a node breaks, if it breaks one.
    pub open spec fn lowering_error(&self, node: ResolvedNode) -> Option<LowerError> {
        match node {
            ResolvedNode::GenerateTestDriver { target, .. } => match target.kind {
                TargetKind::Source => Some(LowerError::SourceTestDriver),
                TargetKind::SubPackage => Some(LowerError::SubPackageTestDriver),
                _ => None,
            },
            ResolvedNode::Bundle { dependencies, .. } => if all_build_core(dependencies@) {
                None
            } else {
                Some(LowerError::BundleDependsOnNonCore)
            },
            ResolvedNode::BuildDocs { .. } => match self.docs_root() {
                Ok(_) => None,
                Err(error) => Some(error),
            },
            _ => None,
        }
    }

    /// The command of a node that breaks no invariant.
    pub open spec fn lowered(&self, node: ResolvedNode) -> BuildCommandView
        recommends
            self.lowering_error(node) is None,
    {
        match node {
            ResolvedNode::GenerateTestDriver {
                target,
                info,
                pkg_full_name,
                output_driver,
                output_metadata,
            } => self.gen_test_driver_command(
                target,
                info,
                pkg_full_name@,
                output_driver@,
                output_metadata@,
            ),
            ResolvedNode::Bundle { dependencies, output } => Self::bundle_command(
                dependency_artifacts(dependencies@),
                output@,
            ),
            ResolvedNode::BuildRuntimeLib { cc_command } => self.compile_runtime_command(
                cc_command.deep_view(),
            ),
            ResolvedNode::GenerateMbti { mi_in, out } => self.generate_mbti_command(mi_in@, out@),
            ResolvedNode::BuildDocs { doc_dir, packages_json } => self.build_docs_command(
                doc_dir@,
                packages_json@,
            ),
            ResolvedNode::RunPrebuild { prebuild } => Self::run_prebuild_command(prebuild),
        }
    }

    /// Lowers the generation of a test driver. The build plan asks for a
    /// driver of test targets only.
    pub fn lower_gen_test_driver(
        &self,
        target: BuildTarget,
        info: &BuildTargetInfo,
        pkg_full_name: &str,
        output_driver: &str,
        output_metadata: &str,
    ) -> (command: BuildCommand)
        requires
            target.kind.is_test_kind(),
        ensures
            command@ == self.gen_test_driver_command(
                target,
                info,
                pkg_full_name@,
                output_driver@,
                output_metadata@,
            ),
    {
        let driver_kind = match DriverKind::for_target(target.kind) {
            Some(driver_kind) => driver_kind,
            None => unreached(),
        };
        let files_vec = if target.kind == TargetKind::WhiteboxTest {
            copy_texts(info.whitebox_files.as_slice())
        } else {
            copy_texts(info.files.as_slice())
        };
        let cmd = MoonGenTestDriver {
            files: files_vec.as_slice(),
            doctest_only_files: info.doctest_files.as_slice(),
            output_driver,
            output_metadata,
            bench: false,
            enable_coverage: self.opt.enable_coverage,
            coverage_package_override: None,
            driver_kind,
            target_backend: &self.opt.target_backend,
            patch_file: borrow_optional(&info.patch_file),
            pkg_name: pkg_full_name,
        };
        let commandline = cmd.build_command("moon");
        proof {
            let files = driver_files(target.kind, info);
            assert(cmd@ == (MoonGenTestDriverView {
                files,
                doctest_only_files: info.doctest_files.deep_view(),
                output_driver: output_driver@,
                output_metadata: output_metadata@,
                bench: false,
                enable_coverage: self.opt.enable_coverage,
                coverage_package_override: None,
                driver_kind: DriverKind::of_target(target.kind)->0,
                target_backend: self.opt.target_backend@,
                patch_file: optional_string(info.patch_file),
                pkg_name: pkg_full_name@,
            }));
        }
        BuildCommand { commandline, extra_inputs: files_vec }
    }

    /// Whether every dependency compiles a core artifact, as a bundle's
    /// dependencies must.
    pub fn depends_on_cores_only(dependencies: &[ResolvedDependency]) -> (cores_only: bool)
        ensures
            cores_only == all_build_core(dependencies@),
    {
        let mut i: usize = 0;
        while i < dependencies.len()
            invariant
                i <= dependencies.len(),
                all_build_core(dependencies@.take(i as int)),
            decreases dependencies.len() - i,
        {
            match dependencies[i].node {
                BuildPlanNode::BuildCore(_) => {},
                _ => {
                    return false;
                },
            }
            i += 1;
        }
        assert(dependencies@.take(i as int) =~= dependencies@);
        true
    }

    /// Lowers the bundling of a module. The build plan lets a bundle depend
    /// on compiled cores only.
    pub fn lower_bundle(&self, dependencies: &[ResolvedDependency], output: &str) -> (command:
        BuildCommand)
        requires
            all_build_core(dependencies@),
        ensures
            command@ == Self::bundle_command(dependency_artifacts(dependencies@), output@),
    {
        let mut inputs: Vec<String> = Vec::new();
        let mut i: usize = 0;
        while i < dependencies.len()
            invariant
                i <= dependencies.len(),
                inputs.deep_view() == dependency_artifacts(dependencies@.take(i as int)),
            decreases dependencies.len() - i,
        {
            push_arg(&mut inputs, dependencies[i].artifact.as_str());
            assert(inputs.deep_view() =~= dependency_artifacts(dependencies@.take(i + 1)));
            i += 1;
        }
        assert(dependencies@.take(i as int) =~= dependencies@);
        let sorted = sort_texts(inputs.as_slice());
        let cmd = MooncBundleCore::new(sorted.as_slice(), output);
        BuildCommand { commandline: cmd.build_command("moonc"), extra_inputs: no_texts() }
    }

    /// The settings the native runtime is compiled with.
    pub fn runtime_cc_config() -> (config: CcConfig)
        ensures
            config == runtime_cc_settings(),
    {
        CcConfig {
            no_sys_header: true,
            output_ty: CcOutputType::Object,
            opt_level: CcOptLevel::Speed,
            debug_info: true,
            link_moonbitrun: true,
            define_use_shared_runtime_macro: false,
        }
    }

    /// What to ask the C toolchain for, to compile the native runtime into
    /// `artifact_path`.
    pub fn runtime_cc_invocation(&self, artifact_path: &str) -> (invocation: CcInvocation)
        ensures
            invocation@ == self.runtime_cc_request(artifact_path@),
    {
        let mut sources: Vec<String> = Vec::new();
        push_arg(&mut sources, self.opt.runtime_dot_c_path.as_str());
        assert(sources.deep_view() =~= seq![self.opt.runtime_dot_c_path@]);
        CcInvocation {
            config: Self::runtime_cc_config(),
            user_flags: no_texts(),
            sources,
            dest_dir: self.opt.target_dir_root.clone(),
            output: String::from_str(artifact_path),
        }
    }

    /// Lowers the compilation of the native runtime, given the command line
    /// that the C toolchain made of `runtime_cc_invocation`.
    pub fn lower_compile_runtime(&self, cc_command: &[String]) -> (command: BuildCommand)
        ensures
            command@ == self.compile_runtime_command(cc_command.deep_view()),
    {
        let mut extra_inputs: Vec<String> = Vec::new();
        push_arg(&mut extra_inputs, self.opt.runtime_dot_c_path.as_str());
        assert(extra_inputs.deep_view() =~= seq![self.opt.runtime_dot_c_path@]);
        BuildCommand { commandline: copy_texts(cc_command), extra_inputs }
    }

    /// Lowers the rendering of an interface summary.
    pub fn lower_generate_mbti(&self, mi_in: &str, out: &str) -> (command: BuildCommand)
        ensures
            command@ == self.generate_mbti_command(mi_in@, out@),
    {
        let cmd = Mooninfo { mi_in, out, no_alias: self.opt.info_no_alias };
        BuildCommand { commandline: cmd.build_command("mooninfo"), extra_inputs: no_texts() }
    }

    /// The source root of the module whose documentation is asked for, or
    /// why there is none.
    pub fn docs_source_root(&self) -> (root: Result<&str, LowerError>)
        ensures
            match root {
                Ok(path) => self.docs_root() == Ok::<Seq<char>, LowerError>(path@),
                Err(error) => self.docs_root() == Err::<Seq<char>, LowerError>(error),
            },
    {
        match &self.opt.main_module {
            None => Err(LowerError::NoMainModule),
            Some(ModuleSourceKind::Local(path)) => Ok(path.as_str()),
            Some(ModuleSourceKind::Registry) => Err(
                LowerError::RemoteDocsModule(RemoteSource::Registry),
            ),
            Some(ModuleSourceKind::Git) => Err(LowerError::RemoteDocsModule(RemoteSource::Git)),
            Some(ModuleSourceKind::Stdlib) => Err(
                LowerError::RemoteDocsModule(RemoteSource::Stdlib),
            ),
        }
    }

    /// Lowers the build of the documentation. The build plan asks for it
    /// only with one module in scope, on the local disk.
    pub fn lower_build_docs(&self, doc_dir: &str, packages_json: &str) -> (command: BuildCommand)
        requires
            self.docs_root() is Ok,
        ensures
            command@ == self.build_docs_command(doc_dir@, packages_json@),
    {
        let path = match self.docs_source_root() {
            Ok(path) => path,
            Err(_) => unreached(),
        };
        let cmd = MoondocCommand::new(
            path,
            doc_dir,
            borrow_optional(&self.opt.stdlib_path),
            packages_json,
            self.opt.docs_serve,
        );
        let mut extra_inputs: Vec<String> = Vec::new();
        push_arg(&mut extra_inputs, packages_json);
        assert(extra_inputs.deep_view() =~= seq![packages_json@]);
        BuildCommand { commandline: cmd.build_command("moondoc"), extra_inputs }
    }

    /// Lowers one pre-build step.
    pub fn lower_run_prebuild(&self, info: &PrebuildInfo) -> (command: BuildCommand)
        ensures
            command@ == Self::run_prebuild_command(info),
    {
        let mut commandline: Vec<String> = Vec::new();
        push_arg(&mut commandline, "sh");
        push_arg(&mut commandline, "-c");
        push_owned(&mut commandline, info.command.clone());
        assert(commandline.deep_view() =~= seq!["sh"@, "-c"@, info.command@]);
        BuildCommand { commandline, extra_inputs: copy_texts(info.resolved_inputs.as_slice()) }
    }

    /// Lowers a node: its command, or the invariant that the node breaks.
    pub fn lower(&self, node: &ResolvedNode) -> (result: Result<BuildCommand, LowerError>)
        ensures
            match result {
                Ok(command) => self.lowering_error(*node) is None && command@ == self.lowered(
                    *node,
                ),
                Err(error) => self.lowering_error(*node) == Some(error),
            },
    {
        match node {
            ResolvedNode::GenerateTestDriver {
                target,
                info,
                pkg_full_name,
                output_driver,
                output_metadata,
            } => {
                match target.kind {
                    TargetKind::Source => Err(LowerError::SourceTestDriver),
                    TargetKind::SubPackage => Err(LowerError::SubPackageTestDriver),
                    _ => Ok(
                        self.lower_gen_test_driver(
                            *target,
                            info,
                            pkg_full_name,
                            output_driver,
                            output_metadata,
                        ),
                    ),
                }
            },
            ResolvedNode::Bundle { dependencies, output } => {
                if Self::depends_on_cores_only(dependencies) {
                    Ok(self.lower_bundle(dependencies, output))
                } else {
                    Err(LowerError::BundleDependsOnNonCore)
                }
            },
            ResolvedNode::BuildRuntimeLib { cc_command } => Ok(
                self.lower_compile_runtime(cc_command),
            ),
            ResolvedNode::GenerateMbti { mi_in, out } => Ok(self.lower_generate_mbti(mi_in, out)),
            ResolvedNode::BuildDocs { doc_dir, packages_json } => {
                match self.docs_source_root() {
                    Ok(_) => Ok(self.lower_build_docs(doc_dir, packages_json)),
                    Err(error) => Err(error),
                }
            },
            ResolvedNode::RunPrebuild { prebuild } => Ok(self.lower_run_prebuild(prebuild)),
        }
    }
}

/// A test driver is generated for the three kinds of test and for nothing
/// else; a whitebox test is driven from its whitebox files, every other test
/// from all the files of its target, and the driver is stale exactly when
/// one of those files changes.
pub proof fn lemma_test_driver_lowering(context: BuildPlanLowerContext, node: ResolvedNode)
    requires
        node is GenerateTestDriver,
    ensures
        ({
            let kind = node->target.kind;
            let info = node->GenerateTestDriver_info;
            let command = context.lowered(node);
            &&& kind is Source ==> context.lowering_error(node) == Some(
                LowerError::SourceTestDriver,
            )
            &&& kind is SubPackage ==> context.lowering_error(node) == Some(
                LowerError::SubPackageTestDriver,
            )
            &&& kind.is_test_kind() ==> context.lowering_error(node) is None
            &&& kind is WhiteboxTest ==> command.extra_inputs == info.whitebox_files.deep_view()
            &&& !(kind is WhiteboxTest) ==> command.extra_inputs == info.files.deep_view()
            &&& has_run_at(command.commandline, 2, command.extra_inputs)
        }),
{
    let command = context.lowered(node);
    let files = command.extra_inputs;
    assert forall|i: int| 0 <= i < files.len() implies #[trigger] command.commandline[2 + i]
        == files[i] by {}
}

/// The artifacts of a bundle are passed in lexicographic order, each as
/// often as it was given, between the subcommand and the output.
pub proof fn lemma_bundle_inputs_are_sorted(artifacts: Seq<Seq<char>>, output: Seq<char>)
    ensures
        ({
            let commandline = BuildPlanLowerContext::bundle_command(artifacts, output).commandline;
            let count = artifacts.len() as int;
            let inputs = commandline.subrange(2, 2 + count);
            &&& commandline.len() == count + 4
            &&& commandline[0] == "moonc"@
            &&& commandline[1] == "bundle-core"@
            &&& inputs == sorted_texts(artifacts)
            &&& sorted_by(inputs, text_order())
            &&& inputs.to_multiset() == artifacts.to_multiset()
            &&& commandline[2 + count] == "-o"@
            &&& commandline[3 + count] == output
        }),
{
    lemma_sorted_texts(artifacts);
    let commandline = BuildPlanLowerContext::bundle_command(artifacts, output).commandline;
    assert(commandline.subrange(2, 2 + artifacts.len() as int) =~= sorted_texts(artifacts));
}

/// The order in which the dependencies of a bundle are found leaves no
/// trace: the same artifacts, in any order, give the same command.
pub proof fn lemma_bundle_ignores_dependency_order(
    first: Seq<ResolvedDependency>,
    second: Seq<ResolvedDependency>,
    output: Seq<char>,
)
    requires
        dependency_artifacts(first).to_multiset() == dependency_artifacts(second).to_multiset(),
    ensures
        BuildPlanLowerContext::bundle_command(dependency_artifacts(first), output)
            == BuildPlanLowerContext::bundle_command(dependency_artifacts(second), output),
{
    lemma_sorted_texts(dependency_artifacts(second));
    lemma_sorted_texts_unique(
        dependency_artifacts(first),
        sorted_texts(dependency_artifacts(second)),
    );
}

/// Documentation is built for a local module only: a module from a
/// registry, a repository or the standard library is refused, with a
/// message that ends in the name of that kind of source.
pub proof fn lemma_docs_need_a_local_module(context: BuildPlanLowerContext, node: ResolvedNode)
    requires
        node is BuildDocs,
    ensures
        context.lowering_error(node) is None <==> context.opt.main_module matches Some(
            ModuleSourceKind::Local(_),
        ),
        forall|source: ModuleSourceKind, remote: RemoteSource|
            context.opt.main_module == Some(source) && source.remote() == Some(remote) ==> {
                &&& context.lowering_error(node) == Some(LowerError::RemoteDocsModule(remote))
                &&& LowerError::RemoteDocsModule(remote).message_text()
                    == "Remote modules for docs are not supported: "@ + remote.name()
            },
        context.opt.main_module is None ==> context.lowering_error(node) == Some(
            LowerError::NoMainModule,
        ),
{
}

} // verus!
