//! The flag rules that the build-like commands of the package compiler
//! share. Each rule appends one fragment, whole or not at all; the command
//! assemblers decide which rules apply and in what order.

use vstd::prelude::*;

use crate::args::{
    absent, colon_pair, flag_if, flagged_each, has_no_colon, has_run_at, join_colon,
    lemma_absent_concat, lemma_absent_flag_if, lemma_absent_flagged_each,
    lemma_absent_pair_if_some, lemma_colon_pair_has_a_colon, lemma_flagged_each_layout,
    optional_text, pair_if_some, push_all, push_arg, push_each_flagged, push_flag_if,
    push_optional_pair, push_pair, push_pair_owned,
};
use crate::compiler::{
    CompiledPackageName, ErrorFormat, MiDependency, VirtualPackageImplementation,
    WarnAlertConfig, MOONC_ALLOW_ALERT_SET, MOONC_ALLOW_WARNING_SET, MOONC_DENY_ALERT_SET,
    MOONC_DENY_WARNING_SET,
};
use crate::model::{TargetBackend, TargetKind};

verus! {

/// The values of the `-i` arguments of a list of interface dependencies.
pub open spec fn alias_args(deps: Seq<MiDependency>) -> Seq<Seq<char>> {
    deps.map_values(|dep: MiDependency| dep.alias_arg())
}

/// What every build-like command must be told; nothing here has a default.
#[derive(Clone, Copy, Debug)]
pub struct BuildCommonInput<'a> {
    /// Regular input files.
    pub mbt_sources: &'a [String],
    /// Files read for their doctests only.
    pub doctest_only_sources: &'a [String],
    /// Interfaces to resolve names against, in resolution order.
    pub mi_deps: &'a [MiDependency<'a>],
    /// The name of the package being built.
    pub package_name: CompiledPackageName<'a>,
    /// The directory its sources live in.
    pub package_source: &'a str,
    /// The backend to compile for.
    pub target_backend: &'a TargetBackend,
    /// What kind of target this is.
    pub target_kind: TargetKind,
}

impl<'a> BuildCommonInput<'a> {
    /// The source files, as bare arguments in input order.
    pub open spec fn mbt_sources_args(&self) -> Seq<Seq<char>> {
        self.mbt_sources.deep_view()
    }

    /// One `-doctest-only <path>` per doctest-only file.
    pub open spec fn doctest_only_args(&self) -> Seq<Seq<char>> {
        flagged_each("-doctest-only"@, self.doctest_only_sources.deep_view())
    }

    /// One `-i <path>:<alias>` per interface dependency, in the order given.
    pub open spec fn mi_dependency_args(&self) -> Seq<Seq<char>> {
        flagged_each("-i"@, alias_args(self.mi_deps@))
    }

    /// `-pkg <name>`.
    pub open spec fn package_config_args(&self) -> Seq<Seq<char>> {
        seq!["-pkg"@, self.package_name@]
    }

    /// `-pkg-sources <name>:<dir>`.
    pub open spec fn package_sources_args(&self) -> Seq<Seq<char>> {
        seq!["-pkg-sources"@, colon_pair(self.package_name@, self.package_source@)]
    }

    /// `-target <backend>`.
    pub open spec fn target_backend_args(&self) -> Seq<Seq<char>> {
        seq!["-target"@, self.target_backend@]
    }

    /// The test flag of the target kind; a blackbox test also takes in the
    /// doctests.
    pub open spec fn test_args(&self) -> Seq<Seq<char>> {
        match self.target_kind {
            TargetKind::WhiteboxTest => seq!["-whitebox-test"@],
            TargetKind::BlackboxTest => seq!["-blackbox-test"@, "-include-doctests"@],
            TargetKind::Source | TargetKind::InlineTest | TargetKind::SubPackage => seq![],
        }
    }

    /// `-test-mode` for every kind of test.
    pub open spec fn test_mode_args(&self) -> Seq<Seq<char>> {
        flag_if(self.target_kind.is_test_kind(), "-test-mode"@)
    }

    /// `-include-doctests` for a blackbox test, with no kind flag.
    pub open spec fn include_doctests_args(&self) -> Seq<Seq<char>> {
        flag_if(self.target_kind is BlackboxTest, "-include-doctests"@)
    }

    /// The test flag of the target kind alone.
    pub open spec fn test_kind_args(&self) -> Seq<Seq<char>> {
        match self.target_kind {
            TargetKind::WhiteboxTest => seq!["-whitebox-test"@],
            TargetKind::BlackboxTest => seq!["-blackbox-test"@],
            TargetKind::Source | TargetKind::InlineTest | TargetKind::SubPackage => seq![],
        }
    }

    /// The required part, from its parts.
    pub fn new(
        mbt_sources: &'a [String],
        doctest_only_sources: &'a [String],
        mi_deps: &'a [MiDependency<'a>],
        package_name: CompiledPackageName<'a>,
        package_source: &'a str,
        target_backend: &'a TargetBackend,
        target_kind: TargetKind,
    ) -> (input: Self)
        ensures
            input == (BuildCommonInput {
                mbt_sources,
                doctest_only_sources,
                mi_deps,
                package_name,
                package_source,
                target_backend,
                target_kind,
            }),
    {
        BuildCommonInput {
            mbt_sources,
            doctest_only_sources,
            mi_deps,
            package_name,
            package_source,
            target_backend,
            target_kind,
        }
    }

    /// Appends the source files.
    pub fn add_mbt_sources(&self, args: &mut Vec<String>)
        ensures
            final(args).deep_view() == old(args).deep_view() + self.mbt_sources_args(),
    {
        push_all(args, self.mbt_sources);
    }

    /// Appends the doctest-only files.
    pub fn add_doctest_only_sources(&self, args: &mut Vec<String>)
        ensures
            final(args).deep_view() == old(args).deep_view() + self.doctest_only_args(),
    {
        push_each_flagged(args, "-doctest-only", self.doctest_only_sources);
    }

    /// Appends the interface dependencies.
    pub fn add_mi_dependencies(&self, args: &mut Vec<String>)
        ensures
            final(args).deep_view() == old(args).deep_view() + self.mi_dependency_args(),
    {
        let mut i: usize = 0;
        while i < self.mi_deps.len()
            invariant
                i <= self.mi_deps.len(),
                args.deep_view() == old(args).deep_view() + flagged_each(
                    "-i"@,
                    alias_args(self.mi_deps@.take(i as int)),
                ),
            decreases self.mi_deps.len() - i,
        {
            push_pair_owned(args, "-i", self.mi_deps[i].to_alias_arg());
            proof {
                let next = alias_args(self.mi_deps@.take(i + 1));
                assert(next.drop_last() =~= alias_args(self.mi_deps@.take(i as int)));
                assert(next.last() == self.mi_deps@[i as int].alias_arg());
                assert(args.deep_view() =~= old(args).deep_view() + flagged_each("-i"@, next));
            }
            i += 1;
        }
        assert(self.mi_deps@.take(i as int) =~= self.mi_deps@);
    }

    /// Appends the package's name.
    pub fn add_package_config(&self, args: &mut Vec<String>)
        ensures
            final(args).deep_view() == old(args).deep_view() + self.package_config_args(),
    {
        push_pair_owned(args, "-pkg", self.package_name.to_string());
    }

    /// Appends where the package's sources live.
    pub fn add_package_sources(&self, args: &mut Vec<String>)
        ensures
            final(args).deep_view() == old(args).deep_view() + self.package_sources_args(),
    {
        let name = self.package_name.to_string();
        push_pair_owned(args, "-pkg-sources", join_colon(name.as_str(), self.package_source));
    }

    /// Appends the backend.
    pub fn add_target_backend(&self, args: &mut Vec<String>)
        ensures
            final(args).deep_view() == old(args).deep_view() + self.target_backend_args(),
    {
        push_pair(args, "-target", self.target_backend.to_flag());
    }

    /// Appends the test flag of the target kind, with the doctests of a
    /// blackbox test.
    pub fn add_test_args(&self, args: &mut Vec<String>)
        ensures
            final(args).deep_view() == old(args).deep_view() + self.test_args(),
    {
        match self.target_kind {
            TargetKind::WhiteboxTest => push_arg(args, "-whitebox-test"),
            TargetKind::BlackboxTest => {
                push_arg(args, "-blackbox-test");
                push_arg(args, "-include-doctests");
            },
            TargetKind::Source | TargetKind::InlineTest | TargetKind::SubPackage => {},
        }
        assert(args.deep_view() =~= old(args).deep_view() + self.test_args());
    }

    /// Appends `-test-mode` for a test.
    pub fn add_test_mode_args(&self, args: &mut Vec<String>)
        ensures
            final(args).deep_view() == old(args).deep_view() + self.test_mode_args(),
    {
        push_flag_if(args, self.target_kind.is_test(), "-test-mode");
    }

    /// Appends `-include-doctests` for a blackbox test.
    pub fn add_include_doctests_if_blackbox(&self, args: &mut Vec<String>)
        ensures
            final(args).deep_view() == old(args).deep_view() + self.include_doctests_args(),
    {
        let blackbox = matches!(self.target_kind, TargetKind::BlackboxTest);
        push_flag_if(args, blackbox, "-include-doctests");
    }

    /// Appends the test flag of the target kind alone.
    pub fn add_test_kind_flags(&self, args: &mut Vec<String>)
        ensures
            final(args).deep_view() == old(args).deep_view() + self.test_kind_args(),
    {
        match self.target_kind {
            TargetKind::WhiteboxTest => push_arg(args, "-whitebox-test"),
            TargetKind::BlackboxTest => push_arg(args, "-blackbox-test"),
            _ => {},
        }
        assert(args.deep_view() =~= old(args).deep_view() + self.test_kind_args());
    }
}

/// What a build-like command may be told; everything here has a default.
#[derive(Clone, Copy, Debug)]
pub struct BuildCommonConfig<'a> {
    /// How diagnostics are reported.
    pub error_format: ErrorFormat,
    /// Turn all warnings and alerts into errors.
    pub deny_warn: bool,
    /// The policy for warnings.
    pub warn_config: WarnAlertConfig<'a>,
    /// The policy for alerts.
    pub alert_config: WarnAlertConfig<'a>,
    /// The package holds the program's entry point.
    pub is_main: bool,
    /// The standard library's core artifact; `None` builds without one.
    pub stdlib_core_file: Option<&'a str>,
    /// The directory of the enclosing workspace.
    pub workspace_root: Option<&'a str>,
    /// The interface of the virtual package that this package declares.
    pub check_mi: Option<&'a str>,
    /// The virtual package that this package implements.
    pub virtual_implementation: Option<VirtualPackageImplementation<'a>>,
    /// A patch to apply to the sources.
    pub patch_file: Option<&'a str>,
    /// Write no interface file.
    pub no_mi: bool,
}

impl<'a> Default for BuildCommonConfig<'a> {
    /// The permissive minimum.
    fn default() -> (config: Self)
        ensures
            config.is_minimal(),
    {
        BuildCommonConfig {
            error_format: ErrorFormat::Regular,
            deny_warn: false,
            warn_config: WarnAlertConfig::Default,
            alert_config: WarnAlertConfig::Default,
            is_main: false,
            stdlib_core_file: None,
            workspace_root: None,
            check_mi: None,
            virtual_implementation: None,
            patch_file: None,
            no_mi: false,
        }
    }
}

/// `flag` followed by the list, when the policy is an explicit list.
pub open spec fn custom_list_args(flag: Seq<char>, config: WarnAlertConfig) -> Seq<Seq<char>> {
    match config {
        WarnAlertConfig::List(list) => seq![flag, list@],
        _ => seq![],
    }
}

/// `flag` followed by `token`, when the policy is to allow everything.
pub open spec fn allow_all_args(
    flag: Seq<char>,
    token: Seq<char>,
    config: WarnAlertConfig,
) -> Seq<Seq<char>> {
    match config {
        WarnAlertConfig::AllowAll => seq![flag, token],
        _ => seq![],
    }
}

impl<'a> BuildCommonConfig<'a> {
    /// The permissive minimum: regular diagnostics, nothing denied, not a
    /// main package, no standard library, no workspace, nothing virtual, no
    /// patch, and an interface file is written.
    pub open spec fn is_minimal(&self) -> bool {
        &&& self.error_format is Regular
        &&& !self.deny_warn
        &&& self.warn_config is Default
        &&& self.alert_config is Default
        &&& !self.is_main
        &&& self.stdlib_core_file is None
        &&& self.workspace_root is None
        &&& self.check_mi is None
        &&& self.virtual_implementation is None
        &&& self.patch_file is None
        &&& !self.no_mi
    }

    /// `-error-format json` for JSON diagnostics; the regular format is the
    /// compiler's default and takes no flag.
    pub open spec fn error_format_args(&self) -> Seq<Seq<char>> {
        if self.error_format is Json {
            seq!["-error-format"@, "json"@]
        } else {
            seq![]
        }
    }

    /// `-w <list>` and `-alert <list>`, each only for an explicit list.
    pub open spec fn custom_warn_alert_args(&self) -> Seq<Seq<char>> {
        custom_list_args("-w"@, self.warn_config) + custom_list_args("-alert"@, self.alert_config)
    }

    /// `-is-main` for a main package.
    pub open spec fn is_main_args(&self) -> Seq<Seq<char>> {
        flag_if(self.is_main, "-is-main"@)
    }

    /// `-std-path <path>` when a standard library is set.
    pub open spec fn stdlib_path_args(&self) -> Seq<Seq<char>> {
        pair_if_some("-std-path"@, optional_text(self.stdlib_core_file))
    }

    /// `-check-mi <path>` when the package declares a virtual package.
    pub open spec fn virtual_package_check_args(&self) -> Seq<Seq<char>> {
        pair_if_some("-check-mi"@, optional_text(self.check_mi))
    }

    /// The deny-all pair for warnings and the one for alerts, when
    /// `deny_warn` is set, whatever the two policies say.
    pub open spec fn deny_all_args(&self) -> Seq<Seq<char>> {
        if self.deny_warn {
            seq!["-w"@, MOONC_DENY_WARNING_SET@, "-alert"@, MOONC_DENY_ALERT_SET@]
        } else {
            seq![]
        }
    }

    /// `-w` and `-alert` with their allow-all tokens, each only for an
    /// allow-all policy, whatever `deny_warn` says.
    pub open spec fn warn_alert_allow_all_args(&self) -> Seq<Seq<char>> {
        allow_all_args("-w"@, MOONC_ALLOW_WARNING_SET@, self.warn_config) + allow_all_args(
            "-alert"@,
            MOONC_ALLOW_ALERT_SET@,
            self.alert_config,
        )
    }

    /// `-check-mi <mi> -pkg-sources <name>:<path>` when the package
    /// implements a virtual package: the form for checking.
    pub open spec fn virtual_implementation_check_args(&self) -> Seq<Seq<char>> {
        match self.virtual_implementation {
            Some(implementation) => seq![
                "-check-mi"@,
                implementation.mi_path@,
                "-pkg-sources"@,
                implementation.sources_arg(),
            ],
            None => seq![],
        }
    }

    /// `-check-mi <mi> -impl-virtual -pkg-sources <name>:<path>` when the
    /// package implements a virtual package: the form for building.
    pub open spec fn virtual_implementation_build_args(&self) -> Seq<Seq<char>> {
        match self.virtual_implementation {
            Some(implementation) => seq![
                "-check-mi"@,
                implementation.mi_path@,
                "-impl-virtual"@,
                "-pkg-sources"@,
                implementation.sources_arg(),
            ],
            None => seq![],
        }
    }

    /// `-workspace-path <path>` when a workspace root is set.
    pub open spec fn workspace_root_args(&self) -> Seq<Seq<char>> {
        pair_if_some("-workspace-path"@, optional_text(self.workspace_root))
    }

    /// `-patch-file <path>` when a patch is set.
    pub open spec fn patch_file_args(&self) -> Seq<Seq<char>> {
        pair_if_some("-patch-file"@, optional_text(self.patch_file))
    }

    /// `-no-mi` when no interface file is to be written.
    pub open spec fn no_mi_args(&self) -> Seq<Seq<char>> {
        flag_if(self.no_mi, "-no-mi"@)
    }

    /// Appends the diagnostics format.
    pub fn add_error_format(&self, args: &mut Vec<String>)
        ensures
            final(args).deep_view() == old(args).deep_view() + self.error_format_args(),
    {
        if matches!(self.error_format, ErrorFormat::Json) {
            push_pair(args, "-error-format", "json");
        }
        assert(args.deep_view() =~= old(args).deep_view() + self.error_format_args());
    }

    /// Appends the explicit warning and alert lists.
    pub fn add_custom_warn_alert_lists(&self, args: &mut Vec<String>)
        ensures
            final(args).deep_view() == old(args).deep_view() + self.custom_warn_alert_args(),
    {
        if let WarnAlertConfig::List(warn_list) = self.warn_config {
            push_pair(args, "-w", warn_list);
        }
        if let WarnAlertConfig::List(alert_list) = self.alert_config {
            push_pair(args, "-alert", alert_list);
        }
        assert(args.deep_view() =~= old(args).deep_view() + self.custom_warn_alert_args());
    }

    /// Appends `-is-main` for a main package.
    pub fn add_is_main(&self, args: &mut Vec<String>)
        ensures
            final(args).deep_view() == old(args).deep_view() + self.is_main_args(),
    {
        push_flag_if(args, self.is_main, "-is-main");
    }

    /// Appends the standard library.
    pub fn add_stdlib_path(&self, args: &mut Vec<String>)
        ensures
            final(args).deep_view() == old(args).deep_view() + self.stdlib_path_args(),
    {
        push_optional_pair(args, "-std-path", self.stdlib_core_file);
    }

    /// Appends the interface of the declared virtual package.
    pub fn add_virtual_package_check(&self, args: &mut Vec<String>)
        ensures
            final(args).deep_view() == old(args).deep_view() + self.virtual_package_check_args(),
    {
        push_optional_pair(args, "-check-mi", self.check_mi);
    }

    /// Appends the deny-all pairs.
    pub fn add_deny_all(&self, args: &mut Vec<String>)
        ensures
            final(args).deep_view() == old(args).deep_view() + self.deny_all_args(),
    {
        if self.deny_warn {
            push_pair(args, "-w", MOONC_DENY_WARNING_SET);
            push_pair(args, "-alert", MOONC_DENY_ALERT_SET);
        }
        assert(args.deep_view() =~= old(args).deep_view() + self.deny_all_args());
    }

    /// Appends the allow-all pairs.
    pub fn add_warn_alert_allow_all(&self, args: &mut Vec<String>)
        ensures
            final(args).deep_view() == old(args).deep_view() + self.warn_alert_allow_all_args(),
    {
        if matches!(self.warn_config, WarnAlertConfig::AllowAll) {
            push_pair(args, "-w", MOONC_ALLOW_WARNING_SET);
        }
        if matches!(self.alert_config, WarnAlertConfig::AllowAll) {
            push_pair(args, "-alert", MOONC_ALLOW_ALERT_SET);
        }
        assert(args.deep_view() =~= old(args).deep_view() + self.warn_alert_allow_all_args());
    }

    /// Appends the virtual implementation, in the form for checking.
    pub fn add_virtual_package_implementation_check(&self, args: &mut Vec<String>)
        ensures
            final(args).deep_view() == old(args).deep_view()
                + self.virtual_implementation_check_args(),
    {
        if let Some(implementation) = self.virtual_implementation {
            push_pair(args, "-check-mi", implementation.mi_path);
            push_pair_owned(args, "-pkg-sources", implementation.to_sources_arg());
        }
        assert(args.deep_view() =~= old(args).deep_view()
            + self.virtual_implementation_check_args());
    }

    /// Appends the virtual implementation, in the form for building.
    /// Leaves `-no-mi` to `add_no_mi`.
    pub fn add_virtual_package_implementation_build(&self, args: &mut Vec<String>)
        ensures
            final(args).deep_view() == old(args).deep_view()
                + self.virtual_implementation_build_args(),
    {
        if let Some(implementation) = self.virtual_implementation {
            push_pair(args, "-check-mi", implementation.mi_path);
            push_arg(args, "-impl-virtual");
            push_pair_owned(args, "-pkg-sources", implementation.to_sources_arg());
        }
        assert(args.deep_view() =~= old(args).deep_view()
            + self.virtual_implementation_build_args());
    }

    /// Appends the workspace root.
    /// For the commands that check or build a package; the link stage knows
    /// no workspace flag and never applies this rule.
    pub fn add_workspace_root(&self, args: &mut Vec<String>)
        ensures
            final(args).deep_view() == old(args).deep_view() + self.workspace_root_args(),
    {
        push_optional_pair(args, "-workspace-path", self.workspace_root);
    }

    /// Appends the patch file.
    pub fn add_patch_file_moonc(&self, args: &mut Vec<String>)
        ensures
            final(args).deep_view() == old(args).deep_view() + self.patch_file_args(),
    {
        push_optional_pair(args, "-patch-file", self.patch_file);
    }

    /// Appends `-no-mi`.
    pub fn add_no_mi(&self, args: &mut Vec<String>)
        ensures
            final(args).deep_view() == old(args).deep_view() + self.no_mi_args(),
    {
        push_flag_if(args, self.no_mi, "-no-mi");
    }
}

/// The interface dependencies are passed in the order they are given in,
/// each behind its own `-i`.
pub proof fn lemma_mi_dependencies_keep_their_order(input: BuildCommonInput)
    ensures
        input.mi_dependency_args().len() == 2 * input.mi_deps@.len(),
        forall|i: int|
            0 <= i < input.mi_deps@.len() ==> {
                &&& #[trigger] input.mi_dependency_args()[2 * i] == "-i"@
                &&& input.mi_dependency_args()[2 * i + 1] == input.mi_deps@[i].alias_arg()
            },
{
    lemma_flagged_each_layout("-i"@, alias_args(input.mi_deps@));
}

/// The minimal configuration adds no argument, whatever the rule.
pub proof fn lemma_minimal_config_passes_nothing(config: BuildCommonConfig)
    requires
        config.is_minimal(),
    ensures
        config.error_format_args() == Seq::<Seq<char>>::empty(),
        config.custom_warn_alert_args() == Seq::<Seq<char>>::empty(),
        config.is_main_args() == Seq::<Seq<char>>::empty(),
        config.stdlib_path_args() == Seq::<Seq<char>>::empty(),
        config.virtual_package_check_args() == Seq::<Seq<char>>::empty(),
        config.deny_all_args() == Seq::<Seq<char>>::empty(),
        config.warn_alert_allow_all_args() == Seq::<Seq<char>>::empty(),
        config.virtual_implementation_check_args() == Seq::<Seq<char>>::empty(),
        config.virtual_implementation_build_args() == Seq::<Seq<char>>::empty(),
        config.workspace_root_args() == Seq::<Seq<char>>::empty(),
        config.patch_file_args() == Seq::<Seq<char>>::empty(),
        config.no_mi_args() == Seq::<Seq<char>>::empty(),
{
    assert(config.custom_warn_alert_args() =~= Seq::<Seq<char>>::empty());
    assert(config.warn_alert_allow_all_args() =~= Seq::<Seq<char>>::empty());
}

/// The coupled test rule says what the two narrow rules say one after the
/// other: the kind flag, then the doctests of a blackbox test.
pub proof fn lemma_test_args_couple_the_narrow_rules(input: BuildCommonInput)
    ensures
        input.test_args() == input.test_kind_args() + input.include_doctests_args(),
{
    assert(input.test_args() =~= input.test_kind_args() + input.include_doctests_args());
}

/// Denying and allowing do not exclude each other: with `deny_warn` set the
/// deny-all pairs are passed whatever the two policies are, and an allow-all
/// policy passes its pair whatever `deny_warn` is.
pub proof fn lemma_deny_and_allow_are_additive(config: BuildCommonConfig)
    ensures
        config.deny_warn ==> has_run_at(
            config.deny_all_args(),
            0,
            seq!["-w"@, MOONC_DENY_WARNING_SET@],
        ) && has_run_at(config.deny_all_args(), 2, seq!["-alert"@, MOONC_DENY_ALERT_SET@]),
        config.warn_config is AllowAll ==> has_run_at(
            config.warn_alert_allow_all_args(),
            0,
            seq!["-w"@, MOONC_ALLOW_WARNING_SET@],
        ),
        config.alert_config is AllowAll ==> has_run_at(
            config.warn_alert_allow_all_args(),
            allow_all_args("-w"@, MOONC_ALLOW_WARNING_SET@, config.warn_config).len() as int,
            seq!["-alert"@, MOONC_ALLOW_ALERT_SET@],
        ),
{
}

/// Building passes what checking passes for a virtual implementation, with
/// `-impl-virtual` put in after the interface: so building always marks the
/// implementation as real.
pub proof fn lemma_virtual_build_marks_what_check_passes(config: BuildCommonConfig)
    ensures
        config.virtual_implementation is Some ==> {
            &&& config.virtual_implementation_build_args()
                == config.virtual_implementation_check_args().insert(2, "-impl-virtual"@)
            &&& config.virtual_implementation_build_args()[2] == "-impl-virtual"@
            &&& config.virtual_implementation_build_args().contains("-impl-virtual"@)
        },
        config.virtual_implementation is None ==> {
            &&& config.virtual_implementation_build_args().len() == 0
            &&& config.virtual_implementation_check_args().len() == 0
        },
{
    if config.virtual_implementation is Some {
        let build = config.virtual_implementation_build_args();
        assert(build =~= config.virtual_implementation_check_args().insert(2, "-impl-virtual"@));
        assert(build[2] == "-impl-virtual"@);
    }
}

/// Checking never marks an implementation as real: none of its arguments
/// is `-impl-virtual`, unless the interface file itself is named so.
pub proof fn lemma_virtual_check_never_marks(config: BuildCommonConfig)
    requires
        config.virtual_implementation matches Some(implementation) ==> implementation.mi_path@
            != "-impl-virtual"@,
    ensures
        absent(config.virtual_implementation_check_args(), "-impl-virtual"@),
{
    if let Some(implementation) = config.virtual_implementation {
        lemma_impl_virtual_is_no_other_flag();
        lemma_colon_pair_has_a_colon(
            implementation.package_name@,
            implementation.package_path@,
            "-impl-virtual"@,
        );
    }
}

/// `text` is a flag of the rules on the required part, the test rules
/// aside.
pub open spec fn is_input_flag(text: Seq<char>) -> bool {
    ||| text == "-doctest-only"@
    ||| text == "-i"@
    ||| text == "-pkg"@
    ||| text == "-pkg-sources"@
    ||| text == "-target"@
}

/// `text` is a flag of the test rules.
pub open spec fn is_test_flag(text: Seq<char>) -> bool {
    ||| text == "-whitebox-test"@
    ||| text == "-blackbox-test"@
    ||| text == "-include-doctests"@
    ||| text == "-test-mode"@
}

/// `text` is a flag, or a reserved token, of the rules on the defaultable
/// part, the marker `-impl-virtual` aside.
pub open spec fn is_config_flag(text: Seq<char>) -> bool {
    ||| text == "-error-format"@
    ||| text == "json"@
    ||| text == "-w"@
    ||| text == "-alert"@
    ||| text == MOONC_DENY_WARNING_SET@
    ||| text == MOONC_DENY_ALERT_SET@
    ||| text == MOONC_ALLOW_WARNING_SET@
    ||| text == MOONC_ALLOW_ALERT_SET@
    ||| text == "-is-main"@
    ||| text == "-std-path"@
    ||| text == "-check-mi"@
    ||| text == "-pkg-sources"@
    ||| text == "-workspace-path"@
    ||| text == "-patch-file"@
    ||| text == "-no-mi"@
}

impl<'a> BuildCommonInput<'a> {
    /// None of the texts that the caller supplies, and that the rules pass
    /// as whole arguments, is `text`.
    pub open spec fn avoids(&self, text: Seq<char>) -> bool {
        &&& absent(self.mbt_sources.deep_view(), text)
        &&& absent(self.doctest_only_sources.deep_view(), text)
        &&& self.package_name@ != text
        &&& self.target_backend@ != text
    }
}

impl<'a> BuildCommonConfig<'a> {
    /// None of the texts that the caller supplies, and that the rules pass
    /// as whole arguments, is `text`.
    pub open spec fn avoids(&self, text: Seq<char>) -> bool {
        &&& self.warn_config matches WarnAlertConfig::List(list) ==> list@ != text
        &&& self.alert_config matches WarnAlertConfig::List(list) ==> list@ != text
        &&& self.stdlib_core_file matches Some(path) ==> path@ != text
        &&& self.workspace_root matches Some(path) ==> path@ != text
        &&& self.check_mi matches Some(path) ==> path@ != text
        &&& self.virtual_implementation matches Some(implementation) ==> implementation.mi_path@
            != text
        &&& self.patch_file matches Some(path) ==> path@ != text
    }
}

/// The rules on the required part, the test rules aside, pass their flags
/// and the texts that the caller supplies, and nothing else.
pub proof fn lemma_input_rules_pass_nothing_else(input: BuildCommonInput, text: Seq<char>)
    requires
        !is_input_flag(text),
        input.avoids(text),
        has_no_colon(text),
    ensures
        absent(input.mbt_sources_args(), text),
        absent(input.doctest_only_args(), text),
        absent(input.mi_dependency_args(), text),
        absent(input.package_config_args(), text),
        absent(input.package_sources_args(), text),
        absent(input.target_backend_args(), text),
{
    lemma_absent_flagged_each("-doctest-only"@, input.doctest_only_sources.deep_view(), text);
    let aliases = alias_args(input.mi_deps@);
    assert forall|i: int| 0 <= i < aliases.len() implies #[trigger] aliases[i] != text by {
        let dep = input.mi_deps@[i];
        lemma_colon_pair_has_a_colon(dep.path@, dep.alias_text(), text);
    }
    lemma_absent_flagged_each("-i"@, aliases, text);
    lemma_colon_pair_has_a_colon(input.package_name@, input.package_source@, text);
}

/// The test rules pass their flags and nothing else.
pub proof fn lemma_test_rules_pass_nothing_else(input: BuildCommonInput, text: Seq<char>)
    requires
        !is_test_flag(text),
    ensures
        absent(input.test_args(), text),
        absent(input.test_mode_args(), text),
        absent(input.include_doctests_args(), text),
        absent(input.test_kind_args(), text),
{
}

/// The rules on the defaultable part pass their flags, their reserved
/// tokens and the texts that the caller supplies, and nothing else but the
/// marker `-impl-virtual`, which the form for building alone passes.
pub proof fn lemma_config_rules_pass_nothing_else(config: BuildCommonConfig, text: Seq<char>)
    requires
        !is_config_flag(text),
        config.avoids(text),
        has_no_colon(text),
    ensures
        absent(config.error_format_args(), text),
        absent(config.custom_warn_alert_args(), text),
        absent(config.is_main_args(), text),
        absent(config.stdlib_path_args(), text),
        absent(config.virtual_package_check_args(), text),
        absent(config.deny_all_args(), text),
        absent(config.warn_alert_allow_all_args(), text),
        absent(config.virtual_implementation_check_args(), text),
        text != "-impl-virtual"@ ==> absent(config.virtual_implementation_build_args(), text),
        absent(config.workspace_root_args(), text),
        absent(config.patch_file_args(), text),
        absent(config.no_mi_args(), text),
{
    lemma_absent_flag_if(config.is_main, "-is-main"@, text);
    lemma_absent_flag_if(config.no_mi, "-no-mi"@, text);
    lemma_absent_pair_if_some("-std-path"@, optional_text(config.stdlib_core_file), text);
    lemma_absent_pair_if_some("-check-mi"@, optional_text(config.check_mi), text);
    lemma_absent_pair_if_some("-workspace-path"@, optional_text(config.workspace_root), text);
    lemma_absent_pair_if_some("-patch-file"@, optional_text(config.patch_file), text);
    if let Some(implementation) = config.virtual_implementation {
        lemma_colon_pair_has_a_colon(
            implementation.package_name@,
            implementation.package_path@,
            text,
        );
    }
    lemma_absent_concat(
        custom_list_args("-w"@, config.warn_config),
        custom_list_args("-alert"@, config.alert_config),
        text,
    );
    lemma_absent_concat(
        allow_all_args("-w"@, MOONC_ALLOW_WARNING_SET@, config.warn_config),
        allow_all_args("-alert"@, MOONC_ALLOW_ALERT_SET@, config.alert_config),
        text,
    );
}

/// The marker `-impl-virtual` is no other flag of the shared rules, and
/// holds no colon.
pub proof fn lemma_impl_virtual_is_no_other_flag()
    ensures
        !is_input_flag("-impl-virtual"@),
        !is_test_flag("-impl-virtual"@),
        !is_config_flag("-impl-virtual"@),
        has_no_colon("-impl-virtual"@),
{
    let marker = "-impl-virtual"@;
    reveal_strlit("-impl-virtual");
    reveal_strlit("-doctest-only");
    reveal_strlit("-i");
    reveal_strlit("-pkg");
    reveal_strlit("-pkg-sources");
    reveal_strlit("-target");
    reveal_strlit("-whitebox-test");
    reveal_strlit("-blackbox-test");
    reveal_strlit("-include-doctests");
    reveal_strlit("-test-mode");
    reveal_strlit("-error-format");
    reveal_strlit("json");
    reveal_strlit("-w");
    reveal_strlit("-alert");
    reveal_strlit("@a-31-32");
    reveal_strlit("@all-raise-throw-unsafe+deprecated");
    reveal_strlit("-a");
    reveal_strlit("-all");
    reveal_strlit("-is-main");
    reveal_strlit("-std-path");
    reveal_strlit("-check-mi");
    reveal_strlit("-workspace-path");
    reveal_strlit("-patch-file");
    reveal_strlit("-no-mi");
    assert(marker.len() == 13 && marker[1] == 'i');
    assert("-doctest-only"@[1] == 'd');
    assert("-error-format"@[1] == 'e');
    assert forall|i: int| 0 <= i < marker.len() implies #[trigger] marker[i] != ':' by {
        assert(i == 0 || i == 1 || i == 2 || i == 3 || i == 4 || i == 5 || i == 6
            || i == 7 || i == 8 || i == 9 || i == 10 || i == 11 || i == 12);
    }
}

} // verus!
