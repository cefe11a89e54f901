//! The command that compiles one package into its core artifact.

use vstd::prelude::*;

use crate::args::{
    absent, contains_run, has_no_colon, has_run_at, lemma_absent_concat,
    lemma_fragments_associate, lemma_only_at_back, lemma_only_at_front, lemma_run_in_back,
    lemma_run_in_front, only_at, push_all, push_arg, push_pair,
};
use crate::build_common::{
    is_config_flag, is_input_flag, is_test_flag, lemma_config_rules_pass_nothing_else,
    lemma_deny_and_allow_are_additive, lemma_input_rules_pass_nothing_else,
    lemma_test_rules_pass_nothing_else, lemma_virtual_build_marks_what_check_passes,
    BuildCommonConfig, BuildCommonInput,
};
use crate::compiler::{
    is_compilation_flag, lemma_compilation_flags_pass_nothing_else, CmdlineAbstraction,
    CompilationFlags, MOONC_ALLOW_WARNING_SET, MOONC_DENY_WARNING_SET,
};

verus! {

/// `build-package`: compile the sources of one package.
#[derive(Clone, Copy, Debug)]
pub struct MooncBuildPackage<'a> {
    pub required: BuildCommonInput<'a>,
    pub defaults: BuildCommonConfig<'a>,
    /// Where the core artifact is written.
    pub core_out: &'a str,
    pub flags: CompilationFlags,
    /// Arguments passed through as they are, last.
    pub extra_build_opts: &'a [String],
}

impl<'a> MooncBuildPackage<'a> {
    /// Diagnostics and the inputs, with the warning policy around them.
    pub open spec fn input_args(&self) -> Seq<Seq<char>> {
        self.defaults.error_format_args() + self.defaults.deny_all_args()
            + self.required.mbt_sources_args() + self.required.doctest_only_args()
            + self.defaults.custom_warn_alert_args() + self.defaults.warn_alert_allow_all_args()
    }

    /// The output, and what the package is and depends on.
    pub open spec fn package_args(&self) -> Seq<Seq<char>> {
        seq!["-o"@, self.core_out@] + self.required.package_config_args()
            + self.defaults.is_main_args() + self.defaults.stdlib_path_args()
            + self.required.mi_dependency_args() + self.required.package_sources_args()
            + self.required.target_backend_args()
    }

    /// Code generation switches and the test flags.
    pub open spec fn mode_args(&self) -> Seq<Seq<char>> {
        self.flags.debug_opt_args() + self.flags.instrumentation_args()
            + self.required.test_args() + self.required.test_mode_args()
    }

    /// Virtual packages, workspace, patch, interface suppression and the
    /// passed-through arguments.
    pub open spec fn tail_args(&self) -> Seq<Seq<char>> {
        self.defaults.virtual_package_check_args()
            + self.defaults.virtual_implementation_build_args()
            + self.defaults.workspace_root_args() + self.defaults.patch_file_args()
            + self.defaults.no_mi_args() + self.extra_build_opts.deep_view()
    }

    /// Appends the input section.
    fn add_input_args(&self, args: &mut Vec<String>)
        ensures
            final(args).deep_view() == old(args).deep_view() + self.input_args(),
    {
        broadcast use lemma_fragments_associate;

        self.defaults.add_error_format(args);
        self.defaults.add_deny_all(args);
        self.required.add_mbt_sources(args);
        self.required.add_doctest_only_sources(args);
        self.defaults.add_custom_warn_alert_lists(args);
        self.defaults.add_warn_alert_allow_all(args);
    }

    /// Appends the package section.
    fn add_package_args(&self, args: &mut Vec<String>)
        ensures
            final(args).deep_view() == old(args).deep_view() + self.package_args(),
    {
        broadcast use lemma_fragments_associate;

        push_pair(args, "-o", self.core_out);
        self.required.add_package_config(args);
        self.defaults.add_is_main(args);
        self.defaults.add_stdlib_path(args);
        self.required.add_mi_dependencies(args);
        self.required.add_package_sources(args);
        self.required.add_target_backend(args);
    }

    /// Appends the mode section.
    fn add_mode_args(&self, args: &mut Vec<String>)
        ensures
            final(args).deep_view() == old(args).deep_view() + self.mode_args(),
    {
        broadcast use lemma_fragments_associate;

        self.flags.add_debug_opt_flags(args);
        self.flags.add_instrumentation_flags(args);
        self.required.add_test_args(args);
        self.required.add_test_mode_args(args);
    }

    /// Appends the tail section.
    fn add_tail_args(&self, args: &mut Vec<String>)
        ensures
            final(args).deep_view() == old(args).deep_view() + self.tail_args(),
    {
        broadcast use lemma_fragments_associate;

        self.defaults.add_virtual_package_check(args);
        self.defaults.add_virtual_package_implementation_build(args);
        self.defaults.add_workspace_root(args);
        self.defaults.add_patch_file_moonc(args);
        self.defaults.add_no_mi(args);
        push_all(args, self.extra_build_opts);
    }
}

impl<'a> CmdlineAbstraction for MooncBuildPackage<'a> {
    open spec fn arguments(&self) -> Seq<Seq<char>> {
        seq!["build-package"@] + self.input_args() + self.package_args() + self.mode_args()
            + self.tail_args()
    }

    fn to_args(&self, args: &mut Vec<String>) {
        broadcast use lemma_fragments_associate;

        push_arg(args, "build-package");
        self.add_input_args(args);
        self.add_package_args(args);
        self.add_mode_args(args);
        self.add_tail_args(args);
    }
}

impl<'a> MooncBuildPackage<'a> {
    /// A run of the input section is a run of the whole command.
    proof fn lemma_run_of_input_args(&self, at: int, run: Seq<Seq<char>>)
        requires
            has_run_at(self.input_args(), at, run),
        ensures
            contains_run(self.arguments(), run),
    {
        let head = seq!["build-package"@];
        lemma_run_in_back(head, self.input_args(), at, run);
        lemma_run_in_front(head + self.input_args(), self.package_args(), 1 + at, run);
        lemma_run_in_front(
            head + self.input_args() + self.package_args(),
            self.mode_args(),
            1 + at,
            run,
        );
        lemma_run_in_front(
            head + self.input_args() + self.package_args() + self.mode_args(),
            self.tail_args(),
            1 + at,
            run,
        );
        assert(has_run_at(self.arguments(), 1 + at, run));
    }

    /// A run of the mode section is a run of the whole command.
    proof fn lemma_run_of_mode_args(&self, at: int, run: Seq<Seq<char>>)
        requires
            has_run_at(self.mode_args(), at, run),
        ensures
            contains_run(self.arguments(), run),
    {
        let before = seq!["build-package"@] + self.input_args() + self.package_args();
        lemma_run_in_back(before, self.mode_args(), at, run);
        lemma_run_in_front(before + self.mode_args(), self.tail_args(), before.len() + at, run);
        assert(has_run_at(self.arguments(), before.len() + at, run));
    }

    /// A run of the tail section is a run of the whole command.
    proof fn lemma_run_of_tail_args(&self, at: int, run: Seq<Seq<char>>)
        requires
            has_run_at(self.tail_args(), at, run),
        ensures
            contains_run(self.arguments(), run),
    {
        let before = seq!["build-package"@] + self.input_args() + self.package_args()
            + self.mode_args();
        lemma_run_in_back(before, self.tail_args(), at, run);
        assert(has_run_at(self.arguments(), before.len() + at, run));
    }
}

/// Told both to deny everything and to allow all warnings, the command says
/// both: the deny-all pair and the allow-all pair for warnings each stand in
/// its arguments.
pub proof fn lemma_build_package_denies_and_allows(command: MooncBuildPackage)
    requires
        command.defaults.deny_warn,
        command.defaults.warn_config is AllowAll,
    ensures
        contains_run(command.arguments(), seq!["-w"@, MOONC_DENY_WARNING_SET@]),
        contains_run(command.arguments(), seq!["-w"@, MOONC_ALLOW_WARNING_SET@]),
{
    let config = command.defaults;
    let input = command.required;
    lemma_deny_and_allow_are_additive(config);
    let deny = seq!["-w"@, MOONC_DENY_WARNING_SET@];
    let allow = seq!["-w"@, MOONC_ALLOW_WARNING_SET@];
    let upto_format = config.error_format_args();
    let upto_deny = upto_format + config.deny_all_args();
    let upto_sources = upto_deny + input.mbt_sources_args();
    let upto_doctests = upto_sources + input.doctest_only_args();
    let upto_custom = upto_doctests + config.custom_warn_alert_args();
    lemma_run_in_back(upto_format, config.deny_all_args(), 0, deny);
    lemma_run_in_front(upto_deny, input.mbt_sources_args(), upto_format.len() as int, deny);
    lemma_run_in_front(upto_sources, input.doctest_only_args(), upto_format.len() as int, deny);
    lemma_run_in_front(
        upto_doctests,
        config.custom_warn_alert_args(),
        upto_format.len() as int,
        deny,
    );
    lemma_run_in_front(
        upto_custom,
        config.warn_alert_allow_all_args(),
        upto_format.len() as int,
        deny,
    );
    command.lemma_run_of_input_args(upto_format.len() as int, deny);
    lemma_run_in_back(upto_custom, config.warn_alert_allow_all_args(), 0, allow);
    command.lemma_run_of_input_args(upto_custom.len() as int, allow);
}

/// For a blackbox test the command passes `-blackbox-test` and, right after
/// it, `-include-doctests`.
pub proof fn lemma_build_package_blackbox_flags(command: MooncBuildPackage)
    requires
        command.required.target_kind is BlackboxTest,
    ensures
        contains_run(command.arguments(), seq!["-blackbox-test"@, "-include-doctests"@]),
{
    let run = seq!["-blackbox-test"@, "-include-doctests"@];
    let before = command.flags.debug_opt_args() + command.flags.instrumentation_args();
    assert(command.required.test_args() =~= run);
    lemma_run_in_back(before, command.required.test_args(), 0, run);
    lemma_run_in_front(
        before + command.required.test_args(),
        command.required.test_mode_args(),
        before.len() as int,
        run,
    );
    command.lemma_run_of_mode_args(before.len() as int, run);
}

/// With a virtual implementation configured the command always marks it as
/// real: `-impl-virtual` is one of its arguments.
pub proof fn lemma_build_package_marks_virtual_implementation(command: MooncBuildPackage)
    requires
        command.defaults.virtual_implementation is Some,
    ensures
        contains_run(command.arguments(), seq!["-impl-virtual"@]),
        command.arguments().contains("-impl-virtual"@),
{
    let config = command.defaults;
    let run = seq!["-impl-virtual"@];
    lemma_virtual_build_marks_what_check_passes(config);
    let before = config.virtual_package_check_args();
    let virtual_args = config.virtual_implementation_build_args();
    assert(has_run_at(virtual_args, 2, run));
    lemma_run_in_back(before, virtual_args, 2, run);
    let at: int = before.len() as int + 2;
    lemma_run_in_front(before + virtual_args, config.workspace_root_args(), at, run);
    lemma_run_in_front(
        before + virtual_args + config.workspace_root_args(),
        config.patch_file_args(),
        at,
        run,
    );
    lemma_run_in_front(
        before + virtual_args + config.workspace_root_args() + config.patch_file_args(),
        config.no_mi_args(),
        at,
        run,
    );
    lemma_run_in_front(
        before + virtual_args + config.workspace_root_args() + config.patch_file_args()
            + config.no_mi_args(),
        command.extra_build_opts.deep_view(),
        at,
        run,
    );
    command.lemma_run_of_tail_args(at, run);
    let found = choose|found: int| has_run_at(command.arguments(), found, run);
    assert(command.arguments()[found + 0] == run[0]);
}

/// `text` is a flag or a reserved token that `build-package` can pass, the
/// test flags aside.
pub open spec fn is_build_package_flag(text: Seq<char>) -> bool {
    ||| text == "build-package"@
    ||| text == "-o"@
    ||| text == "-impl-virtual"@
    ||| is_input_flag(text)
    ||| is_config_flag(text)
    ||| is_compilation_flag(text)
}

impl<'a> MooncBuildPackage<'a> {
    /// None of the texts that the caller supplies, and that the command
    /// passes as whole arguments, is `text`.
    pub open spec fn avoids(&self, text: Seq<char>) -> bool {
        &&& self.required.avoids(text)
        &&& self.defaults.avoids(text)
        &&& self.core_out@ != text
        &&& absent(self.extra_build_opts.deep_view(), text)
    }

    /// What comes before the test flags.
    pub open spec fn before_test_args(&self) -> Seq<Seq<char>> {
        seq!["build-package"@] + self.input_args() + self.package_args() + (
        self.flags.debug_opt_args() + self.flags.instrumentation_args())
    }

    /// The command is what comes before the test flags, the test flags, and
    /// the tail.
    proof fn lemma_arguments_around_test_args(&self)
        ensures
            self.arguments() == self.before_test_args() + self.required.test_args()
                + self.required.test_mode_args() + self.tail_args(),
    {
        assert(self.arguments() =~= self.before_test_args() + self.required.test_args()
            + self.required.test_mode_args() + self.tail_args());
    }
}

/// Outside its test flags, `build-package` passes its other flags and the
/// texts that the caller supplies, and nothing else.
pub proof fn lemma_build_package_passes_nothing_else(command: MooncBuildPackage, text: Seq<char>)
    requires
        !is_build_package_flag(text),
        command.avoids(text),
        has_no_colon(text),
    ensures
        absent(command.before_test_args(), text),
        absent(command.tail_args(), text),
        !is_test_flag(text) ==> absent(command.arguments(), text),
{
    let config = command.defaults;
    let input = command.required;
    let flags = command.flags;
    lemma_input_rules_pass_nothing_else(input, text);
    lemma_config_rules_pass_nothing_else(config, text);
    lemma_compilation_flags_pass_nothing_else(flags, text);

    let a1 = config.error_format_args() + config.deny_all_args();
    lemma_absent_concat(config.error_format_args(), config.deny_all_args(), text);
    let a2 = a1 + input.mbt_sources_args();
    lemma_absent_concat(a1, input.mbt_sources_args(), text);
    let a3 = a2 + input.doctest_only_args();
    lemma_absent_concat(a2, input.doctest_only_args(), text);
    let a4 = a3 + config.custom_warn_alert_args();
    lemma_absent_concat(a3, config.custom_warn_alert_args(), text);
    lemma_absent_concat(a4, config.warn_alert_allow_all_args(), text);
    assert(absent(command.input_args(), text));

    let output = seq!["-o"@, command.core_out@];
    let b1 = output + input.package_config_args();
    lemma_absent_concat(output, input.package_config_args(), text);
    let b2 = b1 + config.is_main_args();
    lemma_absent_concat(b1, config.is_main_args(), text);
    let b3 = b2 + config.stdlib_path_args();
    lemma_absent_concat(b2, config.stdlib_path_args(), text);
    let b4 = b3 + input.mi_dependency_args();
    lemma_absent_concat(b3, input.mi_dependency_args(), text);
    let b5 = b4 + input.package_sources_args();
    lemma_absent_concat(b4, input.package_sources_args(), text);
    lemma_absent_concat(b5, input.target_backend_args(), text);
    assert(absent(command.package_args(), text));

    let head = seq!["build-package"@];
    lemma_absent_concat(head, command.input_args(), text);
    lemma_absent_concat(head + command.input_args(), command.package_args(), text);
    lemma_absent_concat(flags.debug_opt_args(), flags.instrumentation_args(), text);
    lemma_absent_concat(
        head + command.input_args() + command.package_args(),
        flags.debug_opt_args() + flags.instrumentation_args(),
        text,
    );

    let c1 = config.virtual_package_check_args() + config.virtual_implementation_build_args();
    lemma_absent_concat(
        config.virtual_package_check_args(),
        config.virtual_implementation_build_args(),
        text,
    );
    let c2 = c1 + config.workspace_root_args();
    lemma_absent_concat(c1, config.workspace_root_args(), text);
    let c3 = c2 + config.patch_file_args();
    lemma_absent_concat(c2, config.patch_file_args(), text);
    let c4 = c3 + config.no_mi_args();
    lemma_absent_concat(c3, config.no_mi_args(), text);
    lemma_absent_concat(c4, command.extra_build_opts.deep_view(), text);
    assert(absent(command.tail_args(), text));

    if !is_test_flag(text) {
        lemma_test_rules_pass_nothing_else(input, text);
        command.lemma_arguments_around_test_args();
        let d1 = command.before_test_args() + input.test_args();
        lemma_absent_concat(command.before_test_args(), input.test_args(), text);
        let d2 = d1 + input.test_mode_args();
        lemma_absent_concat(d1, input.test_mode_args(), text);
        lemma_absent_concat(d2, command.tail_args(), text);
    }
}

/// The two flags of a blackbox test are no other flag of `build-package`,
/// differ from each other and from `-test-mode`, and hold no colon.
pub proof fn lemma_blackbox_flags_are_no_other_flag()
    ensures
        !is_build_package_flag("-blackbox-test"@),
        !is_build_package_flag("-include-doctests"@),
        "-blackbox-test"@ != "-include-doctests"@,
        "-blackbox-test"@ != "-test-mode"@,
        "-include-doctests"@ != "-test-mode"@,
        has_no_colon("-blackbox-test"@),
        has_no_colon("-include-doctests"@),
{
    let blackbox = "-blackbox-test"@;
    let doctests = "-include-doctests"@;
    reveal_strlit("-blackbox-test");
    reveal_strlit("-include-doctests");
    reveal_strlit("-test-mode");
    reveal_strlit("build-package");
    reveal_strlit("-o");
    reveal_strlit("-impl-virtual");
    reveal_strlit("-doctest-only");
    reveal_strlit("-i");
    reveal_strlit("-pkg");
    reveal_strlit("-pkg-sources");
    reveal_strlit("-target");
    reveal_strlit("-error-format");
    reveal_strlit("json");
    reveal_strlit("-w");
    reveal_strlit("-alert");
    reveal_strlit("@a-31-32");
    reveal_strlit("@all-raise-throw-unsafe+deprecated");
    reveal_strlit("-a");
    reveal_strlit("-all");
    reveal_strlit("-is-main");
    reveal_strlit("-std-path");
    reveal_strlit("-check-mi");
    reveal_strlit("-workspace-path");
    reveal_strlit("-patch-file");
    reveal_strlit("-no-mi");
    reveal_strlit("-g");
    reveal_strlit("-O0");
    reveal_strlit("-source-map");
    reveal_strlit("-enable-coverage");
    reveal_strlit("-coverage-package-override=@self");
    reveal_strlit("-enable-value-tracing");
    assert(blackbox.len() == 14);
    assert(doctests.len() == 17);
    assert("-test-mode"@.len() == 10);
    assert("build-package"@.len() == 13 && "-o"@.len() == 2 && "-impl-virtual"@.len() == 13);
    assert(!is_build_package_flag(blackbox));
    assert(!is_build_package_flag(doctests));
    assert forall|i: int| 0 <= i < blackbox.len() implies #[trigger] blackbox[i] != ':' by {
        assert(i == 0 || i == 1 || i == 2 || i == 3 || i == 4 || i == 5 || i == 6
            || i == 7 || i == 8 || i == 9 || i == 10 || i == 11 || i == 12 || i == 13);
    }
    assert forall|i: int| 0 <= i < doctests.len() implies #[trigger] doctests[i] != ':' by {
        assert(i == 0 || i == 1 || i == 2 || i == 3 || i == 4 || i == 5 || i == 6
            || i == 7 || i == 8 || i == 9 || i == 10 || i == 11 || i == 12 || i == 13
            || i == 14 || i == 15 || i == 16);
    }
}

/// For a blackbox test the command passes `-blackbox-test` exactly once
/// and `-include-doctests` exactly once, the second right after the first,
/// unless a text that the caller supplies is one of the two. The result is
/// the place of `-blackbox-test`.
pub proof fn lemma_build_package_blackbox_flags_once(command: MooncBuildPackage) -> (at: int)
    requires
        command.required.target_kind is BlackboxTest,
        command.avoids("-blackbox-test"@),
        command.avoids("-include-doctests"@),
    ensures
        only_at(command.arguments(), "-blackbox-test"@, at),
        only_at(command.arguments(), "-include-doctests"@, at + 1),
{
    let blackbox = "-blackbox-test"@;
    let doctests = "-include-doctests"@;
    let before = command.before_test_args();
    let test_args = command.required.test_args();
    let test_mode = command.required.test_mode_args();
    let tail = command.tail_args();
    lemma_blackbox_flags_are_no_other_flag();
    lemma_build_package_passes_nothing_else(command, blackbox);
    lemma_build_package_passes_nothing_else(command, doctests);
    command.lemma_arguments_around_test_args();
    assert(test_args =~= seq![blackbox, doctests]);
    assert(test_mode =~= seq!["-test-mode"@]);
    assert(only_at(test_args, blackbox, 0));
    assert(only_at(test_args, doctests, 1));

    let at = before.len() as int;
    lemma_only_at_back(before, test_args, blackbox, 0);
    lemma_only_at_front(before + test_args, test_mode, blackbox, at);
    lemma_only_at_front(before + test_args + test_mode, tail, blackbox, at);

    lemma_only_at_back(before, test_args, doctests, 1);
    lemma_only_at_front(before + test_args, test_mode, doctests, at + 1);
    lemma_only_at_front(before + test_args + test_mode, tail, doctests, at + 1);
    at
}

} // verus!
