//! The command that type-checks one package and writes its interface.

use vstd::prelude::*;

use crate::args::{
    absent, contains_run, flag_if, has_no_colon, has_run_at, lemma_absent_concat,
    lemma_fragments_associate, lemma_run_in_back, lemma_run_in_front, push_arg, push_flag_if,
    push_pair,
};
use crate::build_common::{
    is_config_flag, is_input_flag, is_test_flag, lemma_config_rules_pass_nothing_else,
    lemma_deny_and_allow_are_additive, lemma_impl_virtual_is_no_other_flag,
    lemma_input_rules_pass_nothing_else, lemma_test_rules_pass_nothing_else, BuildCommonConfig,
    BuildCommonInput,
};
use crate::compiler::{CmdlineAbstraction, MOONC_ALLOW_WARNING_SET, MOONC_DENY_WARNING_SET};

verus! {

/// `check`: type-check the sources of one package.
#[derive(Clone, Copy, Debug)]
pub struct MooncCheck<'a> {
    pub required: BuildCommonInput<'a>,
    pub defaults: BuildCommonConfig<'a>,
    /// Where the interface file is written.
    pub mi_out: &'a str,
    /// The package is a single file outside any module.
    pub single_file: bool,
}

impl<'a> MooncCheck<'a> {
    /// Patch, interface suppression, diagnostics and the inputs, with the
    /// warning policy around them. The doctests of a blackbox test are taken
    /// in here, next to the files they come from.
    pub open spec fn input_args(&self) -> Seq<Seq<char>> {
        self.defaults.patch_file_args() + self.defaults.no_mi_args()
            + self.defaults.error_format_args() + self.defaults.deny_all_args()
            + self.required.mbt_sources_args() + self.required.doctest_only_args()
            + self.required.include_doctests_args() + self.defaults.custom_warn_alert_args()
            + self.defaults.warn_alert_allow_all_args()
    }

    /// The output, and what the package is and depends on.
    pub open spec fn package_args(&self) -> Seq<Seq<char>> {
        seq!["-o"@, self.mi_out@] + self.required.package_config_args()
            + self.defaults.is_main_args() + flag_if(self.single_file, "-single-file"@)
            + self.defaults.stdlib_path_args() + self.required.mi_dependency_args()
            + self.required.package_sources_args() + self.required.target_backend_args()
    }

    /// The test kind, virtual packages and the workspace.
    pub open spec fn tail_args(&self) -> Seq<Seq<char>> {
        self.required.test_kind_args() + self.defaults.virtual_package_check_args()
            + self.defaults.virtual_implementation_check_args()
            + self.defaults.workspace_root_args()
    }

    /// Appends the input section.
    fn add_input_args(&self, args: &mut Vec<String>)
        ensures
            final(args).deep_view() == old(args).deep_view() + self.input_args(),
    {
        broadcast use lemma_fragments_associate;

        self.defaults.add_patch_file_moonc(args);
        self.defaults.add_no_mi(args);
        self.defaults.add_error_format(args);
        self.defaults.add_deny_all(args);
        self.required.add_mbt_sources(args);
        self.required.add_doctest_only_sources(args);
        self.required.add_include_doctests_if_blackbox(args);
        self.defaults.add_custom_warn_alert_lists(args);
        self.defaults.add_warn_alert_allow_all(args);
    }

    /// Appends the package section.
    fn add_package_args(&self, args: &mut Vec<String>)
        ensures
            final(args).deep_view() == old(args).deep_view() + self.package_args(),
    {
        broadcast use lemma_fragments_associate;

        push_pair(args, "-o", self.mi_out);
        self.required.add_package_config(args);
        self.defaults.add_is_main(args);
        push_flag_if(args, self.single_file, "-single-file");
        self.defaults.add_stdlib_path(args);
        self.required.add_mi_dependencies(args);
        self.required.add_package_sources(args);
        self.required.add_target_backend(args);
    }

    /// Appends the tail section.
    fn add_tail_args(&self, args: &mut Vec<String>)
        ensures
            final(args).deep_view() == old(args).deep_view() + self.tail_args(),
    {
        broadcast use lemma_fragments_associate;

        self.required.add_test_kind_flags(args);
        self.defaults.add_virtual_package_check(args);
        self.defaults.add_virtual_package_implementation_check(args);
        self.defaults.add_workspace_root(args);
    }
}

impl<'a> CmdlineAbstraction for MooncCheck<'a> {
    open spec fn arguments(&self) -> Seq<Seq<char>> {
        seq!["check"@] + self.input_args() + self.package_args() + self.tail_args()
    }

    fn to_args(&self, args: &mut Vec<String>) {
        broadcast use lemma_fragments_associate;

        push_arg(args, "check");
        self.add_input_args(args);
        self.add_package_args(args);
        self.add_tail_args(args);
    }
}

impl<'a> MooncCheck<'a> {
    /// A run of the input section is a run of the whole command.
    proof fn lemma_run_of_input_args(&self, at: int, run: Seq<Seq<char>>)
        requires
            has_run_at(self.input_args(), at, run),
        ensures
            contains_run(self.arguments(), run),
    {
        let head = seq!["check"@];
        lemma_run_in_back(head, self.input_args(), at, run);
        lemma_run_in_front(head + self.input_args(), self.package_args(), 1 + at, run);
        lemma_run_in_front(
            head + self.input_args() + self.package_args(),
            self.tail_args(),
            1 + at,
            run,
        );
        assert(has_run_at(self.arguments(), 1 + at, run));
    }
}

/// Told both to deny everything and to allow all warnings, the command says
/// both: the deny-all pair and the allow-all pair for warnings each stand in
/// its arguments.
pub proof fn lemma_check_denies_and_allows(command: MooncCheck)
    requires
        command.defaults.deny_warn,
        command.defaults.warn_config is AllowAll,
    ensures
        contains_run(command.arguments(), seq!["-w"@, MOONC_DENY_WARNING_SET@]),
        contains_run(command.arguments(), seq!["-w"@, MOONC_ALLOW_WARNING_SET@]),
{
    let config = command.defaults;
    let input = command.required;
    lemma_deny_and_allow_are_additive(config);
    let deny = seq!["-w"@, MOONC_DENY_WARNING_SET@];
    let allow = seq!["-w"@, MOONC_ALLOW_WARNING_SET@];
    let upto_format = config.patch_file_args() + config.no_mi_args()
        + config.error_format_args();
    let upto_deny = upto_format + config.deny_all_args();
    let upto_sources = upto_deny + input.mbt_sources_args();
    let upto_doctests = upto_sources + input.doctest_only_args();
    let upto_include = upto_doctests + input.include_doctests_args();
    let upto_custom = upto_include + config.custom_warn_alert_args();
    let deny_at = upto_format.len() as int;
    lemma_run_in_back(upto_format, config.deny_all_args(), 0, deny);
    lemma_run_in_front(upto_deny, input.mbt_sources_args(), deny_at, deny);
    lemma_run_in_front(upto_sources, input.doctest_only_args(), deny_at, deny);
    lemma_run_in_front(upto_doctests, input.include_doctests_args(), deny_at, deny);
    lemma_run_in_front(upto_include, config.custom_warn_alert_args(), deny_at, deny);
    lemma_run_in_front(upto_custom, config.warn_alert_allow_all_args(), deny_at, deny);
    command.lemma_run_of_input_args(deny_at, deny);
    lemma_run_in_back(upto_custom, config.warn_alert_allow_all_args(), 0, allow);
    command.lemma_run_of_input_args(upto_custom.len() as int, allow);
}

/// `text` is a flag or a reserved token that `check` can pass.
pub open spec fn is_check_flag(text: Seq<char>) -> bool {
    ||| text == "check"@
    ||| text == "-o"@
    ||| text == "-single-file"@
    ||| is_input_flag(text)
    ||| is_test_flag(text)
    ||| is_config_flag(text)
}

impl<'a> MooncCheck<'a> {
    /// None of the texts that the caller supplies, and that the command
    /// passes as whole arguments, is `text`.
    pub open spec fn avoids(&self, text: Seq<char>) -> bool {
        &&& self.required.avoids(text)
        &&& self.defaults.avoids(text)
        &&& self.mi_out@ != text
    }
}

/// `check` passes its flags and the texts that the caller supplies, and
/// nothing else.
pub proof fn lemma_check_passes_nothing_else(command: MooncCheck, text: Seq<char>)
    requires
        !is_check_flag(text),
        command.avoids(text),
        has_no_colon(text),
    ensures
        absent(command.arguments(), text),
{
    let config = command.defaults;
    let input = command.required;
    lemma_input_rules_pass_nothing_else(input, text);
    lemma_test_rules_pass_nothing_else(input, text);
    lemma_config_rules_pass_nothing_else(config, text);

    let a1 = config.patch_file_args() + config.no_mi_args();
    lemma_absent_concat(config.patch_file_args(), config.no_mi_args(), text);
    let a2 = a1 + config.error_format_args();
    lemma_absent_concat(a1, config.error_format_args(), text);
    let a3 = a2 + config.deny_all_args();
    lemma_absent_concat(a2, config.deny_all_args(), text);
    let a4 = a3 + input.mbt_sources_args();
    lemma_absent_concat(a3, input.mbt_sources_args(), text);
    let a5 = a4 + input.doctest_only_args();
    lemma_absent_concat(a4, input.doctest_only_args(), text);
    let a6 = a5 + input.include_doctests_args();
    lemma_absent_concat(a5, input.include_doctests_args(), text);
    let a7 = a6 + config.custom_warn_alert_args();
    lemma_absent_concat(a6, config.custom_warn_alert_args(), text);
    lemma_absent_concat(a7, config.warn_alert_allow_all_args(), text);
    assert(absent(command.input_args(), text));

    let output = seq!["-o"@, command.mi_out@];
    let b1 = output + input.package_config_args();
    lemma_absent_concat(output, input.package_config_args(), text);
    let b2 = b1 + config.is_main_args();
    lemma_absent_concat(b1, config.is_main_args(), text);
    let b3 = b2 + flag_if(command.single_file, "-single-file"@);
    lemma_absent_concat(b2, flag_if(command.single_file, "-single-file"@), text);
    let b4 = b3 + config.stdlib_path_args();
    lemma_absent_concat(b3, config.stdlib_path_args(), text);
    let b5 = b4 + input.mi_dependency_args();
    lemma_absent_concat(b4, input.mi_dependency_args(), text);
    let b6 = b5 + input.package_sources_args();
    lemma_absent_concat(b5, input.package_sources_args(), text);
    lemma_absent_concat(b6, input.target_backend_args(), text);
    assert(absent(command.package_args(), text));

    let c1 = input.test_kind_args() + config.virtual_package_check_args();
    lemma_absent_concat(input.test_kind_args(), config.virtual_package_check_args(), text);
    let c2 = c1 + config.virtual_implementation_check_args();
    lemma_absent_concat(c1, config.virtual_implementation_check_args(), text);
    lemma_absent_concat(c2, config.workspace_root_args(), text);
    assert(absent(command.tail_args(), text));

    let head = seq!["check"@];
    lemma_absent_concat(head, command.input_args(), text);
    lemma_absent_concat(head + command.input_args(), command.package_args(), text);
    lemma_absent_concat(
        head + command.input_args() + command.package_args(),
        command.tail_args(),
        text,
    );
}

/// `check` never marks a virtual implementation as real: none of its
/// arguments is `-impl-virtual`, unless a text that the caller supplies is.
pub proof fn lemma_check_never_marks_virtual_implementation(command: MooncCheck)
    requires
        command.avoids("-impl-virtual"@),
    ensures
        absent(command.arguments(), "-impl-virtual"@),
{
    lemma_impl_virtual_is_no_other_flag();
    reveal_strlit("-impl-virtual");
    reveal_strlit("check");
    reveal_strlit("-o");
    reveal_strlit("-single-file");
    assert("-impl-virtual"@.len() == 13);
    assert("check"@.len() == 5 && "-o"@.len() == 2 && "-single-file"@.len() == 12);
    lemma_check_passes_nothing_else(command, "-impl-virtual"@);
}

} // verus!
