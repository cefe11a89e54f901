//! The command that links core artifacts into one program.

use vstd::prelude::*;

use crate::args::{
    absent, flag_if, flagged_each, has_no_colon, lemma_absent_concat, lemma_absent_flag_if,
    lemma_absent_flagged_each, lemma_colon_pair_has_a_colon, lemma_fragments_associate,
    push_all, push_arg, push_flag_if, push_pair, push_pair_owned,
};
use crate::compiler::{
    is_compilation_flag, lemma_compilation_flags_pass_nothing_else, CmdlineAbstraction,
    CompilationFlags, CompiledPackageName, PackageSource,
};
use crate::model::TargetBackend;

verus! {

/// The values of the `-pkg-sources` arguments of a list of package sources.
pub open spec fn source_args(sources: Seq<PackageSource>) -> Seq<Seq<char>> {
    sources.map_values(|source: PackageSource| source.arg())
}

/// `link-core`: link the core artifacts of a package and of what it depends
/// on. The link stage knows no workspace flag: this command holds no shared
/// configuration and applies none of its rules.
#[derive(Clone, Copy, Debug)]
pub struct MooncLinkCore<'a> {
    /// The core artifacts to link, dependencies first.
    pub core_deps: &'a [String],
    /// The package whose entry point the program starts at.
    pub main_package: CompiledPackageName<'a>,
    /// Where the linked program is written.
    pub output_path: &'a str,
    /// The configuration file of the main package.
    pub pkg_config_path: &'a str,
    /// Where the sources of each linked package live.
    pub package_sources: &'a [PackageSource<'a>],
    pub target_backend: &'a TargetBackend,
    pub flags: CompilationFlags,
    /// The program is a test executable.
    pub test_mode: bool,
}

impl<'a> MooncLinkCore<'a> {
    /// What is linked and where the result goes.
    pub open spec fn link_args(&self) -> Seq<Seq<char>> {
        self.core_deps.deep_view() + seq!["-main"@, self.main_package@] + seq![
            "-o"@,
            self.output_path@,
        ] + flag_if(self.test_mode, "-test-mode"@)
    }

    /// Package configuration, sources, backend and code generation.
    pub open spec fn package_args(&self) -> Seq<Seq<char>> {
        seq!["-pkg-config-path"@, self.pkg_config_path@] + flagged_each(
            "-pkg-sources"@,
            source_args(self.package_sources@),
        ) + seq!["-target"@, self.target_backend@] + self.flags.debug_opt_args()
    }

    /// Appends what is linked and where the result goes.
    fn add_link_args(&self, args: &mut Vec<String>)
        ensures
            final(args).deep_view() == old(args).deep_view() + self.link_args(),
    {
        broadcast use lemma_fragments_associate;

        push_all(args, self.core_deps);
        push_pair_owned(args, "-main", self.main_package.to_string());
        push_pair(args, "-o", self.output_path);
        push_flag_if(args, self.test_mode, "-test-mode");
    }

    /// Appends where the sources of each linked package live.
    fn add_package_sources(&self, args: &mut Vec<String>)
        ensures
            final(args).deep_view() == old(args).deep_view() + flagged_each(
                "-pkg-sources"@,
                source_args(self.package_sources@),
            ),
    {
        broadcast use lemma_fragments_associate;

        let mut i: usize = 0;
        while i < self.package_sources.len()
            invariant
                i <= self.package_sources.len(),
                args.deep_view() == old(args).deep_view() + flagged_each(
                    "-pkg-sources"@,
                    source_args(self.package_sources@.take(i as int)),
                ),
            decreases self.package_sources.len() - i,
        {
            push_pair_owned(args, "-pkg-sources", self.package_sources[i].to_arg());
            proof {
                let next = source_args(self.package_sources@.take(i + 1));
                assert(next.drop_last() =~= source_args(self.package_sources@.take(i as int)));
                assert(next.last() == self.package_sources@[i as int].arg());
            }
            i += 1;
        }
        assert(self.package_sources@.take(i as int) =~= self.package_sources@);
    }

    /// Appends the package section.
    fn add_package_args(&self, args: &mut Vec<String>)
        ensures
            final(args).deep_view() == old(args).deep_view() + self.package_args(),
    {
        broadcast use lemma_fragments_associate;

        push_pair(args, "-pkg-config-path", self.pkg_config_path);
        self.add_package_sources(args);
        push_pair(args, "-target", self.target_backend.to_flag());
        self.flags.add_debug_opt_flags(args);
    }
}

impl<'a> CmdlineAbstraction for MooncLinkCore<'a> {
    open spec fn arguments(&self) -> Seq<Seq<char>> {
        seq!["link-core"@] + self.link_args() + self.package_args()
    }

    fn to_args(&self, args: &mut Vec<String>) {
        broadcast use lemma_fragments_associate;

        push_arg(args, "link-core");
        self.add_link_args(args);
        self.add_package_args(args);
    }
}

/// `text` is a flag that `link-core` can pass.
pub open spec fn is_link_core_flag(text: Seq<char>) -> bool {
    ||| text == "link-core"@
    ||| text == "-main"@
    ||| text == "-o"@
    ||| text == "-test-mode"@
    ||| text == "-pkg-config-path"@
    ||| text == "-pkg-sources"@
    ||| text == "-target"@
    ||| is_compilation_flag(text)
}

impl<'a> MooncLinkCore<'a> {
    /// None of the texts that the caller supplies, and that the command
    /// passes as whole arguments, is `text`.
    pub open spec fn avoids(&self, text: Seq<char>) -> bool {
        &&& absent(self.core_deps.deep_view(), text)
        &&& self.main_package@ != text
        &&& self.output_path@ != text
        &&& self.pkg_config_path@ != text
        &&& self.target_backend@ != text
    }
}

/// `link-core` passes its flags and the texts that the caller supplies, and
/// nothing else.
pub proof fn lemma_link_core_passes_nothing_else(command: MooncLinkCore, text: Seq<char>)
    requires
        !is_link_core_flag(text),
        command.avoids(text),
        has_no_colon(text),
    ensures
        absent(command.arguments(), text),
{
    let main = seq!["-main"@, command.main_package@];
    let output = seq!["-o"@, command.output_path@];
    let test_mode = flag_if(command.test_mode, "-test-mode"@);
    lemma_absent_flag_if(command.test_mode, "-test-mode"@, text);
    lemma_absent_concat(command.core_deps.deep_view(), main, text);
    lemma_absent_concat(command.core_deps.deep_view() + main, output, text);
    lemma_absent_concat(command.core_deps.deep_view() + main + output, test_mode, text);
    assert(absent(command.link_args(), text));

    let config = seq!["-pkg-config-path"@, command.pkg_config_path@];
    let sources = source_args(command.package_sources@);
    assert forall|i: int| 0 <= i < sources.len() implies #[trigger] sources[i] != text by {
        let source = command.package_sources@[i];
        lemma_colon_pair_has_a_colon(source.package_name@, source.source_dir@, text);
    }
    lemma_absent_flagged_each("-pkg-sources"@, sources, text);
    let flagged = flagged_each("-pkg-sources"@, sources);
    let target = seq!["-target"@, command.target_backend@];
    lemma_compilation_flags_pass_nothing_else(command.flags, text);
    lemma_absent_concat(config, flagged, text);
    lemma_absent_concat(config + flagged, target, text);
    lemma_absent_concat(config + flagged + target, command.flags.debug_opt_args(), text);
    assert(absent(command.package_args(), text));

    let head = seq!["link-core"@];
    lemma_absent_concat(head, command.link_args(), text);
    lemma_absent_concat(head + command.link_args(), command.package_args(), text);
}

/// The link stage never passes the workspace flag: no argument of
/// `link-core` is `-workspace-path`, unless a text that the caller supplies
/// is.
pub proof fn lemma_link_core_never_passes_workspace_path(command: MooncLinkCore)
    requires
        command.avoids("-workspace-path"@),
    ensures
        absent(command.arguments(), "-workspace-path"@),
{
    let flag = "-workspace-path"@;
    reveal_strlit("-workspace-path");
    reveal_strlit("link-core");
    reveal_strlit("-main");
    reveal_strlit("-o");
    reveal_strlit("-test-mode");
    reveal_strlit("-pkg-config-path");
    reveal_strlit("-pkg-sources");
    reveal_strlit("-target");
    reveal_strlit("-g");
    reveal_strlit("-O0");
    reveal_strlit("-source-map");
    reveal_strlit("-enable-coverage");
    reveal_strlit("-coverage-package-override=@self");
    reveal_strlit("-enable-value-tracing");
    assert(flag.len() == 15);
    assert("link-core"@.len() == 9 && "-main"@.len() == 5 && "-o"@.len() == 2);
    assert("-test-mode"@.len() == 10 && "-pkg-config-path"@.len() == 16);
    assert("-pkg-sources"@.len() == 12 && "-target"@.len() == 7);
    assert(!is_compilation_flag(flag));
    assert forall|i: int| 0 <= i < flag.len() implies #[trigger] flag[i] != ':' by {
        assert(i == 0 || i == 1 || i == 2 || i == 3 || i == 4 || i == 5 || i == 6
            || i == 7 || i == 8 || i == 9 || i == 10 || i == 11 || i == 12 || i == 13
            || i == 14);
    }
    lemma_link_core_passes_nothing_else(command, flag);
}

} // verus!
