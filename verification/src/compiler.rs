//! The vocabulary of the package compiler's command line: the values that
//! every command assembler is built from, and the capability they share.

use vstd::prelude::*;

use crate::args::{
    absent, colon_pair, flag_if, join_colon, lemma_absent_concat, lemma_absent_flag_if,
    lemma_fragments_associate, push_arg, push_flag_if,
};
use crate::model::{BuildTarget, PackageFQN, TargetKind};

verus! {

/// Warning set that turns every warning into an error.
pub const MOONC_DENY_WARNING_SET: &'static str = "@a-31-32";

/// Alert set that turns every alert into an error.
pub const MOONC_DENY_ALERT_SET: &'static str = "@all-raise-throw-unsafe+deprecated";

/// Warning set that silences every warning.
pub const MOONC_ALLOW_WARNING_SET: &'static str = "-a";

/// Alert set that silences every alert.
pub const MOONC_ALLOW_ALERT_SET: &'static str = "-all";

/// How the compiler reports diagnostics.
#[derive(Clone, Copy, Debug, PartialEq, Eq, Structural)]
pub enum ErrorFormat {
    Regular,
    Json,
}

/// A compiled interface artifact that a package resolves names against,
/// with the alias it is known by.
#[derive(Clone, Copy, Debug)]
pub struct MiDependency<'a> {
    pub path: &'a str,
    pub alias: Option<&'a str>,
}

impl<'a> MiDependency<'a> {
    /// The alias in effect: the one given, else the path's own text.
    pub open spec fn alias_text(&self) -> Seq<char> {
        match self.alias {
            Some(alias) => alias@,
            None => self.path@,
        }
    }

    /// The value of the `-i` argument, `<path>:<alias>`.
    pub open spec fn alias_arg(&self) -> Seq<char> {
        colon_pair(self.path@, self.alias_text())
    }

    /// The value of the `-i` argument.
    pub fn to_alias_arg(&self) -> (arg: String)
        ensures
            arg@ == self.alias_arg(),
    {
        match self.alias {
            Some(alias) => join_colon(self.path, alias),
            None => join_colon(self.path, self.path),
        }
    }

    /// A dependency known by `alias`.
    pub fn new(path: &'a str, alias: &'a str) -> (dep: Self)
        ensures
            dep.path == path,
            dep.alias == Some(alias),
    {
        MiDependency { path, alias: Some(alias) }
    }

    /// A dependency known by its own path.
    pub fn no_alias(path: &'a str) -> (dep: Self)
        ensures
            dep.path == path,
            dep.alias is None,
    {
        MiDependency { path, alias: None }
    }
}

/// The name the compiler knows a package's target by: the package's
/// fully-qualified name followed by the suffix of the target kind.
#[derive(Clone, Copy, Debug)]
pub struct CompiledPackageName<'a> {
    pub fqn: &'a PackageFQN,
    pub kind: TargetKind,
}

impl<'a> View for CompiledPackageName<'a> {
    type V = Seq<char>;

    open spec fn view(&self) -> Seq<char> {
        self.fqn@ + self.kind.suffix()
    }
}

impl<'a> CompiledPackageName<'a> {
    /// The name of `target`, a target of the package named `fqn`.
    pub fn new(fqn: &'a PackageFQN, target: BuildTarget) -> (name: Self)
        ensures
            name.fqn == fqn,
            name.kind == target.kind,
    {
        CompiledPackageName { fqn, kind: target.kind }
    }

    /// The display name.
    pub fn to_string(&self) -> (text: String)
        ensures
            text@ == self@,
    {
        let mut text = String::from_str(self.fqn.as_str());
        text.append(self.kind.name_suffix());
        text
    }
}

/// The source target and the three test targets of one package never share
/// a compiled name.
pub proof fn lemma_compiled_names_never_collide(
    first: CompiledPackageName,
    second: CompiledPackageName,
)
    requires
        first.fqn@ == second.fqn@,
        first.kind != second.kind,
        !(first.kind is SubPackage),
        !(second.kind is SubPackage),
    ensures
        first@ != second@,
{
    reveal_strlit("");
    reveal_strlit("__wb_test");
    reveal_strlit("__bb_test");
    reveal_strlit("__inline_test");
    let name = first.fqn@;
    let first_suffix = first.kind.suffix();
    let second_suffix = second.kind.suffix();
    assert(first_suffix != second_suffix) by {
        if first_suffix.len() == second_suffix.len() {
            assert(first_suffix[2] != second_suffix[2]);
        }
    }
    if name + first_suffix == name + second_suffix {
        assert((name + first_suffix).skip(name.len() as int) =~= first_suffix);
        assert((name + second_suffix).skip(name.len() as int) =~= second_suffix);
    }
}

/// A sub-package is named as the source target of its package is.
pub proof fn lemma_sub_package_named_as_source(
    sub_package: CompiledPackageName,
    source: CompiledPackageName,
)
    requires
        sub_package.fqn@ == source.fqn@,
        sub_package.kind is SubPackage,
        source.kind is Source,
    ensures
        sub_package@ == source@,
        sub_package@ == source.fqn@,
{
    reveal_strlit("");
    assert(source.fqn@ + ""@ =~= source.fqn@);
}

/// Where the sources of a compiled package live.
#[derive(Clone, Copy, Debug)]
pub struct PackageSource<'a> {
    pub package_name: CompiledPackageName<'a>,
    pub source_dir: &'a str,
}

impl<'a> PackageSource<'a> {
    /// The value of a `-pkg-sources` argument, `<name>:<dir>`.
    pub open spec fn arg(&self) -> Seq<char> {
        colon_pair(self.package_name@, self.source_dir@)
    }

    /// The value of the `-pkg-sources` argument.
    pub fn to_arg(&self) -> (arg: String)
        ensures
            arg@ == self.arg(),
    {
        let name = self.package_name.to_string();
        join_colon(name.as_str(), self.source_dir)
    }
}

/// The concrete package that stands in for a virtual one, and the interface
/// it is checked against.
#[derive(Clone, Copy, Debug)]
pub struct VirtualPackageImplementation<'a> {
    pub mi_path: &'a str,
    pub package_name: &'a PackageFQN,
    pub package_path: &'a str,
}

impl<'a> VirtualPackageImplementation<'a> {
    /// The value of the `-pkg-sources` argument that locates the
    /// implementing package, `<name>:<path>`.
    pub open spec fn sources_arg(&self) -> Seq<char> {
        colon_pair(self.package_name@, self.package_path@)
    }

    /// The value of the `-pkg-sources` argument.
    pub fn to_sources_arg(&self) -> (arg: String)
        ensures
            arg@ == self.sources_arg(),
    {
        join_colon(self.package_name.as_str(), self.package_path)
    }
}

/// Optimisation and instrumentation switches; each stands for one flag.
#[derive(Clone, Copy, Debug)]
pub struct CompilationFlags {
    /// Disable optimisation (`-O0`).
    pub no_opt: bool,
    /// Include debug symbols (`-g`).
    pub symbols: bool,
    /// Emit a source map (`-source-map`).
    pub source_map: bool,
    /// Instrument for coverage (`-enable-coverage`).
    pub enable_coverage: bool,
    /// Let the package measure its own coverage
    /// (`-coverage-package-override=@self`).
    pub self_coverage: bool,
    /// Trace values at run time (`-enable-value-tracing`).
    pub enable_value_tracing: bool,
}

impl CompilationFlags {
    /// Debug symbols, then optimisation, then source map.
    pub open spec fn debug_opt_args(&self) -> Seq<Seq<char>> {
        flag_if(self.symbols, "-g"@) + flag_if(self.no_opt, "-O0"@) + flag_if(
            self.source_map,
            "-source-map"@,
        )
    }

    /// Coverage, self-coverage, then value tracing.
    pub open spec fn instrumentation_args(&self) -> Seq<Seq<char>> {
        flag_if(self.enable_coverage, "-enable-coverage"@) + flag_if(
            self.self_coverage,
            "-coverage-package-override=@self"@,
        ) + flag_if(self.enable_value_tracing, "-enable-value-tracing"@)
    }

    /// Appends the flags for debugging and optimisation.
    pub fn add_debug_opt_flags(&self, args: &mut Vec<String>)
        ensures
            final(args).deep_view() == old(args).deep_view() + self.debug_opt_args(),
    {
        broadcast use lemma_fragments_associate;

        push_flag_if(args, self.symbols, "-g");
        push_flag_if(args, self.no_opt, "-O0");
        push_flag_if(args, self.source_map, "-source-map");
    }

    /// Appends the flags for instrumentation.
    pub fn add_instrumentation_flags(&self, args: &mut Vec<String>)
        ensures
            final(args).deep_view() == old(args).deep_view() + self.instrumentation_args(),
    {
        broadcast use lemma_fragments_associate;

        push_flag_if(args, self.enable_coverage, "-enable-coverage");
        push_flag_if(args, self.self_coverage, "-coverage-package-override=@self");
        push_flag_if(args, self.enable_value_tracing, "-enable-value-tracing");
    }
}

/// `text` is one of the flags that the switches stand for.
pub open spec fn is_compilation_flag(text: Seq<char>) -> bool {
    ||| text == "-g"@
    ||| text == "-O0"@
    ||| text == "-source-map"@
    ||| text == "-enable-coverage"@
    ||| text == "-coverage-package-override=@self"@
    ||| text == "-enable-value-tracing"@
}

/// The switches pass their flags and nothing else.
pub proof fn lemma_compilation_flags_pass_nothing_else(flags: CompilationFlags, text: Seq<char>)
    requires
        !is_compilation_flag(text),
    ensures
        absent(flags.debug_opt_args(), text),
        absent(flags.instrumentation_args(), text),
{
    lemma_absent_flag_if(flags.symbols, "-g"@, text);
    lemma_absent_flag_if(flags.no_opt, "-O0"@, text);
    lemma_absent_flag_if(flags.source_map, "-source-map"@, text);
    lemma_absent_concat(flag_if(flags.symbols, "-g"@), flag_if(flags.no_opt, "-O0"@), text);
    lemma_absent_concat(
        flag_if(flags.symbols, "-g"@) + flag_if(flags.no_opt, "-O0"@),
        flag_if(flags.source_map, "-source-map"@),
        text,
    );
    lemma_absent_flag_if(flags.enable_coverage, "-enable-coverage"@, text);
    lemma_absent_flag_if(flags.self_coverage, "-coverage-package-override=@self"@, text);
    lemma_absent_flag_if(flags.enable_value_tracing, "-enable-value-tracing"@, text);
    lemma_absent_concat(
        flag_if(flags.enable_coverage, "-enable-coverage"@),
        flag_if(flags.self_coverage, "-coverage-package-override=@self"@),
        text,
    );
    lemma_absent_concat(
        flag_if(flags.enable_coverage, "-enable-coverage"@) + flag_if(
            flags.self_coverage,
            "-coverage-package-override=@self"@,
        ),
        flag_if(flags.enable_value_tracing, "-enable-value-tracing"@),
        text,
    );
}

/// Each switch stands for one flag of its own: the flag is passed exactly
/// when the switch is set.
pub proof fn lemma_each_switch_is_one_flag(flags: CompilationFlags)
    ensures
        flags.debug_opt_args().contains("-g"@) <==> flags.symbols,
        flags.debug_opt_args().contains("-O0"@) <==> flags.no_opt,
        flags.debug_opt_args().contains("-source-map"@) <==> flags.source_map,
        flags.instrumentation_args().contains("-enable-coverage"@) <==> flags.enable_coverage,
        flags.instrumentation_args().contains("-coverage-package-override=@self"@)
            <==> flags.self_coverage,
        flags.instrumentation_args().contains("-enable-value-tracing"@)
            <==> flags.enable_value_tracing,
{
    reveal_strlit("-g");
    reveal_strlit("-O0");
    reveal_strlit("-source-map");
    reveal_strlit("-enable-coverage");
    reveal_strlit("-coverage-package-override=@self");
    reveal_strlit("-enable-value-tracing");
    assert("-g"@.len() == 2 && "-O0"@.len() == 3 && "-source-map"@.len() == 11);
    assert("-enable-coverage"@.len() == 16 && "-enable-value-tracing"@.len() == 21);
    assert("-coverage-package-override=@self"@.len() == 32);
    let debug = flags.debug_opt_args();
    let symbols = flag_if(flags.symbols, "-g"@);
    let no_opt = flag_if(flags.no_opt, "-O0"@);
    if flags.symbols {
        assert(debug[0] == "-g"@);
    }
    if flags.no_opt {
        assert(debug[symbols.len() as int] == "-O0"@);
    }
    if flags.source_map {
        assert(debug[(symbols.len() + no_opt.len()) as int] == "-source-map"@);
    }
    let instrumentation = flags.instrumentation_args();
    let coverage = flag_if(flags.enable_coverage, "-enable-coverage"@);
    let self_coverage = flag_if(flags.self_coverage, "-coverage-package-override=@self"@);
    if flags.enable_coverage {
        assert(instrumentation[0] == "-enable-coverage"@);
    }
    if flags.self_coverage {
        assert(instrumentation[coverage.len() as int] == "-coverage-package-override=@self"@);
    }
    if flags.enable_value_tracing {
        assert(instrumentation[(coverage.len() + self_coverage.len()) as int]
            == "-enable-value-tracing"@);
    }
}

/// The policy for warnings, or for alerts.
#[derive(Clone, Copy, Debug)]
pub enum WarnAlertConfig<'a> {
    /// Say nothing; the compiler's own default applies.
    Default,
    /// Pass this list as it is.
    List(&'a str),
    /// Turn all of them into errors. The shared rules pass the deny-all
    /// sets for `deny_warn` alone: this policy by itself adds no argument.
    DenyAll,
    /// Silence all of them.
    AllowAll,
}

impl<'a> Default for WarnAlertConfig<'a> {
    fn default() -> (config: Self)
        ensures
            config is Default,
    {
        WarnAlertConfig::Default
    }
}

/// A command that can render itself as arguments.
pub trait CmdlineAbstraction {
    /// The arguments of this command, without the executable's name.
    spec fn arguments(&self) -> Seq<Seq<char>>;

    /// Appends this command's arguments to `args`.
    fn to_args(&self, args: &mut Vec<String>)
        ensures
            final(args).deep_view() == old(args).deep_view() + self.arguments(),
    ;

    /// The complete argument vector: the executable's name, then the
    /// arguments.
    fn build_command(&self, executable: &str) -> (command: Vec<String>)
        ensures
            command.deep_view() == seq![executable@] + self.arguments(),
    {
        let mut command: Vec<String> = Vec::new();
        push_arg(&mut command, executable);
        self.to_args(&mut command);
        assert(command.deep_view() =~= seq![executable@] + self.arguments());
        command
    }
}

} // verus!
