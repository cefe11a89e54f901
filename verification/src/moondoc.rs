//! The command that builds the documentation of a module.

use vstd::prelude::*;

use crate::args::{
    flag_if, lemma_fragments_associate, optional_text, pair_if_some, push_arg, push_flag_if,
    push_optional_pair, push_pair,
};
use crate::compiler::CmdlineAbstraction;

verus! {

/// The arguments of the documentation tool: the source root, the output
/// directory, the standard library where there is one, the package index,
/// and `-serve-mode` where asked for.
pub open spec fn moondoc_arguments(
    source_dir: Seq<char>,
    output_dir: Seq<char>,
    std_path: Option<Seq<char>>,
    packages_json: Seq<char>,
    serve_mode: bool,
) -> Seq<Seq<char>> {
    seq![source_dir] + seq!["-o"@, output_dir] + pair_if_some("-std-path"@, std_path) + seq![
        "-packages-json"@,
        packages_json,
    ] + flag_if(serve_mode, "-serve-mode"@)
}

/// The documentation tool, run on the sources of one module.
#[derive(Clone, Copy, Debug)]
pub struct MoondocCommand<'a> {
    /// The root of the module's sources.
    pub source_dir: &'a str,
    /// Where the documentation is written.
    pub output_dir: &'a str,
    /// The standard library to link references against, if any.
    pub std_path: Option<&'a str>,
    /// The generated index of the module's packages.
    pub packages_json: &'a str,
    /// Build for the documentation server rather than for static files.
    pub serve_mode: bool,
}

impl<'a> MoondocCommand<'a> {
    /// The command, from its parts.
    pub fn new(
        source_dir: &'a str,
        output_dir: &'a str,
        std_path: Option<&'a str>,
        packages_json: &'a str,
        serve_mode: bool,
    ) -> (command: Self)
        ensures
            command == (MoondocCommand {
                source_dir,
                output_dir,
                std_path,
                packages_json,
                serve_mode,
            }),
    {
        MoondocCommand { source_dir, output_dir, std_path, packages_json, serve_mode }
    }
}

impl<'a> CmdlineAbstraction for MoondocCommand<'a> {
    open spec fn arguments(&self) -> Seq<Seq<char>> {
        moondoc_arguments(
            self.source_dir@,
            self.output_dir@,
            optional_text(self.std_path),
            self.packages_json@,
            self.serve_mode,
        )
    }

    fn to_args(&self, args: &mut Vec<String>) {
        broadcast use lemma_fragments_associate;

        push_arg(args, self.source_dir);
        push_pair(args, "-o", self.output_dir);
        push_optional_pair(args, "-std-path", self.std_path);
        push_pair(args, "-packages-json", self.packages_json);
        push_flag_if(args, self.serve_mode, "-serve-mode");
    }
}

} // verus!
