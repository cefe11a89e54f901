//! The command that bundles the core artifacts of a module into one.

use vstd::prelude::*;

use crate::args::{lemma_fragments_associate, push_all, push_arg, push_pair};
use crate::compiler::CmdlineAbstraction;

verus! {

/// The arguments of `bundle-core`: the inputs in the order given, then the
/// output.
pub open spec fn bundle_core_arguments(
    core_inputs: Seq<Seq<char>>,
    output_path: Seq<char>,
) -> Seq<Seq<char>> {
    seq!["bundle-core"@] + core_inputs + seq!["-o"@, output_path]
}

/// `bundle-core`: merge core artifacts into one archive.
#[derive(Clone, Copy, Debug)]
pub struct MooncBundleCore<'a> {
    /// The core artifacts to merge, in the order they are passed.
    pub core_inputs: &'a [String],
    /// Where the bundle is written.
    pub output_path: &'a str,
}

impl<'a> MooncBundleCore<'a> {
    /// The command that merges `core_inputs` into `output_path`.
    pub fn new(core_inputs: &'a [String], output_path: &'a str) -> (command: Self)
        ensures
            command.core_inputs == core_inputs,
            command.output_path == output_path,
    {
        MooncBundleCore { core_inputs, output_path }
    }
}

impl<'a> CmdlineAbstraction for MooncBundleCore<'a> {
    open spec fn arguments(&self) -> Seq<Seq<char>> {
        bundle_core_arguments(self.core_inputs.deep_view(), self.output_path@)
    }

    fn to_args(&self, args: &mut Vec<String>) {
        broadcast use lemma_fragments_associate;

        push_arg(args, "bundle-core");
        push_all(args, self.core_inputs);
        push_pair(args, "-o", self.output_path);
    }
}

} // verus!
