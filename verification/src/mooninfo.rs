//! The command that renders a compiled interface as a readable summary.

use vstd::prelude::*;

use crate::args::{flag_if, lemma_fragments_associate, push_arg, push_flag_if, push_owned};
use crate::compiler::CmdlineAbstraction;

verus! {

/// The interface summary tool: read one interface artifact, write its
/// summary as text.
#[derive(Clone, Copy, Debug)]
pub struct Mooninfo<'a> {
    /// The compiled interface to read.
    pub mi_in: &'a str,
    /// Where the summary is written.
    pub out: &'a str,
    /// Spell out names in full instead of through aliases.
    pub no_alias: bool,
}

/// The arguments of the interface summary tool: text format, the interface
/// to read, `-o=<out>`, and `-no-alias` where asked for.
pub open spec fn mooninfo_arguments(
    mi_in: Seq<char>,
    out: Seq<char>,
    no_alias: bool,
) -> Seq<Seq<char>> {
    seq!["-format=text"@, mi_in, "-o="@ + out] + flag_if(no_alias, "-no-alias"@)
}

impl<'a> CmdlineAbstraction for Mooninfo<'a> {
    open spec fn arguments(&self) -> Seq<Seq<char>> {
        mooninfo_arguments(self.mi_in@, self.out@, self.no_alias)
    }

    fn to_args(&self, args: &mut Vec<String>) {
        broadcast use lemma_fragments_associate;

        push_arg(args, "-format=text");
        push_arg(args, self.mi_in);
        let mut out_arg = String::from_str("-o=");
        out_arg.append(self.out);
        push_owned(args, out_arg);
        assert(args.deep_view() =~= old(args).deep_view() + seq![
            "-format=text"@,
            self.mi_in@,
            "-o="@ + self.out@,
        ]);
        push_flag_if(args, self.no_alias, "-no-alias");
    }
}

} // verus!
