//! The command that generates the driver of a test target.

use vstd::prelude::*;

use crate::args::{
    flag_if, flagged_each, lemma_fragments_associate, optional_text, pair_if_some, push_all,
    push_arg, push_each_flagged, push_flag_if, push_optional_pair, push_owned, push_pair,
};
use crate::compiler::CmdlineAbstraction;
use crate::model::{TargetBackend, TargetKind};

verus! {

/// Which tests a generated driver runs.
#[derive(Clone, Copy, Debug, PartialEq, Eq, Structural)]
pub enum DriverKind {
    /// The tests written inside the package's own sources.
    Internal,
    /// The tests that see the package's private items.
    Whitebox,
    /// The tests that see the package as its users do.
    Blackbox,
}

impl DriverKind {
    /// The driver of each test kind; a target that is no test has none.
    pub open spec fn of_target(kind: TargetKind) -> Option<DriverKind> {
        match kind {
            TargetKind::Source => None,
            TargetKind::WhiteboxTest => Some(DriverKind::Whitebox),
            TargetKind::BlackboxTest => Some(DriverKind::Blackbox),
            TargetKind::InlineTest => Some(DriverKind::Internal),
            TargetKind::SubPackage => None,
        }
    }

    /// The text that names the kind on the command line.
    pub open spec fn text(self) -> Seq<char> {
        match self {
            DriverKind::Internal => "internal"@,
            DriverKind::Whitebox => "whitebox"@,
            DriverKind::Blackbox => "blackbox"@,
        }
    }

    /// The driver of a target of the given kind, if it is a test.
    pub fn for_target(kind: TargetKind) -> (driver: Option<DriverKind>)
        ensures
            driver == Self::of_target(kind),
            driver is Some <==> kind.is_test_kind(),
    {
        match kind {
            TargetKind::Source => None,
            TargetKind::WhiteboxTest => Some(DriverKind::Whitebox),
            TargetKind::BlackboxTest => Some(DriverKind::Blackbox),
            TargetKind::InlineTest => Some(DriverKind::Internal),
            TargetKind::SubPackage => None,
        }
    }

    /// The text that names the kind on the command line.
    pub fn as_str(self) -> (text: &'static str)
        ensures
            text@ == self.text(),
    {
        match self {
            DriverKind::Internal => "internal",
            DriverKind::Whitebox => "whitebox",
            DriverKind::Blackbox => "blackbox",
        }
    }
}

/// `generate-test-driver`: write the driver source and its metadata for the
/// tests found in a set of files.
#[derive(Clone, Copy, Debug)]
pub struct MoonGenTestDriver<'a> {
    /// The files whose tests the driver runs.
    pub files: &'a [String],
    /// Files read for their doctests only.
    pub doctest_only_files: &'a [String],
    /// Where the driver source is written.
    pub output_driver: &'a str,
    /// Where the test metadata is written.
    pub output_metadata: &'a str,
    /// Generate a benchmark driver.
    pub bench: bool,
    pub enable_coverage: bool,
    /// The package that coverage is accounted to, if not the tested one.
    pub coverage_package_override: Option<&'a str>,
    pub driver_kind: DriverKind,
    pub target_backend: &'a TargetBackend,
    pub patch_file: Option<&'a str>,
    /// The full name of the tested package.
    pub pkg_name: &'a str,
}

/// What a `generate-test-driver` command says, as plain texts.
pub struct MoonGenTestDriverView {
    pub files: Seq<Seq<char>>,
    pub doctest_only_files: Seq<Seq<char>>,
    pub output_driver: Seq<char>,
    pub output_metadata: Seq<char>,
    pub bench: bool,
    pub enable_coverage: bool,
    pub coverage_package_override: Option<Seq<char>>,
    pub driver_kind: DriverKind,
    pub target_backend: Seq<char>,
    pub patch_file: Option<Seq<char>>,
    pub pkg_name: Seq<char>,
}

impl MoonGenTestDriverView {
    /// The coverage override argument, `--coverage-package-override=<name>`.
    pub open spec fn coverage_override_args(self) -> Seq<Seq<char>> {
        match self.coverage_package_override {
            Some(package) => seq!["--coverage-package-override="@ + package],
            None => seq![],
        }
    }

    /// The inputs and the two outputs.
    pub open spec fn file_args(self) -> Seq<Seq<char>> {
        self.files + flagged_each("--doctest-only"@, self.doctest_only_files) + seq![
            "--output-driver"@,
            self.output_driver,
        ] + seq!["--output-metadata"@, self.output_metadata]
    }

    /// What is tested and how.
    pub open spec fn mode_args(self) -> Seq<Seq<char>> {
        seq!["--target"@, self.target_backend] + seq!["--pkg-name"@, self.pkg_name] + flag_if(
            self.enable_coverage,
            "--enable-coverage"@,
        ) + self.coverage_override_args() + seq!["--driver-kind"@, self.driver_kind.text()]
            + pair_if_some("--patch-file"@, self.patch_file) + flag_if(self.bench, "--bench"@)
    }

    /// The whole argument list.
    pub open spec fn arguments(self) -> Seq<Seq<char>> {
        seq!["generate-test-driver"@] + self.file_args() + self.mode_args()
    }
}

impl<'a> View for MoonGenTestDriver<'a> {
    type V = MoonGenTestDriverView;

    open spec fn view(&self) -> MoonGenTestDriverView {
        MoonGenTestDriverView {
            files: self.files.deep_view(),
            doctest_only_files: self.doctest_only_files.deep_view(),
            output_driver: self.output_driver@,
            output_metadata: self.output_metadata@,
            bench: self.bench,
            enable_coverage: self.enable_coverage,
            coverage_package_override: optional_text(self.coverage_package_override),
            driver_kind: self.driver_kind,
            target_backend: self.target_backend@,
            patch_file: optional_text(self.patch_file),
            pkg_name: self.pkg_name@,
        }
    }
}

impl<'a> MoonGenTestDriver<'a> {
    /// Appends the inputs and the two outputs.
    fn add_file_args(&self, args: &mut Vec<String>)
        ensures
            final(args).deep_view() == old(args).deep_view() + self@.file_args(),
    {
        broadcast use lemma_fragments_associate;

        push_all(args, self.files);
        push_each_flagged(args, "--doctest-only", self.doctest_only_files);
        push_pair(args, "--output-driver", self.output_driver);
        push_pair(args, "--output-metadata", self.output_metadata);
    }

    /// Appends the coverage override.
    fn add_coverage_override(&self, args: &mut Vec<String>)
        ensures
            final(args).deep_view() == old(args).deep_view() + self@.coverage_override_args(),
    {
        broadcast use lemma_fragments_associate;

        if let Some(package) = self.coverage_package_override {
            let mut arg = String::from_str("--coverage-package-override=");
            arg.append(package);
            push_owned(args, arg);
        }
        assert(args.deep_view() =~= old(args).deep_view() + self@.coverage_override_args());
    }

    /// Appends the mode section.
    fn add_mode_args(&self, args: &mut Vec<String>)
        ensures
            final(args).deep_view() == old(args).deep_view() + self@.mode_args(),
    {
        broadcast use lemma_fragments_associate;

        push_pair(args, "--target", self.target_backend.to_flag());
        push_pair(args, "--pkg-name", self.pkg_name);
        push_flag_if(args, self.enable_coverage, "--enable-coverage");
        self.add_coverage_override(args);
        push_pair(args, "--driver-kind", self.driver_kind.as_str());
        push_optional_pair(args, "--patch-file", self.patch_file);
        push_flag_if(args, self.bench, "--bench");
    }
}

impl<'a> CmdlineAbstraction for MoonGenTestDriver<'a> {
    open spec fn arguments(&self) -> Seq<Seq<char>> {
        self@.arguments()
    }

    fn to_args(&self, args: &mut Vec<String>) {
        broadcast use lemma_fragments_associate;

        push_arg(args, "generate-test-driver");
        self.add_file_args(args);
        self.add_mode_args(args);
    }
}

} // verus!
