//! Identity of what gets built: packages, target kinds and backends.

use vstd::prelude::*;

verus! {

/// What a compiled unit is: production source, one of three flavours of test,
/// or a sub-package.
#[derive(Clone, Copy, Debug, PartialEq, Eq, Hash, Structural)]
pub enum TargetKind {
    Source,
    WhiteboxTest,
    BlackboxTest,
    InlineTest,
    SubPackage,
}

impl TargetKind {
    /// The three test flavours.
    pub open spec fn is_test_kind(self) -> bool {
        self is WhiteboxTest || self is BlackboxTest || self is InlineTest
    }

    /// The suffix that tells the artifacts of one package's targets apart.
    /// A sub-package shares the empty suffix with the source target.
    pub open spec fn suffix(self) -> Seq<char> {
        match self {
            TargetKind::Source => ""@,
            TargetKind::WhiteboxTest => "__wb_test"@,
            TargetKind::BlackboxTest => "__bb_test"@,
            TargetKind::InlineTest => "__inline_test"@,
            TargetKind::SubPackage => ""@,
        }
    }

    /// Whether this target is a test.
    #[verifier::when_used_as_spec(is_test_kind)]
    pub fn is_test(self) -> (test: bool)
        ensures
            test == self.is_test_kind(),
    {
        match self {
            TargetKind::WhiteboxTest | TargetKind::BlackboxTest | TargetKind::InlineTest => true,
            TargetKind::Source | TargetKind::SubPackage => false,
        }
    }

    /// The suffix as text.
    pub fn name_suffix(self) -> (text: &'static str)
        ensures
            text@ == self.suffix(),
    {
        match self {
            TargetKind::Source => "",
            TargetKind::WhiteboxTest => "__wb_test",
            TargetKind::BlackboxTest => "__bb_test",
            TargetKind::InlineTest => "__inline_test",
            TargetKind::SubPackage => "",
        }
    }
}

/// Handle of a package in the resolved package set.
#[derive(Clone, Copy, Debug, PartialEq, Eq, Hash, Structural)]
pub struct PackageId(pub u32);

/// Handle of a module in the resolved module set.
#[derive(Clone, Copy, Debug, PartialEq, Eq, Hash, Structural)]
pub struct ModuleId(pub u32);

/// A package together with the kind of target built from it.
#[derive(Clone, Copy, Debug, PartialEq, Eq, Hash, Structural)]
pub struct BuildTarget {
    pub package: PackageId,
    pub kind: TargetKind,
}

/// Fully-qualified name of a package, held as the text it displays as.
#[derive(Clone, Debug)]
pub struct PackageFQN {
    pub name: String,
}

impl View for PackageFQN {
    type V = Seq<char>;

    open spec fn view(&self) -> Seq<char> {
        self.name@
    }
}

impl PackageFQN {
    /// The name that displays as `name`.
    pub fn new(name: &str) -> (fqn: Self)
        ensures
            fqn@ == name@,
    {
        PackageFQN { name: String::from_str(name) }
    }

    /// The name as text.
    pub fn as_str(&self) -> (text: &str)
        ensures
            text@ == self@,
    {
        self.name.as_str()
    }
}

/// A compilation backend, known here by the text that selects it on a
/// command line.
#[derive(Clone, Debug)]
pub struct TargetBackend {
    pub flag: String,
}

impl View for TargetBackend {
    type V = Seq<char>;

    open spec fn view(&self) -> Seq<char> {
        self.flag@
    }
}

impl TargetBackend {
    /// The backend that `flag` selects.
    pub fn new(flag: &str) -> (backend: Self)
        ensures
            backend@ == flag@,
    {
        TargetBackend { flag: String::from_str(flag) }
    }

    /// The text that selects this backend.
    pub fn to_flag(&self) -> (flag: &str)
        ensures
            flag@ == self@,
    {
        self.flag.as_str()
    }
}

} // verus!
