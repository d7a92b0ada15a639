//! How the files of a package get from the store to its directory.

use vstd::prelude::*;

verus! {

/// The import method that the user configured.
#[derive(Debug, Clone, Copy, PartialEq, Eq, Structural)]
pub enum PackageImportMethod {
    Auto,
    Hardlink,
    Copy,
    Clone,
    CloneOrCopy,
}

/// The import method that progress reports carry.
#[derive(Debug, Clone, Copy, PartialEq, Eq, Structural)]
pub enum WireImportMethod {
    Clone,
    Hardlink,
    Copy,
}

impl PackageImportMethod {
    /// The name of the method.
    pub open spec fn spec_name(self) -> Seq<char> {
        match self {
            PackageImportMethod::Auto => "Auto"@,
            PackageImportMethod::Hardlink => "Hardlink"@,
            PackageImportMethod::Copy => "Copy"@,
            PackageImportMethod::Clone => "Clone"@,
            PackageImportMethod::CloneOrCopy => "CloneOrCopy"@,
        }
    }

    /// The name of the method.
    pub fn name(&self) -> (name: &'static str)
        ensures
            name@ == self.spec_name(),
    {
        match self {
            PackageImportMethod::Auto => "Auto",
            PackageImportMethod::Hardlink => "Hardlink",
            PackageImportMethod::Copy => "Copy",
            PackageImportMethod::Clone => "Clone",
            PackageImportMethod::CloneOrCopy => "CloneOrCopy",
        }
    }
}

/// Whether the first thing that a method tries is to clone.
pub open spec fn tries_clone_first(method: PackageImportMethod) -> bool {
    method is Auto || method is Clone || method is CloneOrCopy
}

/// The method that a progress report names: the one that is tried first. Reports
/// know three methods only, and a method with a fallback is reported as if the
/// fallback were never needed.
pub fn optimistic_wire_method(method: PackageImportMethod) -> (wire: WireImportMethod)
    ensures
        wire is Clone <==> tries_clone_first(method),
        wire is Hardlink <==> method is Hardlink,
        wire is Copy <==> method is Copy,
{
    match method {
        PackageImportMethod::Auto
        | PackageImportMethod::Clone
        | PackageImportMethod::CloneOrCopy => WireImportMethod::Clone,
        PackageImportMethod::Hardlink => WireImportMethod::Hardlink,
        PackageImportMethod::Copy => WireImportMethod::Copy,
    }
}

/// Different methods have different names, and no name holds a NUL.
pub proof fn method_names_differ(a: PackageImportMethod, b: PackageImportMethod)
    ensures
        a.spec_name() == b.spec_name() <==> a == b,
        !a.spec_name().contains('\0'),
{
    reveal_strlit("Auto");
    reveal_strlit("Hardlink");
    reveal_strlit("Copy");
    reveal_strlit("Clone");
    reveal_strlit("CloneOrCopy");
    if a.spec_name() == b.spec_name() {
        assert(a.spec_name().len() == b.spec_name().len());
        assert(a.spec_name()[0] == b.spec_name()[0]);
    }
}

/// A method with a fallback is reported as a clone, and every other one as what it
/// is.
pub proof fn reports_name_what_is_tried_first(method: PackageImportMethod, wire: WireImportMethod)
    requires
        call_ensures(optimistic_wire_method, (method,), wire),
    ensures
        method is Auto || method is Clone || method is CloneOrCopy <==> wire is Clone,
        method is Hardlink <==> wire is Hardlink,
        method is Copy <==> wire is Copy,
{
}

/// The five methods are written as `Auto`, `Hardlink`, `Copy`, `Clone` and
/// `CloneOrCopy`.
pub proof fn methods_are_written_by_name(method: PackageImportMethod, name: &'static str)
    requires
        call_ensures(PackageImportMethod::name, (&method,), name),
    ensures
        method is Auto <==> name@ == "Auto"@,
        method is Hardlink <==> name@ == "Hardlink"@,
        method is Copy <==> name@ == "Copy"@,
        method is Clone <==> name@ == "Clone"@,
        method is CloneOrCopy <==> name@ == "CloneOrCopy"@,
{
    method_names_differ(method, PackageImportMethod::Auto);
    method_names_differ(method, PackageImportMethod::Hardlink);
    method_names_differ(method, PackageImportMethod::Copy);
    method_names_differ(method, PackageImportMethod::Clone);
    method_names_differ(method, PackageImportMethod::CloneOrCopy);
}

} // verus!
