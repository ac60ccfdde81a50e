//! Where the shader compiler searches for the module that all shaders import.

use vstd::prelude::*;

verus! {

/// A directory that may hold the shared module.
#[derive(Clone, Copy, Debug, PartialEq, Eq, Structural)]
pub enum SlangDir {
    /// The directory that the environment names.
    Environment,
    /// Beside the executable.
    BesideExecutable,
    /// The resources of a bundle, under the name of the library.
    BundleLibrary,
    /// The resources of a bundle.
    Bundle,
    /// The checkout that the library was built from.
    Checkout,
    /// A temporary copy of the module that is part of the library.
    Embedded,
}

/// The directories in the order in which they are searched.
pub open spec fn search_order() -> Seq<SlangDir> {
    seq![
        SlangDir::Environment,
        SlangDir::BesideExecutable,
        SlangDir::BundleLibrary,
        SlangDir::Bundle,
        SlangDir::Checkout,
    ]
}

/// Which directories hold the shared module. One that is not there holds nothing.
#[derive(Clone, Copy, Debug, PartialEq, Eq, Structural)]
pub struct SharedModules {
    pub environment: bool,
    pub beside_executable: bool,
    pub bundle_library: bool,
    pub bundle: bool,
    pub checkout: bool,
}

impl SharedModules {
    /// The directory holds the shared module; the embedded copy always does.
    pub open spec fn holds(self, dir: SlangDir) -> bool {
        match dir {
            SlangDir::Environment => self.environment,
            SlangDir::BesideExecutable => self.beside_executable,
            SlangDir::BundleLibrary => self.bundle_library,
            SlangDir::Bundle => self.bundle,
            SlangDir::Checkout => self.checkout,
            SlangDir::Embedded => true,
        }
    }

    /// Whether the directory holds the shared module.
    pub fn dir_has_shared(self, dir: SlangDir) -> (b: bool)
        ensures
            b == self.holds(dir),
    {
        match dir {
            SlangDir::Environment => self.environment,
            SlangDir::BesideExecutable => self.beside_executable,
            SlangDir::BundleLibrary => self.bundle_library,
            SlangDir::Bundle => self.bundle,
            SlangDir::Checkout => self.checkout,
            SlangDir::Embedded => true,
        }
    }
}

impl SlangDir {
    /// The place of a directory below the directory of the executable.
    pub fn below_executable(self) -> (path: Option<&'static str>)
        ensures
            path == (match self {
                SlangDir::BesideExecutable => Some("slang"),
                SlangDir::BundleLibrary => Some("../Resources/ekrano/slang"),
                SlangDir::Bundle => Some("../Resources/slang"),
                _ => None,
            }),
            path is Some <==> self is BesideExecutable || self is BundleLibrary || self is Bundle,
    {
        match self {
            SlangDir::BesideExecutable => Some("slang"),
            SlangDir::BundleLibrary => Some("../Resources/ekrano/slang"),
            SlangDir::Bundle => Some("../Resources/slang"),
            _ => None,
        }
    }
}

/// The directory that the shader compiler searches: the first that holds the shared module, and the
/// embedded copy where none does.
pub fn slang_search_path(modules: SharedModules) -> (dir: SlangDir)
    ensures
        modules.holds(dir),
        match dir {
            SlangDir::Embedded => forall|i: int|
                0 <= i < search_order().len() ==> !modules.holds(#[trigger] search_order()[i]),
            _ => exists|k: int|
                {
                    &&& 0 <= k < search_order().len()
                    &&& dir == #[trigger] search_order()[k]
                    &&& forall|i: int| 0 <= i < k ==> !modules.holds(#[trigger] search_order()[i])
                },
        },
        modules.environment <==> dir is Environment,
        dir is BesideExecutable <==> !modules.environment && modules.beside_executable,
        dir is BundleLibrary <==> !modules.environment && !modules.beside_executable && modules.bundle_library,
        dir is Checkout ==> !modules.bundle && !modules.bundle_library && modules.checkout,
        dir is Bundle ==> !modules.bundle_library && modules.bundle,
        dir is Embedded <==> !modules.environment && !modules.beside_executable && !modules.bundle_library
            && !modules.bundle && !modules.checkout,
{
    let order: [SlangDir; 5] = [
        SlangDir::Environment,
        SlangDir::BesideExecutable,
        SlangDir::BundleLibrary,
        SlangDir::Bundle,
        SlangDir::Checkout,
    ];
    assert(order@ =~= search_order());
    let mut i: usize = 0;
    while i < 5
        invariant
            i <= 5,
            order@ == search_order(),
            forall|k: int| 0 <= k < i ==> !modules.holds(#[trigger] search_order()[k]),
        decreases 5 - i,
    {
        if modules.dir_has_shared(order[i]) {
            assert(order[i as int] == search_order()[i as int]);
            return order[i];
        }
        i = i + 1;
    }
    SlangDir::Embedded
}

} // verus!
