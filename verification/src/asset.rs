//! The asset reference: the identifier under which the loader is asked for
//! the one tracked asset.
//!
//! The loader addresses a sub-resource inside a packaged 3D-asset container
//! by a path-like string of the form `<container>#<sub-resource>`.  The
//! reference keeps the two parts apart and builds the locator string on
//! demand; it is created once at startup and never changes.

use vstd::prelude::*;
use vstd::string::StringExecFns;

verus! {

/// Names exactly one asset to load: a container path and the sub-resource
/// inside the container.
#[derive(Clone, Debug)]
pub struct AssetReference {
    /// Path of the packaged asset container.
    pub container: String,
    /// Name of the sub-resource inside the container.
    pub sub_resource: String,
}

impl AssetReference {
    /// Builds a reference from the container path and the sub-resource name.
    pub fn new(container: String, sub_resource: String) -> (r: AssetReference)
        ensures
            r.container@ == container@,
            r.sub_resource@ == sub_resource@,
    {
        AssetReference { container, sub_resource }
    }

    /// The locator string the loader is queried with:
    /// the container path, `#`, then the sub-resource name.
    pub fn locator(&self) -> (r: String)
        ensures
            r@ == self.container@ + seq!['#'] + self.sub_resource@,
    {
        proof {
            reveal_strlit("#");
        }
        let mut s = self.container.clone();
        s.append("#");
        s.append(self.sub_resource.as_str());
        proof {
            assert(s@ =~= self.container@ + seq!['#'] + self.sub_resource@);
        }
        s
    }
}

} // verus!
