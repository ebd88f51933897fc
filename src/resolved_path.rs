//! Resolved asset paths.
use vstd::prelude::*;

verus! {

/// The path that an asset path resolves to.
#[derive(Clone, Debug)]
pub struct ResolvedPath(String);

impl View for ResolvedPath {
    type V = Seq<char>;

    closed spec fn view(&self) -> Seq<char> {
        self.0@
    }
}

impl ResolvedPath {
    /// A resolved path that holds `path`.
    pub fn new(path: &str) -> (r: Self)
        ensures
            r@ == path@,
    {
        ResolvedPath(path.to_owned())
    }

    /// The path, as text.
    pub fn get_path_string(&self) -> (r: &str)
        ensures
            r@ == self@,
    {
        self.0.as_str()
    }

    /// Whether the path is empty.
    pub fn is_empty(&self) -> (r: bool)
        ensures
            r == (self@.len() == 0),
    {
        self.0.as_str().is_empty()
    }
}

impl Default for ResolvedPath {
    fn default() -> (r: Self)
        ensures
            r@ == Seq::<char>::empty(),
    {
        ResolvedPath(String::new())
    }
}

impl PartialEq for ResolvedPath {
    fn eq(&self, other: &Self) -> (r: bool) {
        self.0 == other.0
    }
}

impl vstd::std_specs::cmp::PartialEqSpecImpl for ResolvedPath {
    open spec fn obeys_eq_spec() -> bool {
        true
    }

    open spec fn eq_spec(&self, other: &Self) -> bool {
        self@ == other@
    }
}

impl Eq for ResolvedPath {

}

} // verus!
