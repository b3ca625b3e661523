//! The list of file paths that a drag session carries.
//!
//! Paths are held in a `smallvec::SmallVec` with room for two paths inline,
//! as the platform layer does; each path is the path's text.

use smallvec::SmallVec;
use vstd::prelude::*;

verus! {

/// The paths of files that take part in a drag.
///
/// The paths live in a `SmallVec`, which Verus cannot declare (its element
/// type is reached through the crate's `Array` trait), so the struct is
/// opaque and its contents are named by `external_paths_items`.
#[verifier::external_body]
pub struct ExternalPaths {
    paths: SmallVec<[String; 2]>,
}

/// The paths that an `ExternalPaths` holds, in order.
pub uninterp spec fn external_paths_items(p: ExternalPaths) -> Seq<String>;

/// Calls `SmallVec::from_vec`, which moves the vector's items, in order,
/// into a new `SmallVec`; the contract claims that the result holds exactly
/// `items`, in the same order.
#[verifier::external_body]
fn paths_from_vec(items: Vec<String>) -> (p: ExternalPaths)
    ensures
        external_paths_items(p) == items@,
{
    ExternalPaths { paths: SmallVec::from_vec(items) }
}

/// Calls `SmallVec::into_vec`, which hands the items back in a `Vec`; the
/// contract claims that the vector holds exactly the `SmallVec`'s items, in
/// order.
#[verifier::external_body]
fn paths_into_vec(p: ExternalPaths) -> (items: Vec<String>)
    ensures
        items@ == external_paths_items(p),
{
    p.paths.into_vec()
}

/// The texts of `strings`, in order.
pub open spec fn texts(strings: Seq<String>) -> Seq<Seq<char>> {
    strings.map_values(|s: String| s@)
}

impl View for ExternalPaths {
    type V = Seq<String>;

    open spec fn view(&self) -> Seq<String> {
        external_paths_items(*self)
    }
}

impl ExternalPaths {
    /// The paths `paths`, in order.
    pub fn from_vec(paths: Vec<String>) -> (p: ExternalPaths)
        ensures
            p@ == paths@,
    {
        paths_from_vec(paths)
    }

    /// The paths, in order.
    pub fn into_vec(self) -> (paths: Vec<String>)
        ensures
            paths@ == self@,
    {
        paths_into_vec(self)
    }
}

} // verus!
