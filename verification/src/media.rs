//! Tables of the images that a lesson shows, keyed by the input that selects them.

use vstd::prelude::*;

verus! {

/// One image of a lesson.
#[derive(Clone, Copy, Debug, PartialEq, Eq)]
pub struct Asset {
    /// The key under which the loaded image is kept.
    pub key: i32,
    /// Where the image file lies, relative to the working directory.
    pub path: &'static str,
    /// How the console names the image when it cannot be loaded.
    pub label: &'static str,
}

/// Whether `table` holds an image under `key`.
pub open spec fn has_key(table: Seq<Asset>, key: i32) -> bool {
    exists|i: int| 0 <= i < table.len() && #[trigger] table[i].key == key
}

/// Whether no two entries of `table` share a key, so that loading the table
/// into a map keeps every image.
pub open spec fn distinct_keys(table: Seq<Asset>) -> bool {
    forall|i: int, j: int|
        0 <= i < j < table.len() ==> #[trigger] table[i].key != #[trigger] table[j].key
}

} // verus!
