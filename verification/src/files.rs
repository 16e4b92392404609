//! What became of an attempt to read a file.

use vstd::prelude::*;

verus! {

/// The outcome of reading a whole file as text.
#[derive(Debug)]
pub enum FileRead {
    /// The file's contents.
    Contents(String),
    /// There is no such file.
    Missing,
    /// The file is there and could not be read, for the reason given.
    Failed(String),
}

} // verus!
