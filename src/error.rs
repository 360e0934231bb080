use vstd::prelude::*;

verus! {

/// Why an archive, or one of its entries, could not be read. Offsets and
/// sizes from the archive are added in 64 bits, so no sum of stored fields
/// can overflow; a region that such a sum puts past the end is an `Io` error.
#[derive(Debug, Clone, Copy, PartialEq, Eq, Structural)]
pub enum PakError {
    /// The bytes do not have the expected structure: bad magic, a short
    /// header, a directory size that is not a whole number of records, a name
    /// that is not UTF-8, or a texture payload shorter than its descriptor.
    Format,
    /// A region that a record points at lies (partly) past the end of the
    /// archive, or a name has no terminating NUL byte.
    Io,
}

} // verus!
