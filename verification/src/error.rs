use vstd::prelude::*;

verus! {

/// Everything that can go wrong while building or persisting one artist.
/// Every variant carries enough context (name, path or identifier) to
/// diagnose the failure without re-running the batch.
#[derive(Debug, Clone)]
pub enum BuildError {
    /// The year-range field of the named artist has no separator.
    YearRange { name: String },
    /// The artist's image subdirectory does not exist.
    ImageDirMissing { dir: String },
    /// A directory entry could not be read while listing source images.
    DirEntry { msg: String },
    /// The destination directory of a fresh image group already exists.
    GroupDirConflict { dir: String },
    /// The destination directory of an image group could not be created.
    GroupDirCreate { dir: String, msg: String },
    /// A source image could not be opened or decoded.
    Decode { path: String, msg: String },
    /// A resized variant could not be produced or written.
    WriteVariant { path: String, msg: String },
    /// The full-size copy of a source image failed.
    CopyFull { path: String, msg: String },
    /// An insert would reuse an identifier already present in the store.
    DuplicateId { id: String },
}

} // verus!
