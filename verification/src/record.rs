use vstd::prelude::*;

verus! {

/// One validated catalog row describing an artist. Parsed upstream from the
/// delimited catalog file; immutable once parsed and never persisted directly.
#[derive(Debug, Clone)]
pub struct CsvArtist {
    /// External numeric id of the row (advisory; not the stored key).
    pub id: u64,
    /// Artist name; also names the artist's image subdirectory.
    pub name: String,
    /// Free-text year range such as "1853 - 1890".
    pub years: String,
    pub genre: String,
    pub nationality: String,
    pub bio: String,
    pub wikipedia: String,
    /// Advisory painting count from the catalog; not authoritative.
    pub paintings: u64,
}

} // verus!
