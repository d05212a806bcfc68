use vstd::prelude::*;
use crate::naming::{variant_rel_path_spec, Role};

verus! {

/// One derived raster file: its storage path relative to the destination
/// image root, and its pixel dimensions after any resizing (authoritative,
/// read back from the produced raster, never assumed from the source).
#[derive(Debug, Clone)]
pub struct Img {
    pub path: String,
    pub width: u32,
    pub height: u32,
}

impl Img {
    /// Both sides are at least one pixel and no longer than the bound.
    pub open spec fn fits_within(self, bound: u32) -> bool {
        1 <= self.width <= bound && 1 <= self.height <= bound
    }
}

/// The longest side a cropped variant may have.
pub const CROPPED_BOUND: u32 = 600;

/// The longest side a thumbnail variant may have.
pub const THUMBNAIL_BOUND: u32 = 150;

/// One image group: the variants derived from a single source image,
/// namespaced under one stable identifier.
#[derive(Debug, Clone)]
pub struct Paintings {
    pub id: String,
    pub full: Img,
    pub cropped: Img,
    pub thumbnail: Img,
}

impl Paintings {
    /// The three variants live under the group's identifier with their role
    /// names, and the two resized variants respect their bounds.
    pub open spec fn wf(self) -> bool {
        &&& self.full.path@ == variant_rel_path_spec(self.id@, Role::Full)
        &&& self.cropped.path@ == variant_rel_path_spec(self.id@, Role::Cropped)
        &&& self.thumbnail.path@ == variant_rel_path_spec(self.id@, Role::Thumbnail)
        &&& self.cropped.fits_within(CROPPED_BOUND)
        &&& self.thumbnail.fits_within(THUMBNAIL_BOUND)
    }
}

/// The aggregate root: one artist with descriptive fields copied verbatim
/// from the catalog, the derived born and died texts, and the owned image
/// groups. Created once per successful ingestion; never mutated afterwards.
#[derive(Debug, Clone)]
pub struct Artist {
    pub id: String,
    pub name: String,
    pub born: String,
    pub died: String,
    pub genre: String,
    pub nationality: String,
    pub bio: String,
    pub wikipedia: String,
    pub paintings: Vec<Paintings>,
}

impl Artist {
    pub open spec fn wf(self) -> bool {
        forall|i: int| 0 <= i < self.paintings@.len() ==> self.paintings@[i].wf()
    }
}

} // verus!
