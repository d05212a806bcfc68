use vstd::prelude::*;
use crate::error::BuildError;
use crate::ids::fresh_id;
use crate::model::{Img, Paintings, CROPPED_BOUND, THUMBNAIL_BOUND};
use crate::naming::{joined_path, joined_path_spec, variant_rel_path, variant_rel_path_spec, Role};

verus! {

/// The resized sides keep the source aspect ratio to within the half pixel
/// that rounding each side may introduce.
pub open spec fn aspect_close(sw: int, sh: int, w: int, h: int) -> bool {
    let d = w * sh - h * sw;
    let a = if d < 0 {
        -d
    } else {
        d
    };
    2 * a <= sw + sh + 2
}

/// Relies on image::open: decode the raster at the path, and on
/// image::DynamicImage's width and height accessors. The outcome depends on
/// what is on disk, so nothing is promised of it; callers state what holds
/// of every outcome.
#[verifier::external_body]
fn decode_dims(path: &str) -> (r: Result<(u32, u32), String>) {
    match image::open(std::path::Path::new(path)) {
        Ok(img) => Ok((img.width(), img.height())),
        Err(e) => Err(e.to_string()),
    }
}

/// Relies on image::open, image::DynamicImage::resize and
/// image::DynamicImage::save. resize keeps the aspect ratio and scales to
/// the largest size that fits within bound x bound (its dimension
/// arithmetic rounds each scaled side and clamps it to at least one pixel),
/// and save writes the raster to the path, picking the format from the
/// path's extension. On success the source dimensions and the written
/// dimensions are returned; the clauses below are what that arithmetic
/// guarantees of them. Everything else depends on what is on disk.
#[verifier::external_body]
fn resize_and_write(src: &str, dst: &str, bound: u32) -> (r: Result<
    ((u32, u32), (u32, u32)),
    String,
>)
    requires
        1 <= bound,
    ensures
        r matches Ok(d) ==> 1 <= d.1.0 <= bound && 1 <= d.1.1 <= bound,
        r matches Ok(d) ==> (1 < d.1.0 && 1 < d.1.1 ==> aspect_close(
            d.0.0 as int,
            d.0.1 as int,
            d.1.0 as int,
            d.1.1 as int,
        )),
{
    match image::open(std::path::Path::new(src)) {
        Ok(img) => {
            let out = img.resize(bound, bound, image::imageops::FilterType::Lanczos3);
            match out.save(std::path::Path::new(dst)) {
                Ok(()) => Ok(((img.width(), img.height()), (out.width(), out.height()))),
                Err(e) => Err(e.to_string()),
            }
        },
        Err(e) => Err(e.to_string()),
    }
}

/// Decode the image at the path and report its pixel dimensions.
pub fn probe_image(path: &str) -> (r: Result<(u32, u32), BuildError>)
    ensures
        r matches Err(e) ==> e is Decode,
{
    match decode_dims(path) {
        Ok(d) => Ok(d),
        Err(m) => Err(BuildError::Decode { path: path.to_owned(), msg: m }),
    }
}

/// The dimensions of one produced resized variant: the source raster's
/// sides and the written raster's sides.
pub struct ResizeReport {
    pub src_width: u32,
    pub src_height: u32,
    pub width: u32,
    pub height: u32,
}

/// Resize the source image, aspect preserved, to fit within bound x bound,
/// and write it to the destination path. On success the written sides are
/// between one pixel and the bound, and keep the source aspect ratio to
/// within rounding whenever neither side was clamped up to one pixel.
pub fn resize_to(src: &str, dst: &str, bound: u32) -> (r: Result<ResizeReport, BuildError>)
    requires
        1 <= bound,
    ensures
        r matches Ok(rep) ==> 1 <= rep.width <= bound && 1 <= rep.height <= bound,
        r matches Ok(rep) ==> (1 < rep.width && 1 < rep.height ==> aspect_close(
            rep.src_width as int,
            rep.src_height as int,
            rep.width as int,
            rep.height as int,
        )),
        r matches Err(e) ==> e is WriteVariant,
{
    match resize_and_write(src, dst, bound) {
        Ok(d) => Ok(
            ResizeReport { src_width: d.0.0, src_height: d.0.1, width: d.1.0, height: d.1.1 },
        ),
        Err(m) => Err(BuildError::WriteVariant { path: dst.to_owned(), msg: m }),
    }
}

/// A fresh image group's identity and destination layout: its identifier,
/// the directory namespaced by it, and the full-size copy's path there.
pub struct GroupPlan {
    pub id: String,
    pub dir: String,
    pub full_path: String,
}

/// Allocate a fresh group identifier and fix the group's destination
/// directory and the full variant's path under the image root.
pub fn plan_group(dest_root: &str) -> (p: GroupPlan)
    ensures
        p.id@.len() == 36,
        p.dir@ == joined_path_spec(dest_root@, p.id@),
        p.full_path@ == joined_path_spec(dest_root@, variant_rel_path_spec(p.id@, Role::Full)),
{
    let id = fresh_id();
    let dir = joined_path(dest_root, id.as_str());
    let rel = variant_rel_path(id.as_str(), Role::Full);
    let full_path = joined_path(dest_root, rel.as_str());
    GroupPlan { id, dir, full_path }
}

/// Produce one image group's record: decode the source once for the full
/// copy's dimensions, then write the cropped and the thumbnail variants
/// under the group's identifier. The caller has created the group's
/// directory and copies the source bytes verbatim to the full variant's
/// path; this function never writes that file. All three variants must
/// succeed, or the group fails with the first error.
pub fn build_group(id: &str, src_path: &str, dest_root: &str) -> (r: Result<Paintings, BuildError>)
    ensures
        r matches Ok(g) ==> g.wf() && g.id@ == id@,
        r matches Err(e) ==> e is Decode || e is WriteVariant,
{
    let dims = match probe_image(src_path) {
        Ok(d) => d,
        Err(e) => {
            return Err(e);
        },
    };
    let cropped_rel = variant_rel_path(id, Role::Cropped);
    let cropped_abs = joined_path(dest_root, cropped_rel.as_str());
    let crep = match resize_to(src_path, cropped_abs.as_str(), CROPPED_BOUND) {
        Ok(x) => x,
        Err(e) => {
            return Err(e);
        },
    };
    let thumb_rel = variant_rel_path(id, Role::Thumbnail);
    let thumb_abs = joined_path(dest_root, thumb_rel.as_str());
    let trep = match resize_to(src_path, thumb_abs.as_str(), THUMBNAIL_BOUND) {
        Ok(x) => x,
        Err(e) => {
            return Err(e);
        },
    };
    let full_rel = variant_rel_path(id, Role::Full);
    Ok(
        Paintings {
            id: id.to_owned(),
            full: Img { path: full_rel, width: dims.0, height: dims.1 },
            cropped: Img { path: cropped_rel, width: crep.width, height: crep.height },
            thumbnail: Img { path: thumb_rel, width: trep.width, height: trep.height },
        },
    )
}

} // verus!
