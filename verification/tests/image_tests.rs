use artist_ingest::error::BuildError;
use artist_ingest::variants::{build_group, probe_image, resize_to};

fn write_source_png(path: &str, w: u32, h: u32) -> () {
    let img = image::RgbImage::from_fn(w, h, |x, y| {
        image::Rgb([(x % 256) as u8, (y % 256) as u8, 100])
    });
    img.save(path).expect("writable source image");
}

#[test]
fn probe_reports_source_dimensions() {
    let src = "/tmp/artist_ingest_probe_src.png";
    write_source_png(src, 120, 48);
    let d = probe_image(src).expect("decodable");
    assert_eq!(d, (120, 48));
}

#[test]
fn probe_of_missing_file_is_a_decode_error() {
    let r = probe_image("/tmp/artist_ingest_definitely_missing.png");
    match r {
        Err(BuildError::Decode { path, .. }) => {
            assert_eq!(path.as_str(), "/tmp/artist_ingest_definitely_missing.png")
        }
        _ => panic!("expected a decode error"),
    }
}

#[test]
fn resize_shrinks_within_bound_and_keeps_aspect() {
    let src = "/tmp/artist_ingest_resize_src.png";
    let dst = "/tmp/artist_ingest_resize_out.jpg";
    write_source_png(src, 100, 50);
    let rep = resize_to(src, dst, 10).expect("decodable and writable");
    assert_eq!((rep.src_width, rep.src_height), (100, 50));
    assert_eq!((rep.width, rep.height), (10, 5));
    let written = probe_image(dst).expect("the variant was written");
    assert_eq!(written, (10, 5));
}

#[test]
fn resize_respects_each_bound() {
    let src = "/tmp/artist_ingest_bounds_src.png";
    write_source_png(src, 900, 300);
    let cropped = resize_to(src, "/tmp/artist_ingest_bounds_cropped.jpg", 600).expect("writable");
    assert_eq!((cropped.width, cropped.height), (600, 200));
    let thumb = resize_to(src, "/tmp/artist_ingest_bounds_thumb.jpg", 150).expect("writable");
    assert_eq!((thumb.width, thumb.height), (150, 50));
}

#[test]
fn resize_into_missing_directory_fails_with_variant_error() {
    let src = "/tmp/artist_ingest_errdir_src.png";
    write_source_png(src, 20, 20);
    let r = resize_to(src, "/tmp/artist_ingest_no_such_dir/out.jpg", 10);
    assert!(matches!(r, Err(BuildError::WriteVariant { .. })));
}

#[test]
fn build_group_writes_both_resized_variants() {
    let src = "/tmp/artist_ingest_group_src.png";
    write_source_png(src, 640, 320);
    let g = build_group("", src, "/tmp").expect("decodable source and writable root");
    assert_eq!(g.id.as_str(), "");
    assert_eq!(g.full.path.as_str(), "/full.jpg");
    assert_eq!((g.full.width, g.full.height), (640, 320));
    assert_eq!(g.cropped.path.as_str(), "/cropped.jpg");
    assert_eq!((g.cropped.width, g.cropped.height), (600, 300));
    assert_eq!(g.thumbnail.path.as_str(), "/thumbnail.jpg");
    assert_eq!((g.thumbnail.width, g.thumbnail.height), (150, 75));
    let cropped_on_disk = probe_image("/tmp//cropped.jpg").expect("written");
    assert_eq!(cropped_on_disk, (600, 300));
    let thumb_on_disk = probe_image("/tmp//thumbnail.jpg").expect("written");
    assert_eq!(thumb_on_disk, (150, 75));
}

#[test]
fn build_group_fails_on_undecodable_source() {
    let r = build_group("gid", "/tmp/artist_ingest_missing_group_src.png", "/tmp");
    assert!(matches!(r, Err(BuildError::Decode { .. })));
}
