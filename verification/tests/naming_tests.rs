use artist_ingest::naming::{image_dir_name, joined_path, variant_file_name, variant_rel_path, Role};

#[test]
fn spaces_become_underscores() {
    assert_eq!(image_dir_name("Vincent Van Gogh").as_str(), "Vincent_Van_Gogh");
}

#[test]
fn consecutive_and_outer_spaces_all_become_underscores() {
    assert_eq!(image_dir_name(" A  B ").as_str(), "_A__B_");
}

#[test]
fn name_without_spaces_is_unchanged() {
    assert_eq!(image_dir_name("Albrecht").as_str(), "Albrecht");
}

#[test]
fn variant_file_names() {
    assert_eq!(variant_file_name(Role::Full).as_str(), "full.jpg");
    assert_eq!(variant_file_name(Role::Cropped).as_str(), "cropped.jpg");
    assert_eq!(variant_file_name(Role::Thumbnail).as_str(), "thumbnail.jpg");
}

#[test]
fn variant_paths_are_namespaced_by_group_id() {
    assert_eq!(variant_rel_path("g1", Role::Full).as_str(), "g1/full.jpg");
    assert_eq!(variant_rel_path("g1", Role::Cropped).as_str(), "g1/cropped.jpg");
    assert_eq!(variant_rel_path("g1", Role::Thumbnail).as_str(), "g1/thumbnail.jpg");
}

#[test]
fn joined_path_uses_single_separator() {
    assert_eq!(joined_path("/data/img", "g1/full.jpg").as_str(), "/data/img/g1/full.jpg");
}
