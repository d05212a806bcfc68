use artist_ingest::builder::build_artist;
use artist_ingest::error::BuildError;
use artist_ingest::ingest::{collect_artists, ingest};
use artist_ingest::model::{Artist, Img, Paintings};
use artist_ingest::naming::{variant_rel_path, Role};
use artist_ingest::record::CsvArtist;
use artist_ingest::store::Store;
use artist_ingest::variants::plan_group;

fn sample_record(name: &str, years: &str) -> CsvArtist {
    CsvArtist {
        id: 7,
        name: name.to_string(),
        years: years.to_string(),
        genre: "Post-Impressionism".to_string(),
        nationality: "Dutch".to_string(),
        bio: "Painter.".to_string(),
        wikipedia: "https://example.org/vvg".to_string(),
        paintings: 2,
    }
}

fn sample_group(id: &str) -> Paintings {
    Paintings {
        id: id.to_string(),
        full: Img { path: variant_rel_path(id, Role::Full), width: 800, height: 400 },
        cropped: Img { path: variant_rel_path(id, Role::Cropped), width: 600, height: 300 },
        thumbnail: Img { path: variant_rel_path(id, Role::Thumbnail), width: 150, height: 75 },
    }
}

fn artist_with_id(id: &str, name: &str) -> Artist {
    Artist {
        id: id.to_string(),
        name: name.to_string(),
        born: "1853".to_string(),
        died: "1890".to_string(),
        genre: "g".to_string(),
        nationality: "n".to_string(),
        bio: "b".to_string(),
        wikipedia: "w".to_string(),
        paintings: Vec::new(),
    }
}

#[test]
fn builder_copies_fields_and_splits_years() {
    let rec = sample_record("Vincent Van Gogh", "1853 \u{2013} 1890");
    let groups = vec![sample_group("g1"), sample_group("g2")];
    let a = build_artist(rec, groups).expect("well-formed record");
    assert_eq!(a.name.as_str(), "Vincent Van Gogh");
    assert_eq!(a.born.as_str(), "1853");
    assert_eq!(a.died.as_str(), "1890");
    assert_eq!(a.genre.as_str(), "Post-Impressionism");
    assert_eq!(a.nationality.as_str(), "Dutch");
    assert_eq!(a.bio.as_str(), "Painter.");
    assert_eq!(a.wikipedia.as_str(), "https://example.org/vvg");
    assert_eq!(a.paintings.len(), 2);
    assert_eq!(a.paintings[0].id.as_str(), "g1");
    assert_eq!(a.id.len(), 36);
}

#[test]
fn builder_rejects_malformed_year_range() {
    let rec = sample_record("Vincent Van Gogh", "1853");
    let r = build_artist(rec, Vec::new());
    match r {
        Err(BuildError::YearRange { name }) => assert_eq!(name.as_str(), "Vincent Van Gogh"),
        _ => panic!("expected a year-range error naming the artist"),
    }
}

#[test]
fn fresh_identifiers_differ_between_runs() {
    let p1 = plan_group("/data/img");
    let p2 = plan_group("/data/img");
    assert_ne!(p1.id.as_str(), p2.id.as_str());
    assert_eq!(p1.id.len(), 36);
    let a1 = build_artist(sample_record("A", "1-2"), Vec::new()).unwrap();
    let a2 = build_artist(sample_record("A", "1-2"), Vec::new()).unwrap();
    assert_ne!(a1.id.as_str(), a2.id.as_str());
}

#[test]
fn group_plan_namespaces_paths_by_identifier() {
    let p = plan_group("/data/img");
    assert_eq!(p.dir.as_str(), format!("/data/img/{}", p.id).as_str());
    assert_eq!(p.full_path.as_str(), format!("/data/img/{}/full.jpg", p.id).as_str());
}

#[test]
fn lookup_returns_inserted_artist_exactly() {
    let mut store = Store::new();
    let a = artist_with_id("id-a", "A");
    let b = artist_with_id("id-b", "B");
    let n = store.insert_all(vec![a, b]).expect("fresh identifiers");
    assert_eq!(n, 2);
    assert_eq!(store.count(), 2);
    let found = store.get_by_id("id-b").expect("freshly inserted");
    assert_eq!(found.name.as_str(), "B");
    assert_eq!(found.born.as_str(), "1853");
    assert_eq!(found.died.as_str(), "1890");
    assert!(store.get_by_id("no-such-identifier").is_none());
}

#[test]
fn duplicate_key_aborts_whole_insert() {
    let mut store = Store::new();
    store.insert_all(vec![artist_with_id("id-a", "A")]).expect("fresh");
    let r = store.insert_all(vec![artist_with_id("id-c", "C"), artist_with_id("id-a", "again")]);
    match r {
        Err(BuildError::DuplicateId { id }) => assert_eq!(id.as_str(), "id-a"),
        _ => panic!("expected a duplicate-identifier error"),
    }
    assert_eq!(store.count(), 1);
    assert!(store.get_by_id("id-c").is_none());
    assert_eq!(store.get_by_id("id-a").unwrap().name.as_str(), "A");
}

#[test]
fn duplicate_inside_batch_aborts_whole_insert() {
    let mut store = Store::new();
    let r = store.insert_all(vec![artist_with_id("id-x", "X"), artist_with_id("id-x", "Y")]);
    assert!(matches!(r, Err(BuildError::DuplicateId { .. })));
    assert_eq!(store.count(), 0);
}

#[test]
fn collect_keeps_order_when_all_build() {
    let r = collect_artists(vec![
        Ok(artist_with_id("id-a", "A")),
        Ok(artist_with_id("id-b", "B")),
    ])
    .expect("all built");
    assert_eq!(r.len(), 2);
    assert_eq!(r[0].name.as_str(), "A");
    assert_eq!(r[1].name.as_str(), "B");
}

#[test]
fn one_failed_build_aborts_batch_and_store_stays_empty() {
    let mut store = Store::new();
    let outcomes = vec![
        Ok(artist_with_id("id-a", "A")),
        Err(BuildError::ImageDirMissing { dir: "input/images/Missing_Artist".to_string() }),
        Ok(artist_with_id("id-b", "B")),
    ];
    let r = ingest(&mut store, outcomes);
    match r {
        Err(BuildError::ImageDirMissing { dir }) => {
            assert_eq!(dir.as_str(), "input/images/Missing_Artist")
        }
        _ => panic!("expected the builder error to abort the run"),
    }
    assert_eq!(store.count(), 0);
    assert!(store.get_by_id("id-a").is_none());
}

#[test]
fn single_row_scenario_persists_one_artist_with_two_groups() {
    let rec = sample_record("Vincent Van Gogh", "1853 \u{2013} 1890");
    let groups = vec![sample_group("g1"), sample_group("g2")];
    let artist = build_artist(rec, groups);
    let mut store = Store::new();
    let n = ingest(&mut store, vec![artist]).expect("one well-formed row");
    assert_eq!(n, 1);
    let all = store.scan_all();
    assert_eq!(all.len(), 1);
    let a = &all[0];
    assert_eq!(a.born.as_str(), "1853");
    assert_eq!(a.died.as_str(), "1890");
    assert_eq!(a.paintings.len(), 2);
    for (g, want) in a.paintings.iter().zip(["g1", "g2"]) {
        assert_eq!(g.id.as_str(), want);
        assert_eq!(g.full.path.as_str(), format!("{want}/full.jpg").as_str());
        assert_eq!(g.cropped.path.as_str(), format!("{want}/cropped.jpg").as_str());
        assert_eq!(g.thumbnail.path.as_str(), format!("{want}/thumbnail.jpg").as_str());
        assert!(g.cropped.width.max(g.cropped.height) <= 600);
        assert!(g.thumbnail.width.max(g.thumbnail.height) <= 150);
    }
    let again = store.get_by_id(a.id.as_str()).expect("persisted");
    assert_eq!(again.name.as_str(), "Vincent Van Gogh");
}
