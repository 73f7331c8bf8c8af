use gen4_smogon_tracker::pokemon::{InitializationMessage, Pokemon};
use gen4_smogon_tracker::progress::IndexingStatus;
use gen4_smogon_tracker::icon::icon_image;
use gen4_smogon_tracker::summary::{incomplete_id_at, incomplete_ids_of, random_incomplete};

fn s(x: &str) -> String {
    x.to_string()
}

#[test]
fn indexing_status_follows_messages() {
    let mut st = IndexingStatus::new(false);
    assert!(st.begin_initialize());
    assert!(!st.begin_initialize());
    assert!(!st.receive(InitializationMessage::Total(3)));
    for _ in 0..3 {
        assert!(!st.receive(InitializationMessage::Progress));
    }
    assert_eq!(st, IndexingStatus { loaded: false, initializing: true, total: 3, progress: 3 });
    assert!(st.receive(InitializationMessage::End));
    assert_eq!(st, IndexingStatus { loaded: true, initializing: false, total: 3, progress: 3 });
}

#[test]
fn update_hides_tiers() {
    let mut st = IndexingStatus::new(true);
    assert!(st.begin_update());
    assert_eq!(st, IndexingStatus { loaded: false, initializing: true, total: 0, progress: 0 });
    st.loaded = true;
    assert!(!st.begin_update());
    assert!(!st.loaded);
}

#[test]
fn incomplete_ids_in_order() {
    let list = vec![(4, s("A"), false), (7, s("B"), true), (9, s("C"), false)];
    assert_eq!(incomplete_ids_of(&list), vec![4, 9]);
}

#[test]
fn random_pick_is_incomplete() {
    let list = vec![(4, s("A"), true), (7, s("B"), false), (9, s("C"), true), (11, s("D"), false)];
    for _ in 0..50 {
        let id = random_incomplete(&list).unwrap();
        assert!(id == 7 || id == 11);
    }
    let done = vec![(1, s("A"), true)];
    assert_eq!(random_incomplete(&done), None);
    assert_eq!(random_incomplete(&vec![]), None);
}

#[test]
fn toggle_complete_twice() {
    let mut p = Pokemon {
        id: 3,
        pokemon: s("Mew"),
        main_format: s("UU"),
        set_format: s("UU"),
        set_name: s("Set"),
        item: s(""),
        ability: s(""),
        nature: s(""),
        evs: s(""),
        ivs: s(""),
        moves: s(""),
        tera_type: s(""),
        complete: false,
    };
    let before = p.clone();
    assert!(p.toggle_complete());
    assert!(p.complete);
    assert!(!p.toggle_complete());
    assert_eq!(p, before);
}

#[test]
fn incomplete_id_by_position() {
    let list = vec![(4, s("A"), false), (7, s("B"), true), (9, s("C"), false), (12, s("D"), false)];
    assert_eq!(incomplete_id_at(&list, 0), 4);
    assert_eq!(incomplete_id_at(&list, 1), 9);
    assert_eq!(incomplete_id_at(&list, 2), 12);
}

#[test]
fn icon_from_png_bytes() {
    let pixels = vec![255u8, 0, 0, 255, 0, 0, 255, 128];
    let img = image::RgbaImage::from_raw(2, 1, pixels.clone()).unwrap();
    let mut bytes: Vec<u8> = Vec::new();
    image::DynamicImage::ImageRgba8(img)
        .write_to(&mut std::io::Cursor::new(&mut bytes), image::ImageOutputFormat::Png)
        .unwrap();
    let decoded = icon_image(&bytes).unwrap();
    assert_eq!(decoded.width, 2);
    assert_eq!(decoded.height, 1);
    assert_eq!(decoded.rgba, pixels);
}

#[test]
fn icon_from_other_bytes() {
    assert_eq!(icon_image(b"not an image"), None);
    assert_eq!(icon_image(&[]), None);
}
