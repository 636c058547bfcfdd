use sprite_marker::atlas::{Sprite, SpriteSheetInfo, SpriteSheetMeta};
use sprite_marker::geom::{Rect, Size, UvRect};
use sprite_marker::marker::{Horizontal, SpriteData, SpriteType, Square};
use sprite_marker::saved::{
    decode, decode_edges, decode_squares, decode_tag, edge_by_name, encode, encode_tag,
    load_or_derive, name_of_edge, name_of_square, square_by_name, SavedRecord, SavedTag,
};

fn atlas(n: usize) -> SpriteSheetInfo {
    let mut frames = Vec::new();
    for i in 0..n {
        frames.push(Sprite {
            filename: format!("frame{}.png", i),
            frame: Rect::new(64 * i as i64, 0, 64, 32),
            rotated: false,
            trimmed: false,
            source_size: Size { w: 64, h: 32 },
        });
    }
    SpriteSheetInfo { frames, meta: SpriteSheetMeta { size: Size { w: 512, h: 256 } } }
}

fn tag(kind: &str, marks: &[&str]) -> SavedTag {
    SavedTag { kind: String::from(kind), marks: marks.iter().map(|m| String::from(*m)).collect() }
}

fn saved(index: usize, markers: SavedTag) -> SavedRecord {
    SavedRecord {
        on_screen_frame: UvRect { rect: Rect::new(1, 2, 3, 4), sheet: Size { w: 10, h: 20 } },
        frame: Rect::new(1, 2, 3, 4),
        markers,
        name: format!("n{}", index),
        index,
    }
}

const SQUARES: [(Square, &str); 13] = [
    (Square::LT, "LT"),
    (Square::MT, "MT"),
    (Square::RT, "RT"),
    (Square::LM, "LM"),
    (Square::MM, "MM"),
    (Square::RM, "RM"),
    (Square::LB, "LB"),
    (Square::MB, "MB"),
    (Square::RB, "RB"),
    (Square::IBL, "IBL"),
    (Square::ILT, "ILT"),
    (Square::IBR, "IBR"),
    (Square::IRT, "IRT"),
];

#[test]
fn every_square_has_its_own_name() {
    for (square, name) in SQUARES.iter() {
        assert_eq!(name_of_square(*square), *name);
        assert_eq!(square_by_name(name), Some(*square));
    }
    assert_eq!(square_by_name("lt"), None);
    assert_eq!(square_by_name("L"), None);
    assert_eq!(square_by_name("LTT"), None);
    assert_eq!(square_by_name(""), None);
    assert_eq!(square_by_name("Left"), None);
}

#[test]
fn every_edge_has_its_own_name() {
    assert_eq!(name_of_edge(Horizontal::Left), "Left");
    assert_eq!(name_of_edge(Horizontal::Right), "Right");
    assert_eq!(name_of_edge(Horizontal::Center), "Center");
    assert_eq!(edge_by_name("Left"), Some(Horizontal::Left));
    assert_eq!(edge_by_name("Right"), Some(Horizontal::Right));
    assert_eq!(edge_by_name("Center"), Some(Horizontal::Center));
    assert_eq!(edge_by_name("Middle"), None);
    assert_eq!(edge_by_name("MM"), None);
}

#[test]
fn encode_tag_names_kind_and_marks() {
    assert_eq!(encode_tag(&SpriteType::Object), tag("Object", &[]));
    assert_eq!(
        encode_tag(&SpriteType::Platform { horizontal: vec![Horizontal::Right, Horizontal::Left] }),
        tag("Platform", &["Right", "Left"])
    );
    assert_eq!(
        encode_tag(&SpriteType::Ground { square: vec![Square::MM, Square::IBL] }),
        tag("Ground", &["MM", "IBL"])
    );
    assert_eq!(encode_tag(&SpriteType::empty_ground()), tag("Ground", &[]));
}

#[test]
fn decode_tag_reads_what_encode_tag_wrote() {
    let tags = vec![
        SpriteType::Object,
        SpriteType::empty_platform(),
        SpriteType::empty_ground(),
        SpriteType::Platform { horizontal: vec![Horizontal::Center, Horizontal::Left] },
        SpriteType::Ground { square: SQUARES.iter().map(|(s, _)| *s).collect() },
        SpriteType::Ground { square: vec![Square::MM, Square::MM] },
    ];
    for t in tags.iter() {
        assert_eq!(decode_tag(&encode_tag(t)), Some(t.clone()));
    }
}

#[test]
fn decode_tag_refuses_what_is_no_tag() {
    assert_eq!(decode_tag(&tag("Animation", &[])), None);
    assert_eq!(decode_tag(&tag("", &[])), None);
    assert_eq!(decode_tag(&tag("ground", &[])), None);
    assert_eq!(decode_tag(&tag("Object", &["MM"])), None);
    assert_eq!(decode_tag(&tag("Ground", &["MM", "Left"])), None);
    assert_eq!(decode_tag(&tag("Platform", &["Left", "MM"])), None);
    assert_eq!(decode_tag(&tag("Ground", &["XX", "MM"])), None);
}

#[test]
fn decode_lists_stop_at_the_first_bad_name() {
    let names = |v: &[&str]| -> Vec<String> { v.iter().map(|m| String::from(*m)).collect() };
    assert_eq!(decode_squares(&names(&["LT", "RB"])), Some(vec![Square::LT, Square::RB]));
    assert_eq!(decode_squares(&names(&[])), Some(vec![]));
    assert_eq!(decode_squares(&names(&["LT", "??", "RB"])), None);
    assert_eq!(decode_edges(&names(&["Right"])), Some(vec![Horizontal::Right]));
    assert_eq!(decode_edges(&names(&["Right", "right"])), None);
}

#[test]
fn encode_keeps_every_field() {
    let mut marked = SpriteData::create(&atlas(2));
    marked[1].markers = SpriteType::Platform { horizontal: vec![Horizontal::Left] };
    let written = encode(&marked);
    assert_eq!(written.len(), 2);
    assert_eq!(written[0].markers, tag("Ground", &[]));
    assert_eq!(written[1].markers, tag("Platform", &["Left"]));
    assert_eq!(written[1].name, "frame1.png");
    assert_eq!(written[1].index, 1);
    assert_eq!(written[1].frame, Rect::new(64, 0, 64, 32));
    assert_eq!(
        written[1].on_screen_frame,
        UvRect { rect: Rect::new(64, 0, 64, 32), sheet: Size { w: 512, h: 256 } }
    );
    assert!(encode(&Vec::new()).is_empty());
}

#[test]
fn round_trip_gives_the_collection_back() {
    let mut marked = SpriteData::create(&atlas(4));
    marked[0].markers = SpriteType::Object;
    marked[1].markers = SpriteType::Platform { horizontal: vec![Horizontal::Right] };
    marked[2].markers = SpriteType::Ground { square: vec![Square::IRT, Square::LT] };
    marked[3].name = String::from("with \"quotes\" and \u{e9}");
    let read = decode(&encode(&marked));
    assert!(read.is_some());
    if let Some(read) = read {
        assert_eq!(read.len(), marked.len());
        for (a, b) in read.iter().zip(marked.iter()) {
            assert!(a.same(b));
            assert_eq!(a.markers, b.markers);
            assert_eq!(a.index, b.index);
            assert_eq!(a.name, b.name);
            assert_eq!(a.frame, b.frame);
            assert_eq!(a.on_screen_frame, b.on_screen_frame);
        }
    }
}

#[test]
fn decode_refuses_a_collection_with_one_bad_record() {
    let good = saved(0, tag("Object", &[]));
    let bad = saved(1, tag("Ground", &["MM", "nope"]));
    assert!(decode(&vec![good.clone()]).is_some());
    assert!(decode(&vec![good.clone(), bad.clone()]).is_none());
    assert!(decode(&vec![bad, good]).is_none());
    assert_eq!(decode(&Vec::new()).map(|m| m.len()), Some(0));
}

#[test]
fn load_or_derive_falls_back_to_the_derived_collection() {
    let info = atlas(4);
    let derived = SpriteData::create(&info);
    let loaded = load_or_derive(None, &info);
    assert_eq!(loaded.len(), derived.len());
    for (a, b) in loaded.iter().zip(derived.iter()) {
        assert_eq!(a.index, b.index);
        assert_eq!(a.name, b.name);
        assert_eq!(a.markers, b.markers);
        assert_eq!(a.frame, b.frame);
        assert_eq!(a.on_screen_frame, b.on_screen_frame);
    }
}

#[test]
fn load_or_derive_falls_back_where_the_save_cannot_be_read() {
    let info = atlas(2);
    let loaded = load_or_derive(Some(vec![saved(0, tag("Animation", &[]))]), &info);
    assert_eq!(loaded.len(), 2);
    assert_eq!(loaded[0].name, "frame0.png");
    assert_eq!(loaded[1].markers, SpriteType::Ground { square: vec![] });
}

#[test]
fn load_or_derive_returns_a_saved_collection_as_it_is() {
    let info = atlas(2);
    let found = vec![
        saved(0, tag("Object", &[])),
        saved(1, tag("Platform", &["Center"])),
        saved(2, tag("Ground", &["RB"])),
    ];
    let loaded = load_or_derive(Some(found), &info);
    assert_eq!(loaded.len(), 3);
    assert_eq!(loaded[0].markers, SpriteType::Object);
    assert_eq!(loaded[1].markers, SpriteType::Platform { horizontal: vec![Horizontal::Center] });
    assert_eq!(loaded[2].markers, SpriteType::Ground { square: vec![Square::RB] });
    assert_eq!(loaded[2].name, "n2");
    assert_eq!(loaded[2].index, 2);
    assert_eq!(loaded[2].frame, Rect::new(1, 2, 3, 4));
    assert_eq!(loaded[2].on_screen_frame.sheet, Size { w: 10, h: 20 });
}

#[test]
fn load_after_save_is_the_collection() {
    let info = atlas(3);
    let mut marked = SpriteData::create(&info);
    marked[2].markers = SpriteType::Ground { square: vec![Square::MB] };
    let loaded = load_or_derive(Some(encode(&marked)), &atlas(0));
    assert_eq!(loaded.len(), 3);
    for (a, b) in loaded.iter().zip(marked.iter()) {
        assert!(a.same(b));
    }
}

#[test]
fn load_or_derive_falls_back_where_a_record_holds_a_mark_twice() {
    let info = atlas(2);
    let found = vec![saved(0, tag("Object", &[])), saved(1, tag("Ground", &["MM", "LT", "MM"]))];
    let loaded = load_or_derive(Some(found), &info);
    assert_eq!(loaded.len(), 2);
    assert_eq!(loaded[0].name, "frame0.png");
    assert_eq!(loaded[0].markers, SpriteType::Ground { square: vec![] });
    assert_eq!(loaded[1].markers, SpriteType::Ground { square: vec![] });
    let found = vec![saved(0, tag("Platform", &["Left", "Left"]))];
    assert_eq!(load_or_derive(Some(found), &info).len(), 2);
}

#[test]
fn load_or_derive_falls_back_where_the_records_are_out_of_order() {
    let info = atlas(3);
    let found = vec![saved(1, tag("Object", &[])), saved(0, tag("Object", &[]))];
    let loaded = load_or_derive(Some(found), &info);
    assert_eq!(loaded.len(), 3);
    assert_eq!(loaded[2].name, "frame2.png");
    assert_eq!(loaded[0].markers, SpriteType::Ground { square: vec![] });
    let found = vec![saved(0, tag("Object", &[])), saved(5, tag("Object", &[]))];
    assert_eq!(load_or_derive(Some(found), &info).len(), 3);
}

#[test]
fn load_or_derive_always_gives_a_well_kept_collection() {
    let info = atlas(2);
    assert!(SpriteData::is_well_kept(&load_or_derive(None, &info)));
    let found = vec![saved(3, tag("Ground", &["MM", "MM"]))];
    assert!(SpriteData::is_well_kept(&load_or_derive(Some(found), &info)));
    let found = vec![saved(0, tag("Ground", &["MM", "RB"]))];
    let loaded = load_or_derive(Some(found), &info);
    assert!(SpriteData::is_well_kept(&loaded));
    assert_eq!(loaded[0].markers, SpriteType::Ground { square: vec![Square::MM, Square::RB] });
}
