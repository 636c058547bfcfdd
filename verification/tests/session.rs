use sprite_marker::atlas::{Sprite, SpriteSheetInfo, SpriteSheetMeta};
use sprite_marker::game::{
    cell_scale, grid_cell, layout, rect_with_scroll, Game, MouseButton, MouseState,
};
use sprite_marker::geom::{Point, Rect, Size};
use sprite_marker::marker::{Horizontal, SpriteData, SpriteType, Square};
use sprite_marker::saved::{encode, load_or_derive, SavedRecord, SavedTag};
use sprite_marker::geom::UvRect;

fn atlas(n: usize) -> SpriteSheetInfo {
    let mut frames = Vec::new();
    for i in 0..n {
        frames.push(Sprite {
            filename: format!("frame{}", i),
            frame: Rect::new(64 * i as i64, 0, 64, 32),
            rotated: false,
            trimmed: false,
            source_size: Size { w: 64, h: 32 },
        });
    }
    SpriteSheetInfo { frames, meta: SpriteSheetMeta { size: Size { w: 512, h: 512 } } }
}

fn objects(n: usize) -> (SpriteSheetInfo, Vec<SpriteData>) {
    let info = atlas(n);
    let mut marked = SpriteData::create(&info);
    for record in marked.iter_mut() {
        record.markers = SpriteType::Object;
    }
    (info, marked)
}

fn session(n: usize) -> Game {
    let (_, marked) = objects(n);
    let mut game = Game::new(marked, String::from("sheet-marked.json"));
    assert!(!game.update());
    game
}

fn idle() -> MouseState {
    MouseState { left: false, right: false }
}

fn click(game: &mut Game, x: i32, y: i32) -> bool {
    game.mouse_motion_event(idle(), x, y, 0, 0);
    game.mouse_button_down_event(MouseButton::Left, x, y);
    game.update()
}

#[test]
fn new_session_browses_the_saved_collection() {
    let (_, marked) = objects(2);
    let game = Game::new(marked, String::from("sheet-marked.json"));
    assert_eq!(game.marked.len(), 2);
    assert_eq!(game.marked[0].markers, SpriteType::Object);
    assert_eq!(game.selected, None);
    assert_eq!(game.hovered, None);
    assert_eq!(game.click, None);
    assert_eq!(game.scroll, 0);
    assert!(game.sprites_render.is_empty());
    assert_eq!(game.marked_path, "sheet-marked.json");
    assert_eq!(game.ui.return_state(), None);
}

#[test]
fn new_session_without_a_save_derives_from_the_atlas() {
    let info = atlas(3);
    let game = Game::new(load_or_derive(None, &info), String::from("x-marked.json"));
    assert_eq!(game.marked.len(), 3);
    for (i, record) in game.marked.iter().enumerate() {
        assert_eq!(record.index, i);
        assert_eq!(record.markers, SpriteType::Ground { square: vec![] });
        assert_eq!(record.name, format!("frame{}", i));
    }
}

#[test]
fn grid_cell_of_the_fifth_of_seven_frames() {
    assert_eq!(grid_cell(4), (1, 1));
    let game = session(7);
    assert_eq!(game.sprites_render.len(), 7);
    assert_eq!(game.sprites_render[4].0, 4);
    assert_eq!(game.sprites_render[4].1, Rect { x: 600, y: 600, w: 380, h: 190 });
}

#[test]
fn grid_cells_run_three_to_a_row() {
    assert_eq!(grid_cell(0), (0, 0));
    assert_eq!(grid_cell(2), (2, 0));
    assert_eq!(grid_cell(3), (0, 1));
    assert_eq!(grid_cell(6), (0, 2));
    let game = session(7);
    assert_eq!(game.sprites_render[0].1, Rect { x: 200, y: 200, w: 380, h: 190 });
    assert_eq!(game.sprites_render[2].1, Rect { x: 1000, y: 200, w: 380, h: 190 });
    assert_eq!(game.sprites_render[3].1, Rect { x: 200, y: 600, w: 380, h: 190 });
    assert_eq!(game.sprites_render[6].1, Rect { x: 200, y: 1000, w: 380, h: 190 });
}

#[test]
fn layout_scales_the_longer_side_to_the_cell() {
    let info = atlas(1);
    let mut marked = SpriteData::create(&info);
    marked[0].frame = Rect::new(0, 0, 30, 100);
    assert_eq!(layout(&marked, 0)[0], (0, Rect { x: 200, y: 200, w: 114, h: 380 }));
    marked[0].frame = Rect::new(0, 0, 50, 50);
    assert_eq!(layout(&marked, -60)[0], (0, Rect { x: 200, y: 140, w: 380, h: 380 }));
    marked[0].frame = Rect::new(0, 0, 0, 0);
    assert_eq!(layout(&marked, 0)[0], (0, Rect { x: 200, y: 200, w: 0, h: 0 }));
    marked[0].frame = Rect::new(0, 0, 1000, 1);
    assert_eq!(layout(&marked, 0)[0], (0, Rect { x: 200, y: 200, w: 380, h: 0 }));
    assert!(layout(&Vec::new(), 0).is_empty());
}

#[test]
fn rect_with_scroll_moves_only_y() {
    assert_eq!(
        rect_with_scroll(&Rect::new(10, 20, 30, 40), -90),
        Rect { x: 10, y: -70, w: 30, h: 40 }
    );
}

#[test]
fn hover_finds_the_frame_under_the_pointer() {
    let mut game = session(2);
    game.hover(200, 200);
    assert_eq!(game.hovered, Some((Rect { x: 200, y: 200, w: 380, h: 190 }, 0)));
    game.hover(600, 294);
    assert_eq!(game.hovered, Some((Rect { x: 600, y: 200, w: 380, h: 190 }, 1)));
    game.hover(600, 295);
    assert_eq!(game.hovered, None);
    game.hover(390, 200);
    assert_eq!(game.hovered, None);
    game.hover(1000, 200);
    assert_eq!(game.hovered, None);
    assert_eq!(game.hover_outline(), None);
}

#[test]
fn hover_before_the_first_layout_finds_nothing() {
    let (_, marked) = objects(2);
    let mut game = Game::new(marked, String::from("p"));
    game.hover(200, 200);
    assert_eq!(game.hovered, None);
}

#[test]
fn motion_with_a_button_held_does_not_hover() {
    let mut game = session(2);
    game.mouse_motion_event(MouseState { left: true, right: false }, 200, 200, 0, 0);
    assert_eq!(game.hovered, None);
    game.mouse_motion_event(MouseState { left: false, right: true }, 200, 200, 0, 0);
    assert_eq!(game.hovered, None);
    game.mouse_motion_event(idle(), 200, 200, 0, 0);
    assert!(game.hovered.is_some());
}

#[test]
fn only_a_left_click_waits_for_the_update() {
    let mut game = session(2);
    game.mouse_button_down_event(MouseButton::Right, 5, 6);
    assert_eq!(game.click, None);
    game.mouse_button_down_event(MouseButton::Middle, 5, 6);
    assert_eq!(game.click, None);
    game.mouse_button_down_event(MouseButton::Left, 5, 6);
    assert_eq!(game.click, Some(Point { x: 5, y: 6 }));
    assert!(!game.update());
    assert_eq!(game.click, None);
}

#[test]
fn wheel_scrolls_down_and_is_clamped_at_the_top() {
    let mut game = session(2);
    game.mouse_wheel_event(0, 1);
    assert_eq!(game.scroll, 0);
    game.mouse_wheel_event(0, -1);
    assert_eq!(game.scroll, -30);
    game.mouse_wheel_event(0, 1);
    assert_eq!(game.scroll, 0);
    game.mouse_wheel_event(0, -4);
    assert_eq!(game.scroll, -120);
    game.mouse_wheel_event(0, 2);
    assert_eq!(game.scroll, -60);
    game.mouse_wheel_event(0, 5);
    assert_eq!(game.scroll, 0);
    game.mouse_wheel_event(0, -2);
    game.mouse_wheel_event(0, 0);
    assert_eq!(game.scroll, -60);
    game.mouse_wheel_event(0, 2);
    assert_eq!(game.scroll, 0);
}

#[test]
fn wheel_stays_above_the_floor() {
    let mut game = session(2);
    game.scroll = -0x1000_0000_0000_0000 + 10;
    game.mouse_wheel_event(0, -1);
    assert_eq!(game.scroll, -0x1000_0000_0000_0000 + 10);
    game.scroll = -0x1000_0000_0000_0000 + 30;
    game.mouse_wheel_event(0, -1);
    assert_eq!(game.scroll, -0x1000_0000_0000_0000);
    game.mouse_wheel_event(0, i32::MIN);
    assert_eq!(game.scroll, -0x1000_0000_0000_0000);
    game.mouse_wheel_event(0, i32::MAX);
    assert_eq!(game.scroll, -0x1000_0000_0000_0000 + 30 * (i32::MAX as i64));
}

#[test]
fn layout_and_hover_follow_the_scroll() {
    let mut game = session(4);
    game.mouse_wheel_event(0, -10);
    assert_eq!(game.scroll, -300);
    assert!(!game.update());
    assert_eq!(game.sprites_render[3].1, Rect { x: 200, y: 300, w: 380, h: 190 });
    game.hover(200, 300);
    assert_eq!(game.hovered, Some((Rect { x: 200, y: 600, w: 380, h: 190 }, 3)));
    assert_eq!(game.hover_outline(), Some(Rect { x: 200, y: 300, w: 380, h: 190 }));
    assert!(!click(&mut game, 200, 300));
    assert_eq!(game.selected, Some((Rect { x: 200, y: 600, w: 380, h: 190 }, 3)));
    assert_eq!(game.selection_outline(), Some(Rect { x: 200, y: 300, w: 380, h: 190 }));
}

#[test]
fn click_on_a_frame_begins_editing_with_its_tag() {
    let mut game = session(2);
    assert!(!click(&mut game, 200, 200));
    assert_eq!(game.selected, Some((Rect { x: 200, y: 200, w: 380, h: 190 }, 0)));
    assert_eq!(game.ui.return_state(), Some(SpriteType::Object));
    assert_eq!(game.ui.selected, Some(Rect { x: 1280, y: 200, w: 115, h: 45 }));
    assert_eq!(game.marked[0].markers, SpriteType::Object);
}

#[test]
fn click_on_nothing_while_browsing_changes_nothing() {
    let mut game = session(2);
    assert!(!click(&mut game, 1520, 200));
    assert_eq!(game.selected, None);
    assert!(!click(&mut game, 1450, 850));
    assert_eq!(game.selected, None);
    assert_eq!(game.marked[0].markers, SpriteType::Object);
    assert_eq!(game.marked[1].markers, SpriteType::Object);
}

#[test]
fn selection_and_commit() {
    let mut game = session(2);
    assert!(!click(&mut game, 200, 200));
    assert_eq!(game.ui.return_state(), Some(SpriteType::Object));
    assert!(!click(&mut game, 1520, 200));
    assert_eq!(game.ui.return_state(), Some(SpriteType::Ground { square: vec![] }));
    assert!(!click(&mut game, 1400, 500));
    assert_eq!(game.ui.return_state(), Some(SpriteType::Ground { square: vec![Square::MM] }));
    assert_eq!(game.marked[0].markers, SpriteType::Object);
    assert!(game.selected.is_some());
    assert!(!click(&mut game, 200, 200));
    assert_eq!(game.marked[0].markers, SpriteType::Ground { square: vec![Square::MM] });
    assert_eq!(game.marked[0].index, 0);
    assert_eq!(game.marked[0].name, "frame0");
    assert_eq!(game.selected, None);
    assert_eq!(game.marked[1].markers, SpriteType::Object);
}

#[test]
fn switch_without_commit() {
    let mut game = session(2);
    assert!(!click(&mut game, 200, 200));
    assert!(!click(&mut game, 1520, 200));
    assert!(!click(&mut game, 1400, 500));
    assert!(!click(&mut game, 600, 200));
    assert_eq!(game.marked[0].markers, SpriteType::Ground { square: vec![Square::MM] });
    assert_eq!(game.selected, Some((Rect { x: 600, y: 200, w: 380, h: 190 }, 1)));
    assert_eq!(game.ui.return_state(), Some(SpriteType::Object));
    assert_eq!(game.marked[1].markers, SpriteType::Object);
}

#[test]
fn save_while_editing_commits_first() {
    let mut game = session(2);
    assert!(!click(&mut game, 600, 200));
    assert!(!click(&mut game, 1400, 200));
    assert!(!click(&mut game, 1520, 500));
    assert_eq!(
        game.ui.return_state(),
        Some(SpriteType::Platform { horizontal: vec![Horizontal::Right] })
    );
    assert!(click(&mut game, 1450, 850));
    assert_eq!(game.selected, None);
    assert_eq!(game.marked[1].markers, SpriteType::Platform { horizontal: vec![Horizontal::Right] });
    assert_eq!(game.marked[0].markers, SpriteType::Object);
    assert_eq!(game.marked.len(), 2);
    assert_eq!(game.marked_path, "sheet-marked.json");
    assert!(!game.update());
}

#[test]
fn save_called_directly_commits_a_pending_edit() {
    let mut game = session(2);
    game.save();
    assert_eq!(game.selected, None);
    assert!(!click(&mut game, 200, 200));
    assert!(!click(&mut game, 1520, 200));
    game.save();
    assert_eq!(game.selected, None);
    assert_eq!(game.marked[0].markers, SpriteType::Ground { square: vec![] });
}

#[test]
fn category_switch_loses_only_the_pending_toggles() {
    let mut game = session(1);
    assert!(!click(&mut game, 200, 200));
    assert!(!click(&mut game, 1520, 200));
    assert!(!click(&mut game, 1400, 500));
    assert!(!click(&mut game, 1400, 200));
    assert_eq!(game.ui.return_state(), Some(SpriteType::Platform { horizontal: vec![] }));
    assert!(!click(&mut game, 1520, 200));
    assert_eq!(game.ui.return_state(), Some(SpriteType::Ground { square: vec![] }));
    assert_eq!(game.marked[0].markers, SpriteType::Object);
}

#[test]
fn unselect_and_select_by_hand() {
    let mut game = session(2);
    game.hover(600, 200);
    game.select(1);
    assert_eq!(game.selected, Some((Rect { x: 600, y: 200, w: 380, h: 190 }, 1)));
    assert_eq!(game.ui.return_state(), Some(SpriteType::Object));
    game.unselect();
    assert_eq!(game.selected, None);
    assert_eq!(game.marked[1].markers, SpriteType::Object);
}

#[test]
fn hover_while_editing_reaches_the_panel() {
    let mut game = session(2);
    assert!(!click(&mut game, 200, 200));
    game.hover(1520, 200);
    assert_eq!(game.hovered, None);
    assert_eq!(game.ui.hovered, Some(Rect { x: 1520, y: 200, w: 115, h: 45 }));
    game.hover(1700, 10);
    assert_eq!(game.ui.hovered, None);
}

#[test]
fn a_session_stays_sound_through_its_own_methods() {
    let mut game = session(3);
    assert!(game.is_sound());
    assert!(!click(&mut game, 200, 200));
    assert!(game.is_sound());
    assert!(!click(&mut game, 1520, 200));
    assert!(!click(&mut game, 1400, 500));
    game.mouse_wheel_event(0, -4);
    assert!(game.is_sound());
    assert!(click(&mut game, 1450, 850));
    assert!(game.is_sound());
}

#[test]
fn is_sound_tells_a_broken_session() {
    let mut game = session(3);
    game.scroll = 30;
    assert!(!game.is_sound());
    let mut game = session(3);
    game.marked[2].index = 0;
    assert!(!game.is_sound());
    let mut game = session(3);
    game.hovered = Some((Rect::new(0, 0, 1, 1), 3));
    assert!(!game.is_sound());
    let mut game = session(3);
    game.selected = Some((Rect::new(200, 200, 380, 190), 0));
    assert!(!game.is_sound());
    let mut game = session(3);
    game.sprites_render.push((7, Rect::new(0, 0, 1, 1)));
    assert!(!game.is_sound());
    let mut game = session(3);
    assert!(!click(&mut game, 200, 200));
    game.marked[0].name = String::from("other");
    assert!(!game.is_sound());
    let mut game = session(3);
    game.ui.buttons.save.rect.x = 0;
    assert!(!game.is_sound());
    let mut game = session(3);
    game.marked[1].markers = SpriteType::Ground { square: vec![Square::MM, Square::MM] };
    assert!(!game.is_sound());
    let mut game = session(3);
    assert!(!click(&mut game, 200, 200));
    assert!(!click(&mut game, 1400, 200));
    if let sprite_marker::ui::UiState::Platform(panel) = &mut game.ui.sub_ui_container.sub_ui {
        panel.state = vec![Horizontal::Left, Horizontal::Left];
    }
    assert!(!game.is_sound());
}

#[test]
fn cell_scale_fits_the_longer_side() {
    assert_eq!(cell_scale(&Rect::new(0, 0, 64, 32)), (380, 64));
    assert_eq!(cell_scale(&Rect::new(0, 0, 30, 100)), (380, 100));
    assert_eq!(cell_scale(&Rect::new(5, 5, 50, 50)), (380, 50));
}

#[test]
fn a_saved_session_comes_back_as_it_was() {
    let mut game = session(2);
    assert!(!click(&mut game, 600, 200));
    assert!(!click(&mut game, 1520, 200));
    assert!(!click(&mut game, 1400, 500));
    assert!(!click(&mut game, 1335, 435));
    assert!(click(&mut game, 1450, 850));
    let written = encode(&game.marked);
    let read = load_or_derive(Some(written), &atlas(2));
    assert_eq!(read.len(), 2);
    for (a, b) in read.iter().zip(game.marked.iter()) {
        assert!(a.same(b));
    }
    assert_eq!(read[1].markers, SpriteType::Ground { square: vec![Square::MM, Square::LT] });
    assert_eq!(read[0].markers, SpriteType::Object);
}

fn found(index: usize, kind: &str, marks: &[&str]) -> SavedRecord {
    SavedRecord {
        on_screen_frame: UvRect { rect: Rect::new(0, 0, 64, 32), sheet: Size { w: 512, h: 512 } },
        frame: Rect::new(0, 0, 64, 32),
        markers: SavedTag {
            kind: String::from(kind),
            marks: marks.iter().map(|m| String::from(*m)).collect(),
        },
        name: format!("saved{}", index),
        index,
    }
}

#[test]
fn open_takes_a_usable_save() {
    let info = atlas(2);
    let save = vec![found(0, "Object", &[]), found(1, "Ground", &["MM", "LT"])];
    let game = Game::open(Some(save), &info, String::from("s-marked.json"));
    assert!(game.is_some());
    if let Some(game) = game {
        assert!(game.is_sound());
        assert_eq!(game.marked.len(), 2);
        assert_eq!(game.marked[0].markers, SpriteType::Object);
        assert_eq!(game.marked[1].markers, SpriteType::Ground { square: vec![Square::MM, Square::LT] });
        assert_eq!(game.marked[1].name, "saved1");
        assert_eq!(game.selected, None);
        assert_eq!(game.scroll, 0);
        assert_eq!(game.marked_path, "s-marked.json");
    }
}

#[test]
fn open_falls_back_to_the_atlas_on_an_unusable_save() {
    let info = atlas(3);
    let out_of_order = vec![found(1, "Object", &[]), found(0, "Object", &[])];
    let repeated = vec![found(0, "Ground", &["MM", "MM"])];
    let unknown = vec![found(0, "Animation", &[])];
    for save in vec![Some(out_of_order), Some(repeated), Some(unknown), None] {
        let game = Game::open(save, &info, String::from("p"));
        assert!(game.is_some());
        if let Some(game) = game {
            assert!(game.is_sound());
            assert_eq!(game.marked.len(), 3);
            for (i, record) in game.marked.iter().enumerate() {
                assert_eq!(record.index, i);
                assert_eq!(record.name, format!("frame{}", i));
                assert_eq!(record.markers, SpriteType::Ground { square: vec![] });
            }
        }
    }
}
