//! The editing session: the collection of records, what is hovered and what
//! is selected, the scroll offset and the panel, and how pointer input moves
//! it between browsing and editing.

use vstd::prelude::*;
use crate::geom::{point_within, Point, Rect, COORD_LIMIT};
use crate::atlas::SpriteSheetInfo;
use crate::marker::{aligned, records, well_kept, Record, SpriteData};
use crate::saved::{found, load_or_derive, loaded_or_derived, SavedRecord};
use crate::shell::{lemma_shell_keeps_distinct, shows_distinct, AssetTypeUi, Shell};
use crate::ui::{first_hit, lemma_first_hit_at, lemma_first_hit_none};

verus! {

/// Frames per row of the grid.
pub const GRID_COLUMNS: usize = 3;

/// Centre of the grid's first cell, on both axes.
pub const GRID_ORIGIN: i64 = 200;

/// Distance between the centres of neighbouring cells.
pub const CELL_PITCH: i64 = 400;

/// The extent to which the longer side of a frame is scaled.
pub const CELL_FIT: i64 = 380;

/// How far one notch of the wheel scrolls.
pub const SCROLL_STEP: i64 = 30;

/// Anchor of the editing panel, horizontally.
pub const PANEL_X: i64 = 1400;

/// Anchor of the editing panel, vertically.
pub const PANEL_Y: i64 = 200;

/// The most records a session lays out; their cells' coordinates are `i64`.
pub const MAX_FRAMES: usize = 0xFFFF_FFFF;

/// The scroll offset never falls below this, so that a scrolled coordinate
/// is an `i64`.
pub const SCROLL_FLOOR: i64 = -0x1000_0000_0000_0000;

/// The anchor of the editing panel.
pub open spec fn panel_anchor() -> Point {
    Point { x: PANEL_X, y: PANEL_Y }
}

/// The column and the row of the grid cell of the record at `index`.
pub fn grid_cell(index: usize) -> (cell: (usize, usize))
    ensures
        cell.0 == index % 3,
        cell.1 == index / 3,
        cell.0 < GRID_COLUMNS,
{
    (index % GRID_COLUMNS, index / GRID_COLUMNS)
}

/// The extent on screen of a side of `extent`, where the longer side of its
/// frame is `longest`: scaled by `CELL_FIT / longest`, in whole units. A
/// frame without extent shows nothing.
pub open spec fn fit(extent: int, longest: int) -> int {
    if longest > 0 && extent > 0 {
        (extent * CELL_FIT) / longest
    } else {
        0
    }
}

/// The longer side of a frame.
pub open spec fn longest_side(frame: Rect) -> int {
    if frame.w >= frame.h {
        frame.w as int
    } else {
        frame.h as int
    }
}

/// Where the record at `index` with the source rectangle `frame` is shown
/// under the scroll offset `scroll`: column `index % 3`, row `index / 3`.
pub open spec fn cell_rect(frame: Rect, index: usize, scroll: i64) -> Rect {
    Rect {
        x: (GRID_ORIGIN + (index % 3) * CELL_PITCH) as i64,
        y: (GRID_ORIGIN + (index / 3) * CELL_PITCH + scroll) as i64,
        w: fit(frame.w as int, longest_side(frame)) as i64,
        h: fit(frame.h as int, longest_side(frame)) as i64,
    }
}

/// The layout of a collection: for each record its index and its cell.
pub open spec fn laid_out(marked: Seq<Record>, scroll: i64) -> Seq<(usize, Rect)> {
    Seq::new(
        marked.len(),
        |i: int| (marked[i].index, cell_rect(marked[i].frame, marked[i].index, scroll)),
    )
}

/// The rectangles of a layout, in order.
pub open spec fn rects_of(layout: Seq<(usize, Rect)>) -> Seq<Rect> {
    Seq::new(layout.len(), |i: int| layout[i].1)
}

/// `rect` moved down the screen by `scroll`.
pub open spec fn with_scroll(rect: Rect, scroll: int) -> Rect {
    Rect { y: (rect.y + scroll) as i64, ..rect }
}

/// The scroll offset after `notches` of the wheel: it moves by `SCROLL_STEP`
/// per notch and is clamped at the top, so a move to zero or above ends at
/// zero. A move below `SCROLL_FLOOR` leaves it where it is.
pub open spec fn scroll_after(scroll: i64, notches: i32) -> i64 {
    let moved = scroll + notches * SCROLL_STEP;
    if moved >= 0 {
        0
    } else if moved >= SCROLL_FLOOR {
        moved as i64
    } else {
        scroll
    }
}

/// The size on screen of one side of a frame whose longer side is `longest`.
fn fit_side(extent: i64, longest: i64) -> (shown: i64)
    requires
        extent <= longest,
    ensures
        shown == fit(extent as int, longest as int),
        0 <= shown <= CELL_FIT,
{
    if longest > 0 && extent > 0 {
        assert(0 <= (extent * 380) / (longest as int) <= 380) by (nonlinear_arith)
            requires
                0 < extent <= longest,
        ;
        let scaled: i128 = ((extent as i128) * 380) / (longest as i128);
        scaled as i64
    } else {
        0
    }
}

/// The scale at which a frame is drawn, as a fraction: `CELL_FIT` over the
/// frame's longer side. The same scale holds for both sides.
pub fn cell_scale(frame: &Rect) -> (scale: (i64, i64))
    ensures
        scale.0 == CELL_FIT,
        scale.1 == longest_side(*frame),
{
    if frame.w >= frame.h {
        (CELL_FIT, frame.w)
    } else {
        (CELL_FIT, frame.h)
    }
}

/// `rect` moved down the screen by `scroll`.
pub fn rect_with_scroll(rect: &Rect, scroll: i64) -> (moved: Rect)
    requires
        rect.tame(),
        -COORD_LIMIT <= scroll <= COORD_LIMIT,
    ensures
        moved == with_scroll(*rect, scroll as int),
        moved.y == rect.y + scroll,
{
    Rect { x: rect.x, y: rect.y + scroll, w: rect.w, h: rect.h }
}

/// Which buttons of the pointer are held.
#[derive(Clone, Copy, Debug, PartialEq, Eq, Structural)]
pub struct MouseState {
    pub left: bool,
    pub right: bool,
}

#[derive(Clone, Copy, Debug, PartialEq, Eq, Structural)]
pub enum MouseButton {
    Left,
    Middle,
    Right,
}

/// The session. It is browsing while `selected` is `None` and editing while
/// it names a record.
#[derive(Clone, Debug)]
pub struct Game {
    /// Where the collection is saved.
    pub marked_path: String,
    pub ui: AssetTypeUi,
    pub marked: Vec<SpriteData>,
    /// The layout as of the last update: for each record its index and the
    /// rectangle in which it is shown.
    pub sprites_render: Vec<(usize, Rect)>,
    pub scroll: i64,
    /// The record under edit with its cell, scroll taken out.
    pub selected: Option<(Rect, usize)>,
    /// The record under the pointer with its cell, scroll taken out.
    pub hovered: Option<(Rect, usize)>,
    /// A click that the next update will handle.
    pub click: Option<Point>,
}

/// The state of a session.
pub struct Session {
    pub marked_path: Seq<char>,
    pub ui: Shell,
    pub marked: Seq<Record>,
    pub sprites_render: Seq<(usize, Rect)>,
    pub scroll: i64,
    pub selected: Option<(Rect, usize)>,
    pub hovered: Option<(Rect, usize)>,
    pub click: Option<Point>,
}

/// A cell as the layout places it: close enough to the origin that taking
/// the scroll out of it leaves a tame rectangle.
pub open spec fn near(rect: Rect) -> bool {
    &&& SCROLL_FLOOR <= rect.x <= -SCROLL_FLOOR
    &&& SCROLL_FLOOR <= rect.y <= -SCROLL_FLOOR
}

impl Session {
    /// What every session keeps: the collection is well kept and not too
    /// long, the tag under edit holds no mark twice, the scroll offset is
    /// never above zero, what is hovered or selected is a record of the
    /// collection, and while a record is selected the panel is open for that
    /// record and shows a tag.
    pub open spec fn wf(self) -> bool {
        &&& well_kept(self.marked)
        &&& shows_distinct(self.ui.tag())
        &&& self.marked.len() <= MAX_FRAMES
        &&& SCROLL_FLOOR <= self.scroll <= 0
        &&& forall|k: int|
            0 <= k < self.sprites_render.len() ==> (#[trigger] self.sprites_render[k]).0
                < self.marked.len() && near(self.sprites_render[k].1)
        &&& match self.hovered {
            Some(h) => h.1 < self.marked.len() && h.0.tame(),
            None => true,
        }
        &&& match self.selected {
            Some(sel) => {
                &&& sel.1 < self.marked.len()
                &&& sel.0.tame()
                &&& self.ui.state == Some(self.marked[sel.1 as int])
                &&& self.ui.tag() is Some
            },
            None => true,
        }
    }

    /// The session after the pending edit is written back: the selected
    /// record takes the tag that the panel shows, every other record stays,
    /// and nothing is selected any more.
    pub open spec fn committed(self) -> Session {
        match (self.selected, self.ui.tag()) {
            (Some(sel), Some(tag)) => Session {
                marked: self.marked.update(
                    sel.1 as int,
                    self.marked[sel.1 as int].with_markers(tag),
                ),
                selected: None,
                ..self
            },
            _ => self,
        }
    }

    /// The session after editing has begun on the hovered record `ix`: a
    /// fresh panel is open for the record as the collection holds it.
    pub open spec fn opened(self, ix: usize) -> Session {
        Session {
            ui: Shell::opened(panel_anchor(), Some(self.marked[ix as int])),
            selected: self.hovered,
            ..self
        }
    }

    /// The session once it is ready to be written out: a pending edit is
    /// committed.
    pub open spec fn saved(self) -> Session {
        if self.selected is Some {
            self.committed()
        } else {
            self
        }
    }

    /// Whether `p` lies in the cell of the selected record, as shown.
    pub open spec fn on_selected(self, p: Point) -> bool {
        match self.selected {
            Some(sel) => with_scroll(sel.0, self.scroll as int).contains(p),
            None => false,
        }
    }

    /// Whether a click at `p` ends in a request to write the collection out:
    /// while editing, away from the selected cell and from every other cell,
    /// on the panel's save button.
    pub open spec fn click_saves(self, p: Point) -> bool {
        &&& self.selected is Some
        &&& !self.on_selected(p)
        &&& self.hovered is None
        &&& self.ui.asks_save(p)
    }

    /// The session after a click at `p`.
    ///
    /// While editing: a click on the selected cell commits; a click while
    /// another cell is hovered commits and opens that cell's record; any
    /// other click goes to the panel, and if the panel asks for a save the
    /// edit is committed. While browsing: a click while a cell is hovered
    /// opens that cell's record.
    pub open spec fn clicked(self, p: Point) -> Session {
        match self.selected {
            Some(sel) => {
                if self.on_selected(p) {
                    self.committed()
                } else {
                    match self.hovered {
                        Some(h) => self.committed().opened(h.1),
                        None => {
                            let passed = Session { ui: self.ui.clicked(p), ..self };
                            if self.ui.asks_save(p) {
                                passed.saved()
                            } else {
                                passed
                            }
                        },
                    }
                }
            },
            None => match self.hovered {
                Some(h) => self.opened(h.1),
                None => self,
            },
        }
    }

    /// The session after one update: the waiting click, if there is one, is
    /// handled, and the records are laid out anew.
    pub open spec fn updated(self) -> Session {
        let handled = match self.click {
            Some(p) => self.clicked(p),
            None => self,
        };
        Session {
            click: None,
            sprites_render: laid_out(handled.marked, handled.scroll),
            ..handled
        }
    }

    /// Whether the update ends in a request to write the collection out.
    pub open spec fn update_saves(self) -> bool {
        match self.click {
            Some(p) => self.click_saves(p),
            None => false,
        }
    }

    /// The session after the pointer has moved to `p`: the first cell of the
    /// layout under the pointer is hovered; where there is none, nothing is
    /// hovered and, while editing, the panel hears of the move.
    pub open spec fn hovering(self, p: Point) -> Session {
        match first_hit(rects_of(self.sprites_render), p) {
            Some(k) => Session {
                hovered: Some(
                    (with_scroll(self.sprites_render[k].1, -self.scroll), self.sprites_render[k].0),
                ),
                ..self
            },
            None => Session {
                hovered: None,
                ui: if self.selected is Some {
                    self.ui.hovering(p)
                } else {
                    self.ui
                },
                ..self
            },
        }
    }

    /// The session after `notches` of the wheel.
    pub open spec fn scrolled(self, notches: i32) -> Session {
        Session { scroll: scroll_after(self.scroll, notches), ..self }
    }
}

impl View for Game {
    type V = Session;

    open spec fn view(&self) -> Session {
        Session {
            marked_path: self.marked_path@,
            ui: self.ui@,
            marked: records(self.marked@),
            sprites_render: self.sprites_render@,
            scroll: self.scroll,
            selected: self.selected,
            hovered: self.hovered,
            click: self.click,
        }
    }
}

/// Lays the records out on the grid, three to a row, under the scroll offset
/// `scroll`.
pub fn layout(marked: &Vec<SpriteData>, scroll: i64) -> (cells: Vec<(usize, Rect)>)
    requires
        aligned(records(marked@)),
        marked@.len() <= MAX_FRAMES,
        SCROLL_FLOOR <= scroll <= 0,
    ensures
        cells@ == laid_out(records(marked@), scroll),
        forall|k: int|
            0 <= k < cells@.len() ==> (#[trigger] cells@[k]).0 == k && near(cells@[k].1),
{
    let mut cells: Vec<(usize, Rect)> = Vec::new();
    let mut i: usize = 0;
    while i < marked.len()
        invariant
            i <= marked@.len(),
            aligned(records(marked@)),
            marked@.len() <= MAX_FRAMES,
            SCROLL_FLOOR <= scroll <= 0,
            cells@.len() == i,
            forall|k: int|
                0 <= k < i ==> {
                    &&& (#[trigger] cells@[k]) == laid_out(records(marked@), scroll)[k]
                    &&& cells@[k].0 == k
                    &&& near(cells@[k].1)
                },
        decreases marked@.len() - i,
    {
        let frame = &marked[i];
        assert(records(marked@)[i as int].index == i);
        let ix: usize = frame.index;
        let (column, row) = grid_cell(ix);
        let longest: i64 = if frame.frame.w >= frame.frame.h {
            frame.frame.w
        } else {
            frame.frame.h
        };
        let cell = Rect {
            x: GRID_ORIGIN + (column as i64) * CELL_PITCH,
            y: GRID_ORIGIN + (row as i64) * CELL_PITCH + scroll,
            w: fit_side(frame.frame.w, longest),
            h: fit_side(frame.frame.h, longest),
        };
        cells.push((ix, cell));
        i += 1;
    }
    assert(cells@ =~= laid_out(records(marked@), scroll));
    cells
}

impl Game {
    /// The session's invariant, and the panel's.
    pub open spec fn wf(&self) -> bool {
        &&& self@.wf()
        &&& self.ui.wf()
    }

    /// Whether the session is as `wf` asks.
    pub fn is_sound(&self) -> (ok: bool)
        ensures
            ok == self.wf(),
    {
        if !SpriteData::is_well_kept(&self.marked) || self.marked.len() > MAX_FRAMES || self.scroll
            > 0 || self.scroll < SCROLL_FLOOR || !self.ui.is_sound() {
            return false;
        }
        let shown_ok = match self.ui.return_state() {
            Some(tag) => tag.is_distinct(),
            None => true,
        };
        if !shown_ok {
            return false;
        }
        let mut k: usize = 0;
        while k < self.sprites_render.len()
            invariant
                k <= self.sprites_render@.len(),
                forall|j: int|
                    0 <= j < k ==> (#[trigger] self.sprites_render@[j]).0 < self.marked@.len()
                        && near(self.sprites_render@[j].1),
            decreases self.sprites_render@.len() - k,
        {
            let (ix, rect) = self.sprites_render[k];
            if ix >= self.marked.len() || rect.x < SCROLL_FLOOR || rect.x > -SCROLL_FLOOR || rect.y
                < SCROLL_FLOOR || rect.y > -SCROLL_FLOOR {
                assert(!self@.wf()) by {
                    if self@.wf() {
                        assert(self@.sprites_render[k as int].0 < self@.marked.len());
                    }
                }
                return false;
            }
            k += 1;
        }
        let hovered_ok = match self.hovered {
            Some(h) => h.1 < self.marked.len() && h.0.is_tame(),
            None => true,
        };
        let selected_ok = match self.selected {
            Some(sel) => {
                sel.1 < self.marked.len() && sel.0.is_tame() && match &self.ui.state {
                    Some(state) => state.same(&self.marked[sel.1]),
                    None => false,
                } && self.ui.return_state().is_some()
            },
            None => true,
        };
        hovered_ok && selected_ok
    }

    /// A session on `marked`. It starts browsing, unscrolled, with nothing
    /// laid out yet.
    pub fn new(marked: Vec<SpriteData>, marked_path: String) -> (game: Game)
        requires
            well_kept(records(marked@)),
            marked@.len() <= MAX_FRAMES,
        ensures
            game.wf(),
            game@ == (Session {
                marked_path: marked_path@,
                ui: Shell::opened(panel_anchor(), None),
                marked: records(marked@),
                sprites_render: Seq::empty(),
                scroll: 0,
                selected: None,
                hovered: None,
                click: None,
            }),
    {
        let ui = AssetTypeUi::new(Point::new(PANEL_X, PANEL_Y), None);
        Game {
            marked_path,
            ui,
            marked,
            sprites_render: Vec::new(),
            scroll: 0,
            selected: None,
            hovered: None,
            click: None,
        }
    }

    /// A session on what was found of an earlier save, or on the fresh
    /// collection of the atlas where nothing usable was found. There is no
    /// session where that collection has more than `MAX_FRAMES` records.
    pub fn open(loaded: Option<Vec<SavedRecord>>, info: &SpriteSheetInfo, marked_path: String) -> (game:
        Option<Game>)
        ensures
            game is Some == (loaded_or_derived(found(loaded), info).len() <= MAX_FRAMES),
            match game {
                Some(g) => g.wf() && g@ == (Session {
                    marked_path: marked_path@,
                    ui: Shell::opened(panel_anchor(), None),
                    marked: loaded_or_derived(found(loaded), info),
                    sprites_render: Seq::empty(),
                    scroll: 0,
                    selected: None,
                    hovered: None,
                    click: None,
                }),
                None => true,
            },
    {
        let marked = load_or_derive(loaded, info);
        if marked.len() > MAX_FRAMES {
            None
        } else {
            Some(Game::new(marked, marked_path))
        }
    }

    /// The position in the layout of the first cell that contains the point.
    fn frame_at(&self, point: &Point) -> (hit: Option<usize>)
        ensures
            match hit {
                Some(k) => first_hit(rects_of(self.sprites_render@), *point) == Some(k as int) && k
                    < self.sprites_render@.len(),
                None => first_hit(rects_of(self.sprites_render@), *point) is None,
            },
    {
        let ghost rects = rects_of(self.sprites_render@);
        let mut k: usize = 0;
        while k < self.sprites_render.len()
            invariant
                k <= self.sprites_render@.len(),
                rects == rects_of(self.sprites_render@),
                forall|j: int| 0 <= j < k ==> !(#[trigger] rects[j]).contains(*point),
            decreases self.sprites_render@.len() - k,
        {
            if point_within(point, &self.sprites_render[k].1) {
                proof {
                    lemma_first_hit_at(rects, *point, k as int);
                }
                return Some(k);
            }
            k += 1;
        }
        proof {
            lemma_first_hit_none(rects, *point);
        }
        None
    }

    /// The pointer has moved to `(x, y)`.
    pub fn hover(&mut self, x: i32, y: i32)
        requires
            old(self).wf(),
        ensures
            final(self).wf(),
            final(self)@ == old(self)@.hovering(Point { x: x as i64, y: y as i64 }),
    {
        let point = Point::new(x as i64, y as i64);
        match self.frame_at(&point) {
            Some(k) => {
                let (ix, rect) = self.sprites_render[k];
                let r = Rect { x: rect.x, y: rect.y - self.scroll, w: rect.w, h: rect.h };
                self.hovered = Some((r, ix));
            },
            None => {
                if self.selected.is_some() {
                    self.ui.hover(&point);
                }
                self.hovered = None;
            },
        }
    }

    /// Commits the pending edit: the selected record takes the tag that
    /// the panel shows, and the session goes back to browsing.
    pub fn unselect(&mut self)
        requires
            old(self).wf(),
            old(self).selected is Some,
        ensures
            final(self).wf(),
            final(self)@ == old(self)@.committed(),
            final(self).selected is None,
    {
        match self.selected {
            Some((_, ix)) => {
                match self.ui.full_state() {
                    Some(record) => {
                        self.marked.set(ix, record);
                        self.selected = None;
                        assert(records(self.marked@) =~= old(self)@.committed().marked);
                    },
                    None => {},
                }
            },
            None => {},
        }
    }

    /// Begins editing the hovered record `ix`: opens a fresh panel for it and
    /// selects it.
    pub fn select(&mut self, ix: usize)
        requires
            old(self).wf(),
            old(self).selected is None,
            match old(self).hovered {
                Some(h) => h.1 == ix,
                None => false,
            },
        ensures
            final(self).wf(),
            final(self)@ == old(self)@.opened(ix),
            final(self).selected == old(self).hovered,
    {
        let ui = AssetTypeUi::new(Point::new(PANEL_X, PANEL_Y), Some(&self.marked[ix]));
        self.selected = self.hovered;
        self.ui = ui;
    }

    /// Makes the collection ready to be written to `marked_path`: a pending
    /// edit is committed first.
    pub fn save(&mut self)
        requires
            old(self).wf(),
        ensures
            final(self).wf(),
            final(self)@ == old(self)@.saved(),
            final(self).selected is None,
    {
        if self.selected.is_some() {
            self.unselect();
        }
    }

    /// Handles the waiting click, if there is one, and lays the records out
    /// anew. Returns whether the collection is to be written out now; it is
    /// then ready for that.
    pub fn update(&mut self) -> (save_now: bool)
        requires
            old(self).wf(),
        ensures
            final(self).wf(),
            final(self)@ == old(self)@.updated(),
            save_now == old(self)@.update_saves(),
            save_now ==> final(self).selected is None,
    {
        let mut save_now = false;
        match self.click {
            Some(point) => {
                match self.selected {
                    Some(sel) => {
                        if point_within(&point, &rect_with_scroll(&sel.0, self.scroll)) {
                            self.unselect();
                        } else {
                            match self.hovered {
                                Some(hovered) => {
                                    self.unselect();
                                    self.select(hovered.1);
                                },
                                None => {
                                    proof {
                                        lemma_shell_keeps_distinct(self.ui@, point);
                                    }
                                    match self.ui.interact(&point) {
                                        Ok(_) => {},
                                        Err(_) => {
                                            save_now = true;
                                        },
                                    }
                                },
                            }
                        }
                    },
                    None => {
                        match self.hovered {
                            Some(hovered) => {
                                self.select(hovered.1);
                            },
                            None => {},
                        }
                    },
                }
            },
            None => {},
        }
        self.click = None;
        if save_now {
            self.save();
        }
        self.sprites_render = layout(&self.marked, self.scroll);
        save_now
    }

    /// The pointer has moved; it hovers only while no button is held.
    pub fn mouse_motion_event(&mut self, state: MouseState, x: i32, y: i32, _xrel: i32, _yrel: i32)
        requires
            old(self).wf(),
        ensures
            final(self).wf(),
            final(self)@ == if !state.left && !state.right {
                old(self)@.hovering(Point { x: x as i64, y: y as i64 })
            } else {
                old(self)@
            },
    {
        if !state.left && !state.right {
            self.hover(x, y);
        }
    }

    /// A button went down; a left click waits for the next update.
    pub fn mouse_button_down_event(&mut self, button: MouseButton, x: i32, y: i32)
        requires
            old(self).wf(),
        ensures
            final(self).wf(),
            final(self)@ == if button == MouseButton::Left {
                (Session { click: Some(Point { x: x as i64, y: y as i64 }), ..old(self)@ })
            } else {
                old(self)@
            },
    {
        if button == MouseButton::Left {
            self.click = Some(Point::new(x as i64, y as i64));
        }
    }

    /// The wheel has turned by `y` notches.
    pub fn mouse_wheel_event(&mut self, _x: i32, y: i32)
        requires
            old(self).wf(),
        ensures
            final(self).wf(),
            final(self)@ == old(self)@.scrolled(y),
            final(self).scroll <= 0,
    {
        let new_scroll: i64 = self.scroll + (y as i64) * SCROLL_STEP;
        if new_scroll >= 0 {
            self.scroll = 0;
        } else if new_scroll >= SCROLL_FLOOR {
            self.scroll = new_scroll;
        }
    }

    /// The rectangle to outline for the hovered record, as shown.
    pub fn hover_outline(&self) -> (outline: Option<Rect>)
        requires
            self.wf(),
        ensures
            outline == match self.hovered {
                Some(h) => Some(with_scroll(h.0, self.scroll as int)),
                None => None,
            },
    {
        match self.hovered {
            Some(h) => Some(rect_with_scroll(&h.0, self.scroll)),
            None => None,
        }
    }

    /// The rectangle to outline for the selected record, as shown. The panel
    /// is on screen exactly when there is one.
    pub fn selection_outline(&self) -> (outline: Option<Rect>)
        requires
            self.wf(),
        ensures
            outline == match self.selected {
                Some(sel) => Some(with_scroll(sel.0, self.scroll as int)),
                None => None,
            },
    {
        match self.selected {
            Some(sel) => Some(rect_with_scroll(&sel.0, self.scroll)),
            None => None,
        }
    }
}

/// An update keeps what every session keeps.
pub proof fn lemma_update_keeps_invariant(s: Session)
    requires
        s.wf(),
    ensures
        s.updated().wf(),
{
    let handled = match s.click {
        Some(p) => s.clicked(p),
        None => s,
    };
    match s.click {
        Some(p) => {
            lemma_shell_keeps_distinct(s.ui, p);
        },
        None => {},
    }
    assert(handled.marked.len() == s.marked.len());
    assert(well_kept(handled.marked)) by {
        assert forall|i: int| 0 <= i < handled.marked.len() implies (#[trigger] handled.marked[
            i
        ]).index == i && handled.marked[i].markers.distinct() by {
            assert(s.marked[i].index == i);
            assert(s.marked[i].markers.distinct());
        }
    }
    assert(shows_distinct(handled.ui.tag())) by {
        match s.hovered {
            Some(h) => {
                assert(s.marked[h.1 as int].markers.distinct());
                assert(s.committed().marked[h.1 as int].markers.distinct());
            },
            None => {},
        }
    }
    let cells = laid_out(handled.marked, handled.scroll);
    assert forall|k: int| 0 <= k < cells.len() implies (#[trigger] cells[k]).0
        < handled.marked.len() && near(cells[k].1) by {
        assert(handled.marked[k].index == k);
    }
}

/// An update changes no record but the selected one, and of that one
/// nothing but the tag. While browsing it changes no record at all.
pub proof fn lemma_update_changes_only_selected_tag(s: Session)
    requires
        s.wf(),
    ensures
        s.updated().marked.len() == s.marked.len(),
        forall|i: int|
            0 <= i < s.marked.len() ==> (#[trigger] s.updated().marked[i])
                == s.marked[i].with_markers(s.updated().marked[i].markers),
        forall|i: int|
            0 <= i < s.marked.len() && (match s.selected {
                Some(sel) => sel.1 != i,
                None => true,
            }) ==> (#[trigger] s.updated().marked[i]) == s.marked[i],
        s.selected is None ==> s.updated().marked == s.marked,
{
}

/// A session that is editing after an update either was editing the same
/// record before, or has just opened the record that was hovered.
pub proof fn lemma_editing_begins_on_hovered(s: Session)
    requires
        s.wf(),
    ensures
        s.updated().selected is Some ==> s.updated().selected == s.selected || (s.click is Some
            && s.updated().selected == s.hovered),
        s.update_saves() ==> s.updated().selected is None,
{
}

/// Moving the pointer or turning the wheel changes neither the collection
/// nor the selection, and the wheel never scrolls above the top.
pub proof fn lemma_pointer_keeps_collection(s: Session, p: Point, notches: i32)
    requires
        s.wf(),
    ensures
        s.hovering(p).marked == s.marked,
        s.hovering(p).selected == s.selected,
        s.hovering(p).ui.tag() == s.ui.tag(),
        s.scrolled(notches).marked == s.marked,
        s.scrolled(notches).selected == s.selected,
        s.scrolled(notches).scroll <= 0,
{
}

/// The wheel is clamped at the top: whatever move would end at zero or above
/// ends at zero, so the top can always be reached again; a move that ends
/// between the floor and zero is taken as it is.
pub proof fn lemma_scroll_is_clamped(scroll: i64, notches: i32)
    requires
        SCROLL_FLOOR <= scroll <= 0,
    ensures
        SCROLL_FLOOR <= scroll_after(scroll, notches) <= 0,
        scroll + notches * SCROLL_STEP >= 0 ==> scroll_after(scroll, notches) == 0,
        SCROLL_FLOOR <= scroll + notches * SCROLL_STEP < 0 ==> scroll_after(scroll, notches)
            == scroll + notches * SCROLL_STEP,
{
}

} // verus!
