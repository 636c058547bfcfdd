//! The buttons of the editing panel and its sub-panels: one that edits the
//! marks of ground, one that edits the edges of a platform, and one without
//! controls.

use vstd::prelude::*;
use crate::geom::{point_within, Point, Rect};
use crate::marker::{
    copy_horizontals, copy_squares, square_cell, square_glyph, square_icons, square_order,
    square_rotation, toggle_horizontal, toggle_square, toggled, Horizontal, SpriteType, Square,
    Tag,
};
use crate::text::same_text;

verus! {

/// Horizontal pitch of the 3x3 button grid.
pub const H_SPACE: i64 = 120;

/// Vertical pitch of the 3x3 button grid.
pub const W_SPACE: i64 = 50;

/// Width of a button of the 3x3 grid.
pub const W_SIZE: i64 = 115;

/// Height of a button of the 3x3 grid.
pub const H_SIZE: i64 = 45;

/// Pitch of the 5x5 icon grid, both ways.
pub const ICON_SPACE: i64 = 65;

/// Width and height of a button of the 5x5 icon grid.
pub const ICON_SIZE: i64 = 60;

/// How far below the shell's anchor the sub-panel's anchor lies.
pub const SUB_UI_DROP: i64 = 300;

/// Anchor of the save button's grid, horizontally.
pub const SAVE_X: i64 = 1450;

/// Anchor of the save button's grid, vertically.
pub const SAVE_Y: i64 = 850;

/// Every point within `reach` of `offset`, along either axis, has `i64`
/// coordinates.
pub open spec fn has_room(offset: Point, reach: int) -> bool {
    &&& i64::MIN + reach <= offset.x <= i64::MAX - reach
    &&& i64::MIN + reach <= offset.y <= i64::MAX - reach
}

/// Whether there is room of `reach` around `offset`.
pub fn room(offset: &Point, reach: i64) -> (roomy: bool)
    requires
        reach >= 0,
    ensures
        roomy == has_room(*offset, reach as int),
{
    i64::MIN + reach <= offset.x && offset.x <= i64::MAX - reach && i64::MIN + reach <= offset.y
        && offset.y <= i64::MAX - reach
}

/// The button at cell `position` of the 3x3 grid centred on `offset`; cells
/// count from 1, row by row.
pub open spec fn rect33(position: int, offset: Point) -> Rect {
    Rect {
        x: (H_SPACE * ((position - 1) % 3 - 1) + offset.x) as i64,
        y: (W_SPACE * ((position - 1) / 3 - 1) + offset.y) as i64,
        w: W_SIZE,
        h: H_SIZE,
    }
}

/// The button at cell `position` of the 5x5 grid centred on `offset`; cells
/// count from 1, row by row.
pub open spec fn rect55(position: int, offset: Point) -> Rect {
    Rect {
        x: (ICON_SPACE * ((position - 1) % 5 - 2) + offset.x) as i64,
        y: (ICON_SPACE * ((position - 1) / 5 - 2) + offset.y) as i64,
        w: ICON_SIZE,
        h: ICON_SIZE,
    }
}

/// A rectangle on screen that stands for `action`.
#[derive(Clone, Copy, Debug)]
pub struct SimpleButton<T> {
    pub rect: Rect,
    pub text: &'static str,
    /// Rotation of the text, in eighths of a full turn.
    pub rotation: i8,
    pub offset: Point,
    pub action: T,
}

impl<T> SimpleButton<T> {
    /// A button in cell `position` of the 3x3 grid centred on `offset`.
    pub fn new33(text: &'static str, position: usize, offset: &Point, action: T) -> (button:
        SimpleButton<T>)
        requires
            1 <= position <= 9,
            has_room(*offset, H_SPACE as int),
        ensures
            button.rect == rect33(position as int, *offset),
            button.text == text,
            button.rotation == 0,
            button.offset == *offset,
            button.action == action,
    {
        let cell: i64 = (position - 1) as i64;
        let v: i64 = cell / 3;
        let h: i64 = cell % 3;
        let rect = Rect::new(
            H_SPACE * (h - 1) + offset.x,
            W_SPACE * (v - 1) + offset.y,
            W_SIZE,
            H_SIZE,
        );
        SimpleButton { rect, text, rotation: 0, offset: *offset, action }
    }

    /// A button in cell `position` of the 5x5 grid centred on `offset`.
    pub fn new55(
        text: &'static str,
        position: isize,
        rotation: i8,
        offset: &Point,
        action: T,
    ) -> (button: SimpleButton<T>)
        requires
            1 <= position <= 25,
            has_room(*offset, 2 * ICON_SPACE),
        ensures
            button.rect == rect55(position as int, *offset),
            button.text == text,
            button.rotation == rotation,
            button.offset == *offset,
            button.action == action,
    {
        let cell: i64 = (position - 1) as i64;
        let v: i64 = cell / 5;
        let h: i64 = cell % 5;
        let rect = Rect::new(
            ICON_SPACE * (h - 2) + offset.x,
            ICON_SPACE * (v - 2) + offset.y,
            ICON_SIZE,
            ICON_SIZE,
        );
        SimpleButton { rect, text, rotation, offset: *offset, action }
    }

    /// The button's action, if the point lies strictly inside the button.
    pub fn interact(&self, point: &Point) -> (hit: Option<&T>)
        ensures
            hit == if self.rect.contains(*point) {
                Some(&self.action)
            } else {
                None
            },
    {
        if point_within(point, &self.rect) {
            Some(&self.action)
        } else {
            None
        }
    }

    /// Whether the point lies strictly inside the button.
    pub fn hover(&self, point: &Point) -> (inside: bool)
        ensures
            inside == self.rect.contains(*point),
    {
        point_within(point, &self.rect)
    }

    /// The two buttons look the same: same rectangle, text, rotation and
    /// anchor.
    pub open spec fn looks_like<U>(&self, other: &SimpleButton<U>) -> bool {
        &&& self.rect == other.rect
        &&& self.text@ == other.text@
        &&& self.rotation == other.rotation
        &&& self.offset == other.offset
    }

    /// Whether the two buttons look the same.
    pub fn same_look<U>(&self, other: &SimpleButton<U>) -> (same: bool)
        ensures
            same == self.looks_like(other),
    {
        self.rect == other.rect && self.rotation == other.rotation && self.offset == other.offset
            && same_text(self.text, other.text)
    }
}

/// `i` is the first of `rects` that contains `p`.
pub open spec fn hits_at(rects: Seq<Rect>, p: Point, i: int) -> bool {
    &&& 0 <= i < rects.len()
    &&& rects[i].contains(p)
    &&& forall|j: int| 0 <= j < i ==> !(#[trigger] rects[j]).contains(p)
}

/// The position of the first of `rects` that contains `p`.
pub open spec fn first_hit(rects: Seq<Rect>, p: Point) -> Option<int> {
    if exists|i: int| hits_at(rects, p, i) {
        Some(choose|i: int| hits_at(rects, p, i))
    } else {
        None
    }
}

/// A first hit is the only first hit.
pub proof fn lemma_first_hit_at(rects: Seq<Rect>, p: Point, i: int)
    requires
        hits_at(rects, p, i),
    ensures
        first_hit(rects, p) == Some(i),
{
    let k = choose|k: int| hits_at(rects, p, k);
    if k < i {
        assert(!rects[k].contains(p));
    } else if i < k {
        assert(!rects[i].contains(p));
    }
}

/// Where no rectangle contains the point there is no first hit.
pub proof fn lemma_first_hit_none(rects: Seq<Rect>, p: Point)
    requires
        forall|j: int| 0 <= j < rects.len() ==> !(#[trigger] rects[j]).contains(p),
    ensures
        first_hit(rects, p) is None,
{
}

/// The squares' buttons, in the order of `square_order`.
pub open spec fn ground_controls(offset: Point) -> Seq<Rect> {
    Seq::new(13, |i: int| rect55(square_cell(square_order()[i]), offset))
}

/// The edges in the order of their buttons.
pub open spec fn edge_order() -> Seq<Horizontal> {
    seq![Horizontal::Left, Horizontal::Center, Horizontal::Right]
}

/// The buttons of the three edges: left, centre, right.
pub open spec fn platform_controls(offset: Point) -> Seq<Rect> {
    seq![rect33(4, offset), rect33(5, offset), rect33(6, offset)]
}

/// The state of a sub-panel.
#[allow(inconsistent_fields)]
pub enum Panel {
    Ground { offset: Point, hovered: Option<Rect>, state: Seq<Square> },
    Platform { offset: Point, hovered: Option<Rect>, state: Seq<Horizontal> },
    NoSub { state: Option<Tag> },
}

impl Panel {
    /// The tag that the panel stands for now.
    pub open spec fn tag(self) -> Option<Tag> {
        match self {
            Panel::Ground { state, .. } => Some(Tag::Ground { square: state }),
            Panel::Platform { state, .. } => Some(Tag::Platform { horizontal: state }),
            Panel::NoSub { state } => state,
        }
    }

    /// The rectangles of the panel's controls, in the order in which a point
    /// is tried against them.
    pub open spec fn controls(self) -> Seq<Rect> {
        match self {
            Panel::Ground { offset, .. } => ground_controls(offset),
            Panel::Platform { offset, .. } => platform_controls(offset),
            Panel::NoSub { .. } => Seq::empty(),
        }
    }

    /// The control under the point: the first that contains it.
    pub open spec fn control_at(self, p: Point) -> Option<Rect> {
        match first_hit(self.controls(), p) {
            Some(i) => Some(self.controls()[i]),
            None => None,
        }
    }

    /// The panel after the pointer has moved to `p`.
    pub open spec fn hovering(self, p: Point) -> Panel {
        match self {
            Panel::Ground { offset, hovered, state } => Panel::Ground {
                offset,
                hovered: self.control_at(p),
                state,
            },
            Panel::Platform { offset, hovered, state } => Panel::Platform {
                offset,
                hovered: self.control_at(p),
                state,
            },
            Panel::NoSub { state } => self,
        }
    }

    /// The panel after a click at `p`: the control under the point, if there
    /// is one, has flipped the membership of its mark.
    pub open spec fn clicked(self, p: Point) -> Panel {
        match self {
            Panel::Ground { offset, hovered, state } => match first_hit(self.controls(), p) {
                Some(i) => Panel::Ground { offset, hovered, state: toggled(state, square_order()[i]) },
                None => self,
            },
            Panel::Platform { offset, hovered, state } => match first_hit(self.controls(), p) {
                Some(i) => Panel::Platform { offset, hovered, state: toggled(state, edge_order()[i]) },
                None => self,
            },
            Panel::NoSub { state } => self,
        }
    }

    /// The panel that a shell anchored at `offset` opens for `tag`.
    pub open spec fn fresh(tag: Option<Tag>, offset: Point) -> Panel {
        let below = Point { x: offset.x, y: (offset.y + SUB_UI_DROP) as i64 };
        match tag {
            Some(Tag::Ground { square }) => Panel::Ground {
                offset: below,
                hovered: None,
                state: square,
            },
            Some(Tag::Platform { horizontal }) => Panel::Platform {
                offset: below,
                hovered: None,
                state: horizontal,
            },
            Some(Tag::Object) => Panel::NoSub { state: Some(Tag::Object) },
            None => Panel::NoSub { state: None },
        }
    }
}

/// The sub-panel for ground: one button per square.
#[derive(Clone, Debug)]
pub struct GroundUi {
    pub offset: Point,
    pub hovered: Option<Rect>,
    pub state: Vec<Square>,
    pub buttons: Vec<SimpleButton<Square>>,
}

impl View for GroundUi {
    type V = Panel;

    open spec fn view(&self) -> Panel {
        Panel::Ground { offset: self.offset, hovered: self.hovered, state: self.state@ }
    }
}

impl GroundUi {
    /// The buttons are those of the squares, laid out around the anchor,
    /// each with the glyph and the rotation of its square.
    pub open spec fn wf(&self) -> bool {
        &&& has_room(self.offset, 2 * ICON_SPACE)
        &&& self.buttons@.len() == 13
        &&& forall|i: int|
            0 <= i < 13 ==> {
                &&& (#[trigger] self.buttons@[i]).rect == ground_controls(self.offset)[i]
                &&& self.buttons@[i].action == square_order()[i]
                &&& self.buttons@[i].text@ == square_glyph(square_order()[i])@
                &&& self.buttons@[i].rotation == square_rotation(square_order()[i])
                &&& self.buttons@[i].offset == self.offset
            }
    }

    /// Whether the panel is as `wf` asks.
    pub fn is_sound(&self) -> (ok: bool)
        ensures
            ok == self.wf(),
    {
        if !room(&self.offset, 2 * ICON_SPACE) || self.buttons.len() != 13 {
            return false;
        }
        let model = GroundUi::new(self.offset, Vec::new());
        let mut i: usize = 0;
        while i < 13
            invariant
                i <= 13,
                model.wf(),
                model.offset == self.offset,
                self.buttons@.len() == 13,
                has_room(self.offset, 2 * ICON_SPACE),
                forall|j: int|
                    0 <= j < i ==> {
                        &&& (#[trigger] self.buttons@[j]).rect == ground_controls(self.offset)[j]
                        &&& self.buttons@[j].action == square_order()[j]
                        &&& self.buttons@[j].text@ == square_glyph(square_order()[j])@
                        &&& self.buttons@[j].rotation == square_rotation(square_order()[j])
                        &&& self.buttons@[j].offset == self.offset
                    },
            decreases 13 - i,
        {
            let same = self.buttons[i].same_look(&model.buttons[i]) && self.buttons[i].action
                == model.buttons[i].action;
            assert(model.buttons@[i as int].action == square_order()[i as int]);
            if !same {
                assert(!self.wf()) by {
                    if self.wf() {
                        assert(self.buttons@[i as int].action == square_order()[i as int]);
                    }
                }
                return false;
            }
            i += 1;
        }
        true
    }

    /// The panel anchored at `offset` with the marks `state` active.
    pub fn new(offset: Point, state: Vec<Square>) -> (ui: GroundUi)
        requires
            has_room(offset, 2 * ICON_SPACE),
        ensures
            ui.wf(),
            ui@ == (Panel::Ground { offset, hovered: None, state: state@ }),
    {
        let icons = square_icons();
        let mut buttons: Vec<SimpleButton<Square>> = Vec::new();
        let mut i: usize = 0;
        while i < icons.len()
            invariant
                i <= 13,
                icons@.len() == 13,
                has_room(offset, 2 * ICON_SPACE),
                forall|k: int|
                    0 <= k < 13 ==> {
                        &&& (#[trigger] icons@[k]).s == square_order()[k]
                        &&& icons@[k].ix == square_cell(square_order()[k])
                        &&& icons@[k].icon == square_glyph(square_order()[k])
                        &&& icons@[k].rotation == square_rotation(square_order()[k])
                    },
                buttons@.len() == i,
                forall|k: int|
                    0 <= k < i ==> {
                        &&& (#[trigger] buttons@[k]).rect == ground_controls(offset)[k]
                        &&& buttons@[k].action == square_order()[k]
                        &&& buttons@[k].text@ == square_glyph(square_order()[k])@
                        &&& buttons@[k].rotation == square_rotation(square_order()[k])
                        &&& buttons@[k].offset == offset
                    },
            decreases 13 - i,
        {
            let si = icons[i];
            buttons.push(SimpleButton::new55(si.icon, si.ix, si.rotation, &offset, si.s));
            i += 1;
        }
        GroundUi { offset, hovered: None, state, buttons }
    }

    /// The position of the first button that contains the point.
    fn button_at(&self, point: &Point) -> (hit: Option<usize>)
        requires
            self.wf(),
        ensures
            match hit {
                Some(i) => first_hit(self@.controls(), *point) == Some(i as int) && i < 13,
                None => first_hit(self@.controls(), *point) is None,
            },
    {
        let mut i: usize = 0;
        while i < self.buttons.len()
            invariant
                self.wf(),
                i <= 13,
                forall|j: int| 0 <= j < i ==> !(#[trigger] self@.controls()[j]).contains(*point),
            decreases 13 - i,
        {
            if self.buttons[i].hover(point) {
                proof {
                    lemma_first_hit_at(self@.controls(), *point, i as int);
                }
                return Some(i);
            }
            i += 1;
        }
        proof {
            lemma_first_hit_none(self@.controls(), *point);
        }
        None
    }

    /// A click: the button under the point flips the membership of its
    /// square.
    pub fn interact(&mut self, point: &Point)
        requires
            old(self).wf(),
        ensures
            final(self).wf(),
            final(self)@ == old(self)@.clicked(*point),
    {
        match self.button_at(point) {
            Some(i) => {
                let square = self.buttons[i].action;
                toggle_square(&mut self.state, square);
            },
            None => {},
        }
    }

    /// The pointer has moved: remembers and returns the button under it.
    pub fn hover(&mut self, point: &Point) -> (rect: Option<Rect>)
        requires
            old(self).wf(),
        ensures
            final(self).wf(),
            final(self)@ == old(self)@.hovering(*point),
            rect == old(self)@.control_at(*point),
    {
        let rect = match self.button_at(point) {
            Some(i) => Some(self.buttons[i].rect),
            None => None,
        };
        self.hovered = rect;
        rect
    }

    /// The tag as the panel shows it now.
    pub fn return_state(&self) -> (tag: Option<SpriteType>)
        ensures
            tag_of(tag) == self@.tag(),
    {
        Some(SpriteType::Ground { square: copy_squares(&self.state) })
    }

    /// The buttons to show as active: for each active mark, in the order of
    /// the marks, the rectangle of its button.
    pub fn selected_rects(&self) -> (rects: Vec<Rect>)
        requires
            self.wf(),
        ensures
            rects@.len() == self.state@.len(),
            forall|k: int|
                0 <= k < rects@.len() ==> rects@[k] == rect55(
                    square_cell(self.state@[k]),
                    self.offset,
                ),
    {
        let mut rects: Vec<Rect> = Vec::new();
        let mut k: usize = 0;
        while k < self.state.len()
            invariant
                self.wf(),
                k <= self.state@.len(),
                rects@.len() == k,
                forall|j: int|
                    0 <= j < k ==> rects@[j] == rect55(square_cell(self.state@[j]), self.offset),
            decreases self.state@.len() - k,
        {
            let mark = self.state[k];
            let mut i: usize = 0;
            while i < self.buttons.len() && self.buttons[i].action != mark
                invariant
                    self.wf(),
                    i <= 13,
                    forall|j: int| 0 <= j < i ==> square_order()[j] != mark,
                decreases 13 - i,
            {
                i += 1;
            }
            proof {
                lemma_square_order_complete(mark);
            }
            rects.push(self.buttons[i].rect);
            k += 1;
        }
        rects
    }
}

/// Every square has its place in `square_order`.
pub proof fn lemma_square_order_complete(s: Square)
    ensures
        exists|i: int| 0 <= i < 13 && square_order()[i] == s,
{
    match s {
        Square::LT => assert(square_order()[0] == s),
        Square::MT => assert(square_order()[1] == s),
        Square::RT => assert(square_order()[2] == s),
        Square::LM => assert(square_order()[3] == s),
        Square::MM => assert(square_order()[4] == s),
        Square::RM => assert(square_order()[5] == s),
        Square::LB => assert(square_order()[6] == s),
        Square::MB => assert(square_order()[7] == s),
        Square::RB => assert(square_order()[8] == s),
        Square::IBL => assert(square_order()[9] == s),
        Square::ILT => assert(square_order()[10] == s),
        Square::IBR => assert(square_order()[11] == s),
        Square::IRT => assert(square_order()[12] == s),
    }
}

/// The sub-panel for a platform: one button per edge.
#[derive(Clone, Debug)]
pub struct PlatformUi {
    pub offset: Point,
    pub hovered: Option<Rect>,
    pub state: Vec<Horizontal>,
    pub left: SimpleButton<Horizontal>,
    pub center: SimpleButton<Horizontal>,
    pub right: SimpleButton<Horizontal>,
}

impl View for PlatformUi {
    type V = Panel;

    open spec fn view(&self) -> Panel {
        Panel::Platform { offset: self.offset, hovered: self.hovered, state: self.state@ }
    }
}

impl PlatformUi {
    /// The buttons are those of the three edges, laid out around the anchor.
    pub open spec fn wf(&self) -> bool {
        &&& self.left.rect == rect33(4, self.offset)
        &&& self.center.rect == rect33(5, self.offset)
        &&& self.right.rect == rect33(6, self.offset)
        &&& self.left.action == Horizontal::Left
        &&& self.center.action == Horizontal::Center
        &&& self.right.action == Horizontal::Right
        &&& self.left.text@ == "Left"@
        &&& self.center.text@ == "Center"@
        &&& self.right.text@ == "Right"@
        &&& self.left.rotation == 0 && self.center.rotation == 0 && self.right.rotation == 0
        &&& self.left.offset == self.offset
        &&& self.center.offset == self.offset
        &&& self.right.offset == self.offset
        &&& has_room(self.offset, H_SPACE as int)
    }

    /// Whether the panel is as `wf` asks.
    pub fn is_sound(&self) -> (ok: bool)
        ensures
            ok == self.wf(),
    {
        if !room(&self.offset, H_SPACE) {
            return false;
        }
        let model = PlatformUi::new(self.offset, Vec::new());
        self.left.same_look(&model.left) && self.center.same_look(&model.center)
            && self.right.same_look(&model.right) && self.left.action == Horizontal::Left
            && self.center.action == Horizontal::Center && self.right.action
            == Horizontal::Right
    }

    /// The buttons to show as active among left, right and centre, in that
    /// order.
    pub open spec fn active_rects(&self) -> Seq<Rect> {
        let left = if self.state@.contains(Horizontal::Left) {
            seq![self.left.rect]
        } else {
            Seq::empty()
        };
        let right = if self.state@.contains(Horizontal::Right) {
            seq![self.right.rect]
        } else {
            Seq::empty()
        };
        let center = if self.state@.contains(Horizontal::Center) {
            seq![self.center.rect]
        } else {
            Seq::empty()
        };
        left + right + center
    }

    /// Whether `edge` is active.
    pub fn is_active(&self, edge: Horizontal) -> (active: bool)
        ensures
            active == self.state@.contains(edge),
    {
        let mut i: usize = 0;
        while i < self.state.len()
            invariant
                i <= self.state@.len(),
                forall|j: int| 0 <= j < i ==> self.state@[j] != edge,
            decreases self.state@.len() - i,
        {
            if self.state[i] == edge {
                return true;
            }
            i += 1;
        }
        false
    }

    /// The buttons to show as active.
    pub fn selected_rects(&self) -> (rects: Vec<Rect>)
        ensures
            rects@ == self.active_rects(),
    {
        let mut rects: Vec<Rect> = Vec::new();
        if self.is_active(Horizontal::Left) {
            rects.push(self.left.rect);
        }
        if self.is_active(Horizontal::Right) {
            rects.push(self.right.rect);
        }
        if self.is_active(Horizontal::Center) {
            rects.push(self.center.rect);
        }
        assert(rects@ =~= self.active_rects());
        rects
    }

    /// The panel anchored at `offset` with the edges `state` active.
    pub fn new(offset: Point, state: Vec<Horizontal>) -> (ui: PlatformUi)
        requires
            has_room(offset, H_SPACE as int),
        ensures
            ui.wf(),
            ui@ == (Panel::Platform { offset, hovered: None, state: state@ }),
    {
        let left = SimpleButton::new33("Left", 4, &offset, Horizontal::Left);
        let center = SimpleButton::new33("Center", 5, &offset, Horizontal::Center);
        let right = SimpleButton::new33("Right", 6, &offset, Horizontal::Right);
        PlatformUi { offset, hovered: None, state, left, center, right }
    }

    /// The position of the first button that contains the point.
    fn button_at(&self, point: &Point) -> (hit: Option<usize>)
        requires
            self.wf(),
        ensures
            match hit {
                Some(i) => first_hit(self@.controls(), *point) == Some(i as int) && i < 3,
                None => first_hit(self@.controls(), *point) is None,
            },
    {
        if self.left.hover(point) {
            proof {
                lemma_first_hit_at(self@.controls(), *point, 0);
            }
            Some(0)
        } else if self.center.hover(point) {
            proof {
                lemma_first_hit_at(self@.controls(), *point, 1);
            }
            Some(1)
        } else if self.right.hover(point) {
            proof {
                lemma_first_hit_at(self@.controls(), *point, 2);
            }
            Some(2)
        } else {
            proof {
                lemma_first_hit_none(self@.controls(), *point);
            }
            None
        }
    }

    /// A click: the button under the point flips the membership of its edge.
    pub fn interact(&mut self, point: &Point)
        requires
            old(self).wf(),
        ensures
            final(self).wf(),
            final(self)@ == old(self)@.clicked(*point),
    {
        match self.button_at(point) {
            Some(i) => {
                let edge = if i == 0 {
                    self.left.action
                } else if i == 1 {
                    self.center.action
                } else {
                    self.right.action
                };
                toggle_horizontal(&mut self.state, edge);
            },
            None => {},
        }
    }

    /// The pointer has moved: remembers and returns the button under it.
    pub fn hover(&mut self, point: &Point) -> (rect: Option<Rect>)
        requires
            old(self).wf(),
        ensures
            final(self).wf(),
            final(self)@ == old(self)@.hovering(*point),
            rect == old(self)@.control_at(*point),
    {
        let rect = match self.button_at(point) {
            Some(i) => Some(
                if i == 0 {
                    self.left.rect
                } else if i == 1 {
                    self.center.rect
                } else {
                    self.right.rect
                },
            ),
            None => None,
        };
        self.hovered = rect;
        rect
    }

    /// The tag as the panel shows it now.
    pub fn return_state(&self) -> (tag: Option<SpriteType>)
        ensures
            tag_of(tag) == self@.tag(),
    {
        Some(SpriteType::Platform { horizontal: copy_horizontals(&self.state) })
    }
}

/// The sub-panel with no controls: it only holds the tag it was opened for.
#[derive(Clone, Debug)]
pub struct NoSubUi {
    pub state: Option<SpriteType>,
}

impl View for NoSubUi {
    type V = Panel;

    open spec fn view(&self) -> Panel {
        Panel::NoSub { state: tag_of(self.state) }
    }
}

impl NoSubUi {
    /// A click changes nothing.
    pub fn interact(&mut self, point: &Point)
        ensures
            final(self)@ == old(self)@.clicked(*point),
            *final(self) == *old(self),
    {
    }

    /// There is nothing to hover over.
    pub fn hover(&mut self, point: &Point) -> (rect: Option<Rect>)
        ensures
            final(self)@ == old(self)@.hovering(*point),
            *final(self) == *old(self),
            rect == old(self)@.control_at(*point),
            rect is None,
    {
        proof {
            lemma_first_hit_none(self@.controls(), *point);
        }
        None
    }

    /// The tag the panel was opened for.
    pub fn return_state(&self) -> (tag: Option<SpriteType>)
        ensures
            tag_of(tag) == self@.tag(),
    {
        match &self.state {
            Some(tag) => Some(tag.duplicate()),
            None => None,
        }
    }
}

/// The value of an optional tag.
pub open spec fn tag_of(tag: Option<SpriteType>) -> Option<Tag> {
    match tag {
        Some(t) => Some(t@),
        None => None,
    }
}

/// The sub-panel that is open: one of the three kinds.
#[derive(Clone, Debug)]
pub enum UiState {
    Ground(GroundUi),
    Platform(PlatformUi),
    NoSub(NoSubUi),
}

impl View for UiState {
    type V = Panel;

    open spec fn view(&self) -> Panel {
        match self {
            UiState::Ground(ui) => ui@,
            UiState::Platform(ui) => ui@,
            UiState::NoSub(ui) => ui@,
        }
    }
}

impl UiState {
    pub open spec fn wf(&self) -> bool {
        match self {
            UiState::Ground(ui) => ui.wf(),
            UiState::Platform(ui) => ui.wf(),
            UiState::NoSub(ui) => true,
        }
    }

    /// Whether the open sub-panel is as `wf` asks.
    pub fn is_sound(&self) -> (ok: bool)
        ensures
            ok == self.wf(),
    {
        match self {
            UiState::Ground(ui) => ui.is_sound(),
            UiState::Platform(ui) => ui.is_sound(),
            UiState::NoSub(_) => true,
        }
    }

    /// A click, handed to the open sub-panel.
    pub fn interact(&mut self, point: &Point)
        requires
            old(self).wf(),
        ensures
            final(self).wf(),
            final(self)@ == old(self)@.clicked(*point),
    {
        match self {
            UiState::Ground(ui) => ui.interact(point),
            UiState::Platform(ui) => ui.interact(point),
            UiState::NoSub(ui) => ui.interact(point),
        }
    }

    /// A pointer move, handed to the open sub-panel.
    pub fn hover(&mut self, point: &Point) -> (rect: Option<Rect>)
        requires
            old(self).wf(),
        ensures
            final(self).wf(),
            final(self)@ == old(self)@.hovering(*point),
            rect == old(self)@.control_at(*point),
    {
        match self {
            UiState::Ground(ui) => ui.hover(point),
            UiState::Platform(ui) => ui.hover(point),
            UiState::NoSub(ui) => ui.hover(point),
        }
    }

    /// The tag as the open sub-panel shows it now.
    pub fn return_state(&self) -> (tag: Option<SpriteType>)
        ensures
            tag_of(tag) == self@.tag(),
    {
        match self {
            UiState::Ground(ui) => ui.return_state(),
            UiState::Platform(ui) => ui.return_state(),
            UiState::NoSub(ui) => ui.return_state(),
        }
    }
}

} // verus!
