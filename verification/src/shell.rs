//! The shell of the editing panel: three category buttons, a save button and
//! the one sub-panel that is open.

use vstd::prelude::*;
use crate::geom::{Point, Rect};
use crate::marker::{
    lemma_toggled_distinct, lemma_toggled_twice, Record, SpriteData, SpriteType, Tag,
};
use crate::ui::{
    edge_order, first_hit, has_room, rect33, room, tag_of, GroundUi, NoSubUi, Panel, PlatformUi,
    SimpleButton, UiState, ICON_SPACE, SAVE_X, SAVE_Y, SUB_UI_DROP,
};
use crate::marker::square_order;

verus! {

/// What a button of the shell stands for.
#[derive(Clone, Copy, Debug, PartialEq, Eq, Structural)]
pub enum Category {
    Object,
    Platform,
    Ground,
    Save,
}

/// What the shell asks of its owner instead of handling a click itself.
#[derive(Clone, Copy, Debug, PartialEq, Eq, Structural)]
pub enum UiSignal {
    SaveNow,
}

/// The room a shell needs around its anchor: down to the lowest row of the
/// lowest sub-panel.
pub const SHELL_REACH: i64 = SUB_UI_DROP + 2 * ICON_SPACE;

/// The anchor of the save button's grid.
pub open spec fn save_anchor() -> Point {
    Point { x: SAVE_X, y: SAVE_Y }
}

/// The tag with which a category starts.
pub open spec fn empty_tag(category: Category) -> Option<Tag> {
    match category {
        Category::Object => Some(Tag::Object),
        Category::Platform => Some(Tag::Platform { horizontal: Seq::empty() }),
        Category::Ground => Some(Tag::Ground { square: Seq::empty() }),
        Category::Save => None,
    }
}

/// The category under which a tag falls.
pub open spec fn category_of(tag: Tag) -> Category {
    match tag {
        Tag::Object => Category::Object,
        Tag::Platform { .. } => Category::Platform,
        Tag::Ground { .. } => Category::Ground,
    }
}

/// The rectangle of a shell's button, for a shell anchored at `offset`.
pub open spec fn category_rect(category: Category, offset: Point) -> Rect {
    match category {
        Category::Object => rect33(4, offset),
        Category::Platform => rect33(5, offset),
        Category::Ground => rect33(6, offset),
        Category::Save => rect33(5, save_anchor()),
    }
}

/// The value of an optional borrowed record.
pub open spec fn record_of_ref(data: Option<&SpriteData>) -> Option<Record> {
    match data {
        Some(d) => Some(d@),
        None => None,
    }
}

/// The value of an optional borrowed tag.
pub open spec fn tag_of_ref(tag: Option<&SpriteType>) -> Option<Tag> {
    match tag {
        Some(t) => Some(t@),
        None => None,
    }
}

/// The state of the shell.
pub struct Shell {
    pub offset: Point,
    /// The record under edit, as it was when the shell was opened.
    pub state: Option<Record>,
    pub hovered: Option<Rect>,
    /// The button of the category that is open.
    pub selected: Option<Rect>,
    pub panel: Panel,
}

impl Shell {
    /// The shell as it opens at `offset` for `data`.
    pub open spec fn opened(offset: Point, data: Option<Record>) -> Shell {
        Shell {
            offset,
            state: data,
            hovered: None,
            selected: match data {
                Some(record) => Some(category_rect(category_of(record.markers), offset)),
                None => None,
            },
            panel: Panel::fresh(
                match data {
                    Some(record) => Some(record.markers),
                    None => None,
                },
                offset,
            ),
        }
    }

    /// The shell's button that a click at `p` presses: ground is tried
    /// first, then platform, object and save.
    pub open spec fn pressed(self, p: Point) -> Option<Category> {
        if category_rect(Category::Ground, self.offset).contains(p) {
            Some(Category::Ground)
        } else if category_rect(Category::Platform, self.offset).contains(p) {
            Some(Category::Platform)
        } else if category_rect(Category::Object, self.offset).contains(p) {
            Some(Category::Object)
        } else if category_rect(Category::Save, self.offset).contains(p) {
            Some(Category::Save)
        } else {
            None
        }
    }

    /// The shell's button under a pointer at `p`: object is tried first,
    /// then platform, ground and save.
    pub open spec fn pointed(self, p: Point) -> Option<Category> {
        if category_rect(Category::Object, self.offset).contains(p) {
            Some(Category::Object)
        } else if category_rect(Category::Platform, self.offset).contains(p) {
            Some(Category::Platform)
        } else if category_rect(Category::Ground, self.offset).contains(p) {
            Some(Category::Ground)
        } else if category_rect(Category::Save, self.offset).contains(p) {
            Some(Category::Save)
        } else {
            None
        }
    }

    /// The shell after a click at `p`. A category button opens a fresh
    /// sub-panel for the category's empty tag; the save button changes
    /// nothing; any other click goes to the open sub-panel.
    pub open spec fn clicked(self, p: Point) -> Shell {
        match self.pressed(p) {
            Some(Category::Save) => self,
            Some(category) => Shell {
                selected: Some(category_rect(category, self.offset)),
                panel: Panel::fresh(empty_tag(category), self.offset),
                ..self
            },
            None => Shell { panel: self.panel.clicked(p), ..self },
        }
    }

    /// Whether a click at `p` asks for a save.
    pub open spec fn asks_save(self, p: Point) -> bool {
        self.pressed(p) == Some(Category::Save)
    }

    /// The control to highlight for a pointer at `p`: a button of the shell,
    /// or else the control of the sub-panel under the pointer.
    pub open spec fn control_at(self, p: Point) -> Option<Rect> {
        match self.pointed(p) {
            Some(category) => Some(category_rect(category, self.offset)),
            None => self.panel.control_at(p),
        }
    }

    /// The shell after the pointer has moved to `p`. The sub-panel hears of
    /// the move only where no button of the shell is under the pointer.
    pub open spec fn hovering(self, p: Point) -> Shell {
        match self.pointed(p) {
            Some(category) => Shell { hovered: self.control_at(p), ..self },
            None => Shell { hovered: self.control_at(p), panel: self.panel.hovering(p), ..self },
        }
    }

    /// The tag under edit: always that of the open sub-panel.
    pub open spec fn tag(self) -> Option<Tag> {
        self.panel.tag()
    }

    /// The record under edit with the tag as the panel shows it now.
    pub open spec fn full_state(self) -> Option<Record> {
        match (self.state, self.tag()) {
            (Some(record), Some(tag)) => Some(record.with_markers(tag)),
            _ => None,
        }
    }
}

#[derive(Clone, Debug)]
pub struct AssetUiButtons {
    pub object: SimpleButton<Category>,
    pub platform: SimpleButton<Category>,
    pub ground: SimpleButton<Category>,
    pub save: SimpleButton<Category>,
}

/// Holds the sub-panel that is open.
#[derive(Clone, Debug)]
pub struct SubUiContainer {
    pub sub_ui: UiState,
}

#[derive(Clone, Debug)]
pub struct AssetTypeUi {
    pub offset: Point,
    pub state: Option<SpriteData>,
    pub hovered: Option<Rect>,
    pub selected: Option<Rect>,
    pub sub_ui_container: SubUiContainer,
    pub buttons: AssetUiButtons,
}

impl View for AssetTypeUi {
    type V = Shell;

    open spec fn view(&self) -> Shell {
        Shell {
            offset: self.offset,
            state: match self.state {
                Some(d) => Some(d@),
                None => None,
            },
            hovered: self.hovered,
            selected: self.selected,
            panel: self.sub_ui_container.sub_ui@,
        }
    }
}

impl AssetTypeUi {
    /// The buttons lie where the anchor puts them, and the sub-panel is
    /// sound.
    pub open spec fn wf(&self) -> bool {
        &&& has_room(self.offset, SHELL_REACH as int)
        &&& self.buttons.object.rect == category_rect(Category::Object, self.offset)
        &&& self.buttons.platform.rect == category_rect(Category::Platform, self.offset)
        &&& self.buttons.ground.rect == category_rect(Category::Ground, self.offset)
        &&& self.buttons.save.rect == category_rect(Category::Save, self.offset)
        &&& self.buttons.object.action == Category::Object
        &&& self.buttons.platform.action == Category::Platform
        &&& self.buttons.ground.action == Category::Ground
        &&& self.buttons.save.action == Category::Save
        &&& self.buttons.object.text@ == "Object"@
        &&& self.buttons.platform.text@ == "Platform"@
        &&& self.buttons.ground.text@ == "Ground"@
        &&& self.buttons.save.text@ == "SAVE!"@
        &&& self.buttons.object.rotation == 0 && self.buttons.platform.rotation == 0
        &&& self.buttons.ground.rotation == 0 && self.buttons.save.rotation == 0
        &&& self.buttons.object.offset == self.offset
        &&& self.buttons.platform.offset == self.offset
        &&& self.buttons.ground.offset == self.offset
        &&& self.buttons.save.offset == save_anchor()
        &&& self.sub_ui_container.sub_ui.wf()
    }

    /// Whether the shell is as `wf` asks.
    pub fn is_sound(&self) -> (ok: bool)
        ensures
            ok == self.wf(),
    {
        if !room(&self.offset, SHELL_REACH) {
            return false;
        }
        let model = AssetTypeUi::new(self.offset, None);
        self.buttons.object.same_look(&model.buttons.object) && self.buttons.platform.same_look(
            &model.buttons.platform,
        ) && self.buttons.ground.same_look(&model.buttons.ground) && self.buttons.save.same_look(
            &model.buttons.save,
        ) && self.buttons.object.action == Category::Object && self.buttons.platform.action
            == Category::Platform && self.buttons.ground.action == Category::Ground
            && self.buttons.save.action == Category::Save && self.sub_ui_container.sub_ui.is_sound()
    }

    /// Opens the shell at `offset` for the record `data`, or for none.
    pub fn new(offset: Point, data: Option<&SpriteData>) -> (ui: AssetTypeUi)
        requires
            has_room(offset, SHELL_REACH as int),
        ensures
            ui.wf(),
            ui@ == Shell::opened(offset, record_of_ref(data)),
    {
        let sub_ui = match data {
            Some(d) => AssetTypeUi::build_sub_ui(Some(&d.markers), &offset),
            None => AssetTypeUi::build_sub_ui(None, &offset),
        };
        let object = SimpleButton::new33("Object", 4, &offset, Category::Object);
        let platform = SimpleButton::new33("Platform", 5, &offset, Category::Platform);
        let ground = SimpleButton::new33("Ground", 6, &offset, Category::Ground);
        let save = SimpleButton::new33("SAVE!", 5, &Point::new(SAVE_X, SAVE_Y), Category::Save);
        let selected = match data {
            Some(d) => match &d.markers {
                SpriteType::Ground { .. } => Some(ground.rect),
                SpriteType::Platform { .. } => Some(platform.rect),
                SpriteType::Object => Some(object.rect),
            },
            None => None,
        };
        let state = match data {
            Some(d) => Some(d.duplicate()),
            None => None,
        };
        AssetTypeUi {
            offset,
            state,
            hovered: None,
            selected,
            sub_ui_container: SubUiContainer { sub_ui },
            buttons: AssetUiButtons { object, platform, ground, save },
        }
    }

    /// The sub-panel for `data`, for a shell anchored at `offset`.
    pub fn build_sub_ui(data: Option<&SpriteType>, offset: &Point) -> (sub_ui: UiState)
        requires
            has_room(*offset, SHELL_REACH as int),
        ensures
            sub_ui.wf(),
            sub_ui@ == Panel::fresh(tag_of_ref(data), *offset),
    {
        match data {
            Some(markers) => {
                let sub_ui_offset = Point::new(offset.x, offset.y + SUB_UI_DROP);
                match markers.duplicate() {
                    SpriteType::Ground { square } => UiState::Ground(
                        GroundUi::new(sub_ui_offset, square),
                    ),
                    SpriteType::Platform { horizontal } => UiState::Platform(
                        PlatformUi::new(sub_ui_offset, horizontal),
                    ),
                    SpriteType::Object => UiState::NoSub(
                        NoSubUi { state: Some(SpriteType::Object) },
                    ),
                }
            },
            None => UiState::NoSub(NoSubUi { state: None }),
        }
    }

    /// The record under edit with the tag as the panel shows it now; `None`
    /// where the shell was opened for no record.
    pub fn full_state(&self) -> (record: Option<SpriteData>)
        ensures
            match record {
                Some(d) => self@.full_state() == Some(d@),
                None => self@.full_state() is None,
            },
    {
        match &self.state {
            Some(state) => match self.return_state() {
                Some(markers) => {
                    let mut record = state.duplicate();
                    record.markers = markers;
                    Some(record)
                },
                None => None,
            },
            None => None,
        }
    }

    /// A click at `point`. A click on the save button is not handled here:
    /// it comes back as `Err(UiSignal::SaveNow)`.
    pub fn interact(&mut self, point: &Point) -> (handled: Result<(), UiSignal>)
        requires
            old(self).wf(),
        ensures
            final(self).wf(),
            final(self)@ == old(self)@.clicked(*point),
            handled is Err == old(self)@.asks_save(*point),
            handled is Err ==> handled == Err::<(), UiSignal>(UiSignal::SaveNow),
    {
        if self.buttons.ground.hover(point) {
            self.sub_ui_container.sub_ui =
            AssetTypeUi::build_sub_ui(Some(&SpriteType::empty_ground()), &self.offset);
            self.selected = Some(self.buttons.ground.rect);
        } else if self.buttons.platform.hover(point) {
            self.sub_ui_container.sub_ui =
            AssetTypeUi::build_sub_ui(Some(&SpriteType::empty_platform()), &self.offset);
            self.selected = Some(self.buttons.platform.rect);
        } else if self.buttons.object.hover(point) {
            self.sub_ui_container.sub_ui =
            AssetTypeUi::build_sub_ui(Some(&SpriteType::Object), &self.offset);
            self.selected = Some(self.buttons.object.rect);
        } else if self.buttons.save.hover(point) {
            return Err(UiSignal::SaveNow);
        } else {
            self.sub_ui_container.sub_ui.interact(point);
        }
        Ok(())
    }

    /// The pointer has moved: remembers and returns the control under it.
    pub fn hover(&mut self, point: &Point) -> (rect: Option<Rect>)
        requires
            old(self).wf(),
        ensures
            final(self).wf(),
            final(self)@ == old(self)@.hovering(*point),
            rect == old(self)@.control_at(*point),
    {
        let rect = if self.buttons.object.hover(point) {
            Some(self.buttons.object.rect)
        } else if self.buttons.platform.hover(point) {
            Some(self.buttons.platform.rect)
        } else if self.buttons.ground.hover(point) {
            Some(self.buttons.ground.rect)
        } else if self.buttons.save.hover(point) {
            Some(self.buttons.save.rect)
        } else {
            self.sub_ui_container.sub_ui.hover(point)
        };
        self.hovered = rect;
        rect
    }

    /// The tag under edit, as the open sub-panel shows it now.
    pub fn return_state(&self) -> (tag: Option<SpriteType>)
        ensures
            tag_of(tag) == self@.tag(),
    {
        self.sub_ui_container.sub_ui.return_state()
    }
}

impl Panel {
    /// Same kind of panel, same place, same highlight, and the same marks
    /// up to their order.
    pub open spec fn same_marks(self, other: Panel) -> bool {
        match (self, other) {
            (
                Panel::Ground { offset, hovered, state },
                Panel::Ground { offset: o, hovered: h, state: s },
            ) => offset == o && hovered == h && state.to_set() == s.to_set(),
            (
                Panel::Platform { offset, hovered, state },
                Panel::Platform { offset: o, hovered: h, state: s },
            ) => offset == o && hovered == h && state.to_set() == s.to_set(),
            (Panel::NoSub { state }, Panel::NoSub { state: s }) => state == s,
            _ => false,
        }
    }
}

/// Two clicks in a row at the same point of a sub-panel restore its set of
/// marks: what the first click adds the second removes, and the reverse.
pub proof fn lemma_click_twice_restores(panel: Panel, p: Point)
    ensures
        panel.clicked(p).clicked(p).same_marks(panel),
{
    match panel {
        Panel::Ground { offset, hovered, state } => {
            match first_hit(panel.controls(), p) {
                Some(i) => {
                    lemma_toggled_twice(state, square_order()[i]);
                },
                None => {},
            }
        },
        Panel::Platform { offset, hovered, state } => {
            match first_hit(panel.controls(), p) {
                Some(i) => {
                    lemma_toggled_twice(state, edge_order()[i]);
                },
                None => {},
            }
        },
        Panel::NoSub { state } => {},
    }
}

/// Two clicks in a row at the same point of the shell's sub-panel, away
/// from the shell's own buttons, restore the set of marks under edit.
pub proof fn lemma_shell_click_twice_restores(shell: Shell, p: Point)
    requires
        shell.pressed(p) is None,
    ensures
        shell.clicked(p).clicked(p).panel.same_marks(shell.panel),
        shell.clicked(p).clicked(p).state == shell.state,
        shell.clicked(p).clicked(p).selected == shell.selected,
{
    lemma_click_twice_restores(shell.panel, p);
}

/// The tag that a panel shows holds no mark twice.
pub open spec fn shows_distinct(tag: Option<Tag>) -> bool {
    match tag {
        Some(t) => t.distinct(),
        None => true,
    }
}

/// A click on a sub-panel never makes a mark occur twice.
pub proof fn lemma_click_keeps_distinct(panel: Panel, p: Point)
    requires
        shows_distinct(panel.tag()),
    ensures
        shows_distinct(panel.clicked(p).tag()),
{
    match panel {
        Panel::Ground { offset, hovered, state } => {
            match first_hit(panel.controls(), p) {
                Some(i) => {
                    lemma_toggled_distinct(state, square_order()[i]);
                },
                None => {},
            }
        },
        Panel::Platform { offset, hovered, state } => {
            match first_hit(panel.controls(), p) {
                Some(i) => {
                    lemma_toggled_distinct(state, edge_order()[i]);
                },
                None => {},
            }
        },
        Panel::NoSub { state } => {},
    }
}

/// Neither a click on the shell nor a move of the pointer makes a mark
/// occur twice in the tag under edit.
pub proof fn lemma_shell_keeps_distinct(shell: Shell, p: Point)
    requires
        shows_distinct(shell.tag()),
    ensures
        shows_distinct(shell.clicked(p).tag()),
        shell.hovering(p).tag() == shell.tag(),
{
    lemma_click_keeps_distinct(shell.panel, p);
}

} // verus!
