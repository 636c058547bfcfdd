//! The tag of a frame, the record that carries it, and the rule by which a
//! click adds a mark to a tag or takes it away.

use vstd::prelude::*;
use crate::atlas::{FrameInfo, SpriteSheetInfo};
use crate::geom::{Rect, UvRect};

verus! {

/// A position on the ground grid: the nine cells of a 3x3 block and the four
/// inner corners.
#[derive(Clone, Copy, Debug, PartialEq, Eq, Hash, Structural)]
pub enum Square {
    LT,
    MT,
    RT,
    LM,
    MM,
    RM,
    LB,
    MB,
    RB,
    IBL,
    ILT,
    IBR,
    IRT,
}

#[derive(Clone, Copy, Debug, PartialEq, Eq, Hash, Structural)]
pub enum Horizontal {
    Left,
    Right,
    Center,
}

/// How a `Square` is shown on the ground panel.
#[derive(Clone, Copy, Debug)]
pub struct SquareIcon {
    pub s: Square,
    pub icon: &'static str,
    /// Rotation of the glyph, in eighths of a full turn.
    pub rotation: i8,
    /// Cell of the panel's 5x5 grid, counted from 1 row by row.
    pub ix: isize,
}

/// The squares in the order in which the ground panel lists them.
pub open spec fn square_order() -> Seq<Square> {
    seq![
        Square::LT,
        Square::MT,
        Square::RT,
        Square::LM,
        Square::MM,
        Square::RM,
        Square::LB,
        Square::MB,
        Square::RB,
        Square::IBL,
        Square::ILT,
        Square::IBR,
        Square::IRT,
    ]
}

/// The cell of the panel's 5x5 grid that shows `s`.
pub open spec fn square_cell(s: Square) -> int {
    match s {
        Square::LT => 7,
        Square::MT => 8,
        Square::RT => 9,
        Square::LM => 12,
        Square::MM => 13,
        Square::RM => 14,
        Square::LB => 17,
        Square::MB => 18,
        Square::RB => 19,
        Square::IBL => 21,
        Square::ILT => 22,
        Square::IBR => 25,
        Square::IRT => 24,
    }
}

/// The rotation of the glyph of `s`, in eighths of a full turn.
pub open spec fn square_rotation(s: Square) -> int {
    match s {
        Square::LT | Square::RB | Square::IBR => -1,
        Square::RT | Square::LB | Square::IBL => 1,
        _ => 0,
    }
}

/// The glyph that stands for `s`.
pub open spec fn square_glyph(s: Square) -> &'static str {
    match s {
        Square::LM => "\u{f104}",
        Square::MM => "\u{f111}",
        Square::RM => "\u{f105}",
        Square::LB | Square::MB | Square::RB => "\u{f107}",
        _ => "\u{f106}",
    }
}

impl SquareIcon {
    /// The icon of one square.
    pub fn of(s: Square) -> (icon: SquareIcon)
        ensures
            icon.s == s,
            icon.icon == square_glyph(s),
            icon.rotation == square_rotation(s),
            icon.ix == square_cell(s),
    {
        match s {
            Square::LT => SquareIcon { s, icon: "\u{f106}", rotation: -1, ix: 7 },
            Square::MT => SquareIcon { s, icon: "\u{f106}", rotation: 0, ix: 8 },
            Square::RT => SquareIcon { s, icon: "\u{f106}", rotation: 1, ix: 9 },
            Square::LM => SquareIcon { s, icon: "\u{f104}", rotation: 0, ix: 12 },
            Square::MM => SquareIcon { s, icon: "\u{f111}", rotation: 0, ix: 13 },
            Square::RM => SquareIcon { s, icon: "\u{f105}", rotation: 0, ix: 14 },
            Square::LB => SquareIcon { s, icon: "\u{f107}", rotation: 1, ix: 17 },
            Square::MB => SquareIcon { s, icon: "\u{f107}", rotation: 0, ix: 18 },
            Square::RB => SquareIcon { s, icon: "\u{f107}", rotation: -1, ix: 19 },
            Square::IBL => SquareIcon { s, icon: "\u{f106}", rotation: 1, ix: 21 },
            Square::ILT => SquareIcon { s, icon: "\u{f106}", rotation: 0, ix: 22 },
            Square::IBR => SquareIcon { s, icon: "\u{f106}", rotation: -1, ix: 25 },
            Square::IRT => SquareIcon { s, icon: "\u{f106}", rotation: 0, ix: 24 },
        }
    }
}

/// The icons of all squares, in the order of `square_order`.
pub fn square_icons() -> (icons: Vec<SquareIcon>)
    ensures
        icons@.len() == 13,
        icons@.len() == square_order().len(),
        forall|i: int|
            0 <= i < 13 ==> {
                &&& (#[trigger] icons@[i]).s == square_order()[i]
                &&& icons@[i].icon == square_glyph(square_order()[i])
                &&& icons@[i].rotation == square_rotation(square_order()[i])
                &&& icons@[i].ix == square_cell(square_order()[i])
            },
{
    let mut icons: Vec<SquareIcon> = Vec::new();
    icons.push(SquareIcon::of(Square::LT));
    icons.push(SquareIcon::of(Square::MT));
    icons.push(SquareIcon::of(Square::RT));
    icons.push(SquareIcon::of(Square::LM));
    icons.push(SquareIcon::of(Square::MM));
    icons.push(SquareIcon::of(Square::RM));
    icons.push(SquareIcon::of(Square::LB));
    icons.push(SquareIcon::of(Square::MB));
    icons.push(SquareIcon::of(Square::RB));
    icons.push(SquareIcon::of(Square::IBL));
    icons.push(SquareIcon::of(Square::ILT));
    icons.push(SquareIcon::of(Square::IBR));
    icons.push(SquareIcon::of(Square::IRT));
    icons
}

/// What a sprite is: a free object, a platform with its active horizontal
/// edges, or ground with its active marks.
#[derive(Clone, Debug, PartialEq, Eq, Hash)]
pub enum SpriteType {
    Object,
    Platform { horizontal: Vec<Horizontal> },
    Ground { square: Vec<Square> },
}

/// The value of a `SpriteType`.
pub enum Tag {
    Object,
    Platform { horizontal: Seq<Horizontal> },
    Ground { square: Seq<Square> },
}

impl Tag {
    /// No mark occurs twice.
    pub open spec fn distinct(self) -> bool {
        match self {
            Tag::Object => true,
            Tag::Platform { horizontal } => horizontal.no_duplicates(),
            Tag::Ground { square } => square.no_duplicates(),
        }
    }
}

impl View for SpriteType {
    type V = Tag;

    open spec fn view(&self) -> Tag {
        match self {
            SpriteType::Object => Tag::Object,
            SpriteType::Platform { horizontal } => Tag::Platform { horizontal: horizontal@ },
            SpriteType::Ground { square } => Tag::Ground { square: square@ },
        }
    }
}

/// A copy of a list of squares.
pub fn copy_squares(marks: &Vec<Square>) -> (copy: Vec<Square>)
    ensures
        copy@ == marks@,
{
    let mut copy: Vec<Square> = Vec::new();
    let mut i: usize = 0;
    while i < marks.len()
        invariant
            i <= marks@.len(),
            copy@ == marks@.subrange(0, i as int),
        decreases marks@.len() - i,
    {
        copy.push(marks[i]);
        assert(copy@ =~= marks@.subrange(0, i + 1));
        i += 1;
    }
    assert(copy@ =~= marks@);
    copy
}

/// A copy of a list of horizontal edges.
pub fn copy_horizontals(edges: &Vec<Horizontal>) -> (copy: Vec<Horizontal>)
    ensures
        copy@ == edges@,
{
    let mut copy: Vec<Horizontal> = Vec::new();
    let mut i: usize = 0;
    while i < edges.len()
        invariant
            i <= edges@.len(),
            copy@ == edges@.subrange(0, i as int),
        decreases edges@.len() - i,
    {
        copy.push(edges[i]);
        assert(copy@ =~= edges@.subrange(0, i + 1));
        i += 1;
    }
    assert(copy@ =~= edges@);
    copy
}

/// Whether two lists of squares are the same, place by place.
pub fn same_squares(a: &Vec<Square>, b: &Vec<Square>) -> (same: bool)
    ensures
        same == (a@ == b@),
{
    if a.len() != b.len() {
        return false;
    }
    let mut i: usize = 0;
    while i < a.len()
        invariant
            i <= a@.len(),
            a@.len() == b@.len(),
            forall|j: int| 0 <= j < i ==> a@[j] == b@[j],
        decreases a@.len() - i,
    {
        if a[i] != b[i] {
            return false;
        }
        i += 1;
    }
    assert(a@ =~= b@);
    true
}

/// Whether two lists of edges are the same, place by place.
pub fn same_horizontals(a: &Vec<Horizontal>, b: &Vec<Horizontal>) -> (same: bool)
    ensures
        same == (a@ == b@),
{
    if a.len() != b.len() {
        return false;
    }
    let mut i: usize = 0;
    while i < a.len()
        invariant
            i <= a@.len(),
            a@.len() == b@.len(),
            forall|j: int| 0 <= j < i ==> a@[j] == b@[j],
        decreases a@.len() - i,
    {
        if a[i] != b[i] {
            return false;
        }
        i += 1;
    }
    assert(a@ =~= b@);
    true
}

impl SpriteType {
    /// Whether the two tags have the same value.
    pub fn same(&self, other: &SpriteType) -> (same: bool)
        ensures
            same == (self@ == other@),
    {
        match (self, other) {
            (SpriteType::Object, SpriteType::Object) => true,
            (SpriteType::Platform { horizontal: a }, SpriteType::Platform { horizontal: b }) => {
                same_horizontals(a, b)
            },
            (SpriteType::Ground { square: a }, SpriteType::Ground { square: b }) => {
                same_squares(a, b)
            },
            _ => false,
        }
    }

    /// Whether no mark occurs twice in the tag.
    pub fn is_distinct(&self) -> (ok: bool)
        ensures
            ok == self@.distinct(),
    {
        match self {
            SpriteType::Object => true,
            SpriteType::Platform { horizontal } => is_distinct(horizontal),
            SpriteType::Ground { square } => is_distinct(square),
        }
    }

    /// Ground with no active mark.
    pub fn empty_ground() -> (tag: SpriteType)
        ensures
            tag@ == (Tag::Ground { square: Seq::empty() }),
            tag@.distinct(),
    {
        SpriteType::Ground { square: Vec::new() }
    }

    /// A platform with no active edge.
    pub fn empty_platform() -> (tag: SpriteType)
        ensures
            tag@ == (Tag::Platform { horizontal: Seq::empty() }),
            tag@.distinct(),
    {
        SpriteType::Platform { horizontal: Vec::new() }
    }

    /// A copy with the same value.
    pub fn duplicate(&self) -> (copy: SpriteType)
        ensures
            copy@ == self@,
    {
        match self {
            SpriteType::Object => SpriteType::Object,
            SpriteType::Platform { horizontal } => SpriteType::Platform {
                horizontal: copy_horizontals(horizontal),
            },
            SpriteType::Ground { square } => SpriteType::Ground { square: copy_squares(square) },
        }
    }
}

/// One frame of the sheet with its tag.
#[derive(Clone, Debug)]
pub struct SpriteData {
    /// The frame's place on the sheet, normalized.
    pub on_screen_frame: UvRect,
    /// The frame's place on the sheet.
    pub frame: Rect,
    pub markers: SpriteType,
    pub name: String,
    /// Position of the record in its collection.
    pub index: usize,
}

/// The value of a `SpriteData`.
pub struct Record {
    pub on_screen_frame: UvRect,
    pub frame: Rect,
    pub markers: Tag,
    pub name: Seq<char>,
    pub index: usize,
}

impl Record {
    /// The same record under another tag.
    pub open spec fn with_markers(self, markers: Tag) -> Record {
        Record { markers, ..self }
    }
}

impl View for SpriteData {
    type V = Record;

    open spec fn view(&self) -> Record {
        Record {
            on_screen_frame: self.on_screen_frame,
            frame: self.frame,
            markers: self.markers@,
            name: self.name@,
            index: self.index,
        }
    }
}

/// The values of a collection of records, in order.
pub open spec fn records(marked: Seq<SpriteData>) -> Seq<Record> {
    Seq::new(marked.len(), |i: int| marked[i]@)
}

/// Every record sits at the position that its `index` names.
pub open spec fn aligned(marked: Seq<Record>) -> bool {
    forall|i: int| 0 <= i < marked.len() ==> (#[trigger] marked[i]).index == i
}

/// A collection as it is meant to be: every record sits at the position
/// that its `index` names, and no record holds a mark twice.
pub open spec fn well_kept(marked: Seq<Record>) -> bool {
    &&& aligned(marked)
    &&& forall|i: int| 0 <= i < marked.len() ==> (#[trigger] marked[i]).markers.distinct()
}

/// The record that a fresh collection holds for frame `i` of the atlas:
/// ground with no mark.
pub open spec fn derived_record(info: &SpriteSheetInfo, i: int) -> Record {
    Record {
        on_screen_frame: FrameInfo::of(info, i).segment,
        frame: info.frames@[i].frame,
        markers: Tag::Ground { square: Seq::empty() },
        name: info.frames@[i].filename@,
        index: i as usize,
    }
}

/// The fresh collection of an atlas.
pub open spec fn derived(info: &SpriteSheetInfo) -> Seq<Record> {
    Seq::new(info.frames@.len(), |i: int| derived_record(info, i))
}

impl SpriteData {
    /// One record per frame of the atlas, in the atlas's order, each tagged
    /// as ground with no mark.
    pub fn create(info: &SpriteSheetInfo) -> (marked: Vec<SpriteData>)
        ensures
            records(marked@) == derived(info),
            aligned(records(marked@)),
            well_kept(records(marked@)),
            marked@.len() == info.frames@.len(),
    {
        let frames = FrameInfo::extract_frames(info);
        let mut marked: Vec<SpriteData> = Vec::new();
        let mut ix: usize = 0;
        while ix < info.frames.len()
            invariant
                ix <= info.frames@.len(),
                frames@.len() == info.frames@.len(),
                forall|k: int| 0 <= k < frames@.len() ==> frames@[k] == FrameInfo::of(info, k),
                marked@.len() == ix,
                forall|k: int| 0 <= k < ix ==> (#[trigger] marked@[k])@ == derived_record(info, k),
            decreases info.frames@.len() - ix,
        {
            let sprite = &info.frames[ix];
            marked.push(
                SpriteData {
                    on_screen_frame: frames[ix].segment,
                    frame: sprite.frame,
                    markers: SpriteType::empty_ground(),
                    name: sprite.filename.clone(),
                    index: ix,
                },
            );
            ix += 1;
        }
        assert(records(marked@) =~= derived(info));
        marked
    }

    /// A copy with the same value.
    pub fn duplicate(&self) -> (copy: SpriteData)
        ensures
            copy@ == self@,
    {
        SpriteData {
            on_screen_frame: self.on_screen_frame,
            frame: self.frame,
            markers: self.markers.duplicate(),
            name: self.name.clone(),
            index: self.index,
        }
    }

    /// Whether the two records have the same value.
    pub fn same(&self, other: &SpriteData) -> (same: bool)
        ensures
            same == (self@ == other@),
    {
        self.on_screen_frame == other.on_screen_frame && self.frame == other.frame
            && self.index == other.index && self.name == other.name && self.markers.same(
            &other.markers,
        )
    }

    /// Whether `marked` is well kept: aligned, and no mark twice in a record.
    pub fn is_well_kept(marked: &Vec<SpriteData>) -> (ok: bool)
        ensures
            ok == well_kept(records(marked@)),
    {
        if !SpriteData::is_aligned(marked) {
            return false;
        }
        let mut i: usize = 0;
        while i < marked.len()
            invariant
                i <= marked@.len(),
                forall|k: int| 0 <= k < i ==> (#[trigger] records(marked@)[k]).markers.distinct(),
            decreases marked@.len() - i,
        {
            if !marked[i].markers.is_distinct() {
                assert(!records(marked@)[i as int].markers.distinct());
                return false;
            }
            i += 1;
        }
        true
    }

    /// Whether every record of `marked` sits at the position its `index` names.
    pub fn is_aligned(marked: &Vec<SpriteData>) -> (ok: bool)
        ensures
            ok == aligned(records(marked@)),
    {
        let mut i: usize = 0;
        while i < marked.len()
            invariant
                i <= marked@.len(),
                forall|k: int| 0 <= k < i ==> (#[trigger] records(marked@)[k]).index == k,
            decreases marked@.len() - i,
        {
            if marked[i].index != i {
                assert(records(marked@)[i as int].index != i);
                return false;
            }
            i += 1;
        }
        true
    }
}

/// A value that can be told from another of its kind.
pub trait Mark: Copy {
    /// Whether the two are the same value.
    fn same(&self, other: &Self) -> (same: bool)
        ensures
            same == (*self == *other),
    ;
}

impl Mark for Square {
    fn same(&self, other: &Self) -> (same: bool) {
        *self == *other
    }
}

impl Mark for Horizontal {
    fn same(&self, other: &Self) -> (same: bool) {
        *self == *other
    }
}

/// The values of `s`, each once, in the order in which they first occur.
pub open spec fn distinct<T>(s: Seq<T>) -> Seq<T>
    decreases s.len(),
{
    if s.len() == 0 {
        s
    } else {
        let front = distinct(s.drop_last());
        if front.contains(s.last()) {
            front
        } else {
            front.push(s.last())
        }
    }
}

/// The marks `s` with `v` among them: every value once, in the order in
/// which they first occur, `v` last where it is new.
pub open spec fn added<T>(s: Seq<T>, v: T) -> Seq<T> {
    distinct(s.push(v))
}

/// What a click on the control of `v` makes of the marks `s`: `v` leaves if
/// it was there, and is added if it was not.
pub open spec fn toggled<T>(s: Seq<T>, v: T) -> Seq<T> {
    if s.contains(v) {
        without(s, v)
    } else {
        added(s, v)
    }
}

/// `distinct` keeps every value, and keeps it once.
pub proof fn lemma_distinct<T>(s: Seq<T>)
    ensures
        distinct(s).no_duplicates(),
        forall|u: T| distinct(s).contains(u) == s.contains(u),
        distinct(s).to_set() == s.to_set(),
        distinct(s).len() == s.to_set().len(),
        distinct(s).len() <= s.len(),
    decreases s.len(),
{
    let d = distinct(s);
    if s.len() > 0 {
        let rest = s.drop_last();
        let last = s.last();
        let front = distinct(rest);
        lemma_distinct(rest);
        assert(rest.push(last) =~= s);
        assert forall|u: T| d.contains(u) == s.contains(u) by {
            vstd::seq_lib::lemma_seq_contains_after_push(rest, last, u);
            vstd::seq_lib::lemma_seq_contains_after_push(front, last, u);
        }
        if !front.contains(last) {
            assert forall|i: int, j: int|
                0 <= i < d.len() && 0 <= j < d.len() && i != j implies d[i] != d[j] by {
                if i < front.len() && j < front.len() {
                } else if i < front.len() {
                    assert(front.contains(front[i]));
                } else {
                    assert(front.contains(front[j]));
                }
            }
        }
    }
    assert(d.to_set() =~= s.to_set());
    d.unique_seq_to_set();
}

/// A list without repeats is its own list of distinct values.
pub proof fn lemma_distinct_of_distinct<T>(s: Seq<T>)
    requires
        s.no_duplicates(),
    ensures
        distinct(s) == s,
    decreases s.len(),
{
    if s.len() > 0 {
        let rest = s.drop_last();
        let last = s.last();
        lemma_distinct_of_distinct(rest);
        if rest.contains(last) {
            let i = choose|i: int| 0 <= i < rest.len() && rest[i] == last;
            assert(s[i] == s[s.len() - 1]);
        }
        assert(rest.push(last) =~= s);
    }
}

/// Adding a value leaves no value twice, and holds what was there and the
/// value; a list without repeats that held the value already stays as it is.
pub proof fn lemma_added<T>(s: Seq<T>, v: T)
    ensures
        added(s, v).no_duplicates(),
        added(s, v).to_set() == s.to_set().insert(v),
        added(s, v).len() == s.to_set().insert(v).len(),
        added(s, v) == if distinct(s).contains(v) {
            distinct(s)
        } else {
            distinct(s).push(v)
        },
        s.no_duplicates() && s.contains(v) ==> added(s, v) == s,
        s.no_duplicates() && !s.contains(v) ==> added(s, v) == s.push(v),
{
    broadcast use vstd::seq_lib::group_seq_properties;

    lemma_distinct(s.push(v));
    lemma_distinct(s);
    assert(s.push(v).drop_last() =~= s);
    assert(s.push(v).to_set() =~= s.to_set().insert(v)) by {
        assert forall|u: T| s.push(v).contains(u) == (s.contains(u) || u == v) by {
            vstd::seq_lib::lemma_seq_contains_after_push(s, v, u);
        }
    }
    if s.no_duplicates() {
        lemma_distinct_of_distinct(s);
    }
}

/// The list `s` with every occurrence of `v` taken out.
pub open spec fn without<T>(s: Seq<T>, v: T) -> Seq<T> {
    s.filter(|x: T| x != v)
}

/// Taking `v` out of a list that ends in `last` handles `last` on its own.
pub proof fn lemma_without_push<T>(s: Seq<T>, last: T, v: T)
    ensures
        without(s.push(last), v) == if last != v {
            without(s, v).push(last)
        } else {
            without(s, v)
        },
{
    s.lemma_filter_push(last, |x: T| x != v);
}

/// What is left after taking `v` out is what was there, but for `v`.
pub proof fn lemma_without_members<T>(s: Seq<T>, v: T)
    ensures
        !without(s, v).contains(v),
        forall|u: T| u != v ==> without(s, v).contains(u) == s.contains(u),
{
    broadcast use vstd::seq_lib::group_seq_properties;

    let keep = |x: T| x != v;
    if s.filter(keep).contains(v) {
        let i = choose|i: int| 0 <= i < s.filter(keep).len() && s.filter(keep)[i] == v;
        s.lemma_filter_pred(keep, i);
    }
    assert forall|u: T| u != v implies s.filter(keep).contains(u) == s.contains(u) by {
        if s.contains(u) {
            let i = choose|i: int| 0 <= i < s.len() && s[i] == u;
            s.lemma_filter_contains(keep, i);
        }
        if s.filter(keep).contains(u) {
            s.lemma_filter_contains_rev(keep, u);
        }
    }
}

/// After a toggle of `v` exactly the membership of `v` has changed.
pub proof fn lemma_toggled_members<T>(s: Seq<T>, v: T)
    ensures
        toggled(s, v).contains(v) == !s.contains(v),
        forall|u: T| u != v ==> toggled(s, v).contains(u) == s.contains(u),
{
    if s.contains(v) {
        lemma_without_members(s, v);
    } else {
        lemma_distinct(s.push(v));
        assert forall|u: T| s.push(v).contains(u) == (s.contains(u) || u == v) by {
            vstd::seq_lib::lemma_seq_contains_after_push(s, v, u);
        }
    }
}

/// Taking a value out of a list without repeats leaves a list without
/// repeats.
pub proof fn lemma_without_distinct<T>(s: Seq<T>, v: T)
    requires
        s.no_duplicates(),
    ensures
        without(s, v).no_duplicates(),
    decreases s.len(),
{
    if s.len() > 0 {
        let rest = s.drop_last();
        let last = s.last();
        assert(rest.push(last) =~= s);
        lemma_without_distinct(rest, v);
        lemma_without_push(rest, last, v);
        if last != v {
            let kept = without(rest, v);
            lemma_without_members(rest, v);
            if rest.contains(last) {
                let i = choose|i: int| 0 <= i < rest.len() && rest[i] == last;
                assert(s[i] == s[s.len() - 1]);
            }
            assert forall|i: int, j: int|
                0 <= i < kept.push(last).len() && 0 <= j < kept.push(last).len() && i
                    != j implies kept.push(last)[i] != kept.push(last)[j] by {
                if i < kept.len() && j < kept.len() {
                } else if i < kept.len() {
                    assert(kept.contains(kept[i]));
                } else {
                    assert(kept.contains(kept[j]));
                }
            }
        }
    }
}

/// A toggle never makes a mark occur twice; one that adds leaves none
/// twice whatever was there.
pub proof fn lemma_toggled_distinct<T>(s: Seq<T>, v: T)
    ensures
        s.no_duplicates() || !s.contains(v) ==> toggled(s, v).no_duplicates(),
{
    if s.contains(v) {
        if s.no_duplicates() {
            lemma_without_distinct(s, v);
        }
    } else {
        lemma_added(s, v);
    }
}

/// Taking out a value that does not occur changes nothing.
pub proof fn lemma_without_absent<T>(s: Seq<T>, v: T)
    requires
        !s.contains(v),
    ensures
        without(s, v) == s,
    decreases s.len(),
{
    if s.len() > 0 {
        let rest = s.drop_last();
        let last = s.last();
        assert(rest.push(last) =~= s);
        assert forall|i: int| 0 <= i < rest.len() implies rest[i] != v by {
            assert(s[i] == rest[i]);
            assert(s.contains(s[i]));
        }
        lemma_without_absent(rest, v);
        lemma_without_push(rest, last, v);
        assert(s.contains(last));
    } else {
        reveal(Seq::filter);
    }
}

/// Two toggles of the same value in a row leave the set of marks as it was;
/// where the value was absent from a list without repeats, the list itself
/// is as it was.
pub proof fn lemma_toggled_twice<T>(s: Seq<T>, v: T)
    ensures
        toggled(toggled(s, v), v).to_set() == s.to_set(),
        !s.contains(v) && s.no_duplicates() ==> toggled(toggled(s, v), v) == s,
{
    broadcast use vstd::seq_lib::group_seq_properties;

    let once = toggled(s, v);
    let twice = toggled(once, v);
    lemma_toggled_members(s, v);
    lemma_toggled_members(once, v);
    assert(twice.to_set() =~= s.to_set());
    if !s.contains(v) && s.no_duplicates() {
        lemma_added(s, v);
        lemma_without_push(s, v, v);
        lemma_without_absent(s, v);
    }
}

/// Whether `vec` holds `value`.
pub fn holds<T: Mark>(vec: &Vec<T>, value: &T) -> (held: bool)
    ensures
        held == vec@.contains(*value),
{
    let mut i: usize = 0;
    while i < vec.len()
        invariant
            i <= vec@.len(),
            forall|j: int| 0 <= j < i ==> vec@[j] != *value,
        decreases vec@.len() - i,
    {
        if vec[i].same(value) {
            return true;
        }
        i += 1;
    }
    false
}

/// Whether no value occurs twice in `vec`.
pub fn is_distinct<T: Mark>(vec: &Vec<T>) -> (ok: bool)
    ensures
        ok == vec@.no_duplicates(),
{
    let mut i: usize = 0;
    while i < vec.len()
        invariant
            i <= vec@.len(),
            forall|a: int, b: int| 0 <= a < b < i ==> vec@[a] != vec@[b],
        decreases vec@.len() - i,
    {
        let mut j: usize = 0;
        while j < i
            invariant
                j <= i < vec@.len(),
                forall|a: int| 0 <= a < j ==> vec@[a] != vec@[i as int],
            decreases i - j,
        {
            if vec[j].same(&vec[i]) {
                return false;
            }
            j += 1;
        }
        i += 1;
    }
    assert forall|a: int, b: int| 0 <= a < vec@.len() && 0 <= b < vec@.len() && a
        != b implies vec@[a] != vec@[b] by {
        if a < b {
        } else {
            assert(vec@[b] != vec@[a]);
        }
    }
    true
}

/// Adds `value` to `vec` and leaves every value in it once, in the order in
/// which they first occurred.
pub fn distinct_vec_add<T: Mark>(vec: &mut Vec<T>, value: T)
    ensures
        final(vec)@ == added(old(vec)@, value),
        final(vec)@.no_duplicates(),
        final(vec)@.to_set() == old(vec)@.to_set().insert(value),
        final(vec)@.len() == old(vec)@.to_set().insert(value).len(),
{
    vec.push(value);
    let mut kept: Vec<T> = Vec::new();
    let mut i: usize = 0;
    while i < vec.len()
        invariant
            i <= vec@.len(),
            vec@ == old(vec)@.push(value),
            kept@ == distinct(vec@.subrange(0, i as int)),
        decreases vec@.len() - i,
    {
        assert(vec@.subrange(0, i + 1).drop_last() =~= vec@.subrange(0, i as int));
        if !holds(&kept, &vec[i]) {
            kept.push(vec[i]);
        }
        i += 1;
    }
    assert(vec@.subrange(0, i as int) =~= vec@);
    proof {
        lemma_added(old(vec)@, value);
    }
    *vec = kept;
}

/// Flips the membership of `value` in `vec`.
pub fn toggle<T: Mark>(vec: &mut Vec<T>, value: T)
    ensures
        final(vec)@ == toggled(old(vec)@, value),
{
    let mut kept: Vec<T> = Vec::new();
    let mut found = false;
    let mut i: usize = 0;
    while i < vec.len()
        invariant
            i <= vec@.len(),
            vec@ == old(vec)@,
            kept@ == without(vec@.subrange(0, i as int), value),
            found == vec@.subrange(0, i as int).contains(value),
        decreases vec@.len() - i,
    {
        proof {
            let before = vec@.subrange(0, i as int);
            lemma_without_push(before, vec@[i as int], value);
            assert(before.push(vec@[i as int]) =~= vec@.subrange(0, i + 1));
            vstd::seq_lib::lemma_seq_contains_after_push(before, vec@[i as int], value);
        }
        if vec[i].same(&value) {
            found = true;
        } else {
            kept.push(vec[i]);
        }
        i += 1;
    }
    assert(vec@.subrange(0, i as int) =~= vec@);
    if found {
        *vec = kept;
    } else {
        distinct_vec_add(vec, value);
    }
}

/// Flips the membership of `mark` in `marks`.
pub fn toggle_square(marks: &mut Vec<Square>, mark: Square)
    ensures
        final(marks)@ == toggled(old(marks)@, mark),
{
    toggle(marks, mark);
}

/// Flips the membership of `edge` in `edges`.
pub fn toggle_horizontal(edges: &mut Vec<Horizontal>, edge: Horizontal)
    ensures
        final(edges)@ == toggled(old(edges)@, edge),
{
    toggle(edges, edge);
}

} // verus!
