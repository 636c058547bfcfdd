//! The shape in which a collection is saved: every mark under its name, every
//! tag under the name of its kind. Reading such a shape back fails on any
//! name that is not one of these.

use vstd::prelude::*;
use crate::geom::{Rect, UvRect};
use crate::atlas::SpriteSheetInfo;
use crate::marker::{
    derived, records, well_kept, Horizontal, Record, SpriteData, SpriteType, Square, Tag,
};
use crate::text::same_text;

verus! {

/// A tag as it is saved: the name of its kind and the names of its marks.
#[derive(Clone, Debug, PartialEq, Eq)]
pub struct SavedTag {
    pub kind: String,
    pub marks: Vec<String>,
}

/// A record as it is saved.
#[derive(Clone, Debug, PartialEq, Eq)]
pub struct SavedRecord {
    pub on_screen_frame: UvRect,
    pub frame: Rect,
    pub markers: SavedTag,
    pub name: String,
    pub index: usize,
}

/// The value of a `SavedTag`.
pub struct TagShape {
    pub kind: Seq<char>,
    pub marks: Seq<Seq<char>>,
}

/// The value of a `SavedRecord`.
pub struct RecordShape {
    pub on_screen_frame: UvRect,
    pub frame: Rect,
    pub markers: TagShape,
    pub name: Seq<char>,
    pub index: usize,
}

/// The texts of a list of strings.
pub open spec fn texts(names: Seq<String>) -> Seq<Seq<char>> {
    Seq::new(names.len(), |i: int| names[i]@)
}

impl View for SavedTag {
    type V = TagShape;

    open spec fn view(&self) -> TagShape {
        TagShape { kind: self.kind@, marks: texts(self.marks@) }
    }
}

impl View for SavedRecord {
    type V = RecordShape;

    open spec fn view(&self) -> RecordShape {
        RecordShape {
            on_screen_frame: self.on_screen_frame,
            frame: self.frame,
            markers: self.markers@,
            name: self.name@,
            index: self.index,
        }
    }
}

/// The values of a list of saved records.
pub open spec fn shapes(saved: Seq<SavedRecord>) -> Seq<RecordShape> {
    Seq::new(saved.len(), |i: int| saved[i]@)
}

/// The name under which a square is saved.
pub open spec fn square_name(s: Square) -> &'static str {
    match s {
        Square::LT => "LT",
        Square::MT => "MT",
        Square::RT => "RT",
        Square::LM => "LM",
        Square::MM => "MM",
        Square::RM => "RM",
        Square::LB => "LB",
        Square::MB => "MB",
        Square::RB => "RB",
        Square::IBL => "IBL",
        Square::ILT => "ILT",
        Square::IBR => "IBR",
        Square::IRT => "IRT",
    }
}

/// The square that is saved under `name`, if there is one.
pub open spec fn square_named(name: Seq<char>) -> Option<Square> {
    if name == "LT"@ {
        Some(Square::LT)
    } else if name == "MT"@ {
        Some(Square::MT)
    } else if name == "RT"@ {
        Some(Square::RT)
    } else if name == "LM"@ {
        Some(Square::LM)
    } else if name == "MM"@ {
        Some(Square::MM)
    } else if name == "RM"@ {
        Some(Square::RM)
    } else if name == "LB"@ {
        Some(Square::LB)
    } else if name == "MB"@ {
        Some(Square::MB)
    } else if name == "RB"@ {
        Some(Square::RB)
    } else if name == "IBL"@ {
        Some(Square::IBL)
    } else if name == "ILT"@ {
        Some(Square::ILT)
    } else if name == "IBR"@ {
        Some(Square::IBR)
    } else if name == "IRT"@ {
        Some(Square::IRT)
    } else {
        None
    }
}

/// The name under which an edge is saved.
pub open spec fn edge_name(e: Horizontal) -> &'static str {
    match e {
        Horizontal::Left => "Left",
        Horizontal::Right => "Right",
        Horizontal::Center => "Center",
    }
}

/// The edge that is saved under `name`, if there is one.
pub open spec fn edge_named(name: Seq<char>) -> Option<Horizontal> {
    if name == "Left"@ {
        Some(Horizontal::Left)
    } else if name == "Right"@ {
        Some(Horizontal::Right)
    } else if name == "Center"@ {
        Some(Horizontal::Center)
    } else {
        None
    }
}

/// The names of a list of squares.
pub open spec fn square_names(marks: Seq<Square>) -> Seq<Seq<char>> {
    Seq::new(marks.len(), |i: int| square_name(marks[i])@)
}

/// The names of a list of edges.
pub open spec fn edge_names(edges: Seq<Horizontal>) -> Seq<Seq<char>> {
    Seq::new(edges.len(), |i: int| edge_name(edges[i])@)
}

/// The squares that `names` name, if every one of them names a square.
pub open spec fn squares_named(names: Seq<Seq<char>>) -> Option<Seq<Square>>
    decreases names.len(),
{
    if names.len() == 0 {
        Some(Seq::empty())
    } else {
        match (squares_named(names.drop_last()), square_named(names.last())) {
            (Some(front), Some(last)) => Some(front.push(last)),
            _ => None,
        }
    }
}

/// The edges that `names` name, if every one of them names an edge.
pub open spec fn edges_named(names: Seq<Seq<char>>) -> Option<Seq<Horizontal>>
    decreases names.len(),
{
    if names.len() == 0 {
        Some(Seq::empty())
    } else {
        match (edges_named(names.drop_last()), edge_named(names.last())) {
            (Some(front), Some(last)) => Some(front.push(last)),
            _ => None,
        }
    }
}

/// The shape in which a tag is saved.
pub open spec fn tag_shape(tag: Tag) -> TagShape {
    match tag {
        Tag::Object => TagShape { kind: "Object"@, marks: Seq::empty() },
        Tag::Platform { horizontal } => TagShape {
            kind: "Platform"@,
            marks: edge_names(horizontal),
        },
        Tag::Ground { square } => TagShape { kind: "Ground"@, marks: square_names(square) },
    }
}

/// The tag that a shape stands for. There is none where the kind is not
/// the name of a kind, where a mark is not the name of a mark of that kind,
/// or where an object comes with marks.
pub open spec fn tag_read(shape: TagShape) -> Option<Tag> {
    if shape.kind == "Object"@ {
        if shape.marks.len() == 0 {
            Some(Tag::Object)
        } else {
            None
        }
    } else if shape.kind == "Platform"@ {
        match edges_named(shape.marks) {
            Some(horizontal) => Some(Tag::Platform { horizontal }),
            None => None,
        }
    } else if shape.kind == "Ground"@ {
        match squares_named(shape.marks) {
            Some(square) => Some(Tag::Ground { square }),
            None => None,
        }
    } else {
        None
    }
}

/// The shape in which a record is saved.
pub open spec fn record_shape(record: Record) -> RecordShape {
    RecordShape {
        on_screen_frame: record.on_screen_frame,
        frame: record.frame,
        markers: tag_shape(record.markers),
        name: record.name,
        index: record.index,
    }
}

/// The record that a shape stands for, if its tag can be read.
pub open spec fn record_read(shape: RecordShape) -> Option<Record> {
    match tag_read(shape.markers) {
        Some(markers) => Some(
            Record {
                on_screen_frame: shape.on_screen_frame,
                frame: shape.frame,
                markers,
                name: shape.name,
                index: shape.index,
            },
        ),
        None => None,
    }
}

/// The shape in which a collection is saved: record by record.
pub open spec fn collection_shape(marked: Seq<Record>) -> Seq<RecordShape> {
    Seq::new(marked.len(), |i: int| record_shape(marked[i]))
}

/// The collection that a list of shapes stands for, if every record of it
/// can be read.
pub open spec fn collection_read(saved: Seq<RecordShape>) -> Option<Seq<Record>>
    decreases saved.len(),
{
    if saved.len() == 0 {
        Some(Seq::empty())
    } else {
        match (collection_read(saved.drop_last()), record_read(saved.last())) {
            (Some(front), Some(last)) => Some(front.push(last)),
            _ => None,
        }
    }
}

/// The name under which a square is saved.
pub fn name_of_square(s: Square) -> (name: &'static str)
    ensures
        name == square_name(s),
{
    match s {
        Square::LT => "LT",
        Square::MT => "MT",
        Square::RT => "RT",
        Square::LM => "LM",
        Square::MM => "MM",
        Square::RM => "RM",
        Square::LB => "LB",
        Square::MB => "MB",
        Square::RB => "RB",
        Square::IBL => "IBL",
        Square::ILT => "ILT",
        Square::IBR => "IBR",
        Square::IRT => "IRT",
    }
}

/// The name under which an edge is saved.
pub fn name_of_edge(e: Horizontal) -> (name: &'static str)
    ensures
        name == edge_name(e),
{
    match e {
        Horizontal::Left => "Left",
        Horizontal::Right => "Right",
        Horizontal::Center => "Center",
    }
}

/// The square that is saved under `name`.
pub fn square_by_name(name: &str) -> (s: Option<Square>)
    ensures
        s == square_named(name@),
{
    if same_text(name, "LT") {
        Some(Square::LT)
    } else if same_text(name, "MT") {
        Some(Square::MT)
    } else if same_text(name, "RT") {
        Some(Square::RT)
    } else if same_text(name, "LM") {
        Some(Square::LM)
    } else if same_text(name, "MM") {
        Some(Square::MM)
    } else if same_text(name, "RM") {
        Some(Square::RM)
    } else if same_text(name, "LB") {
        Some(Square::LB)
    } else if same_text(name, "MB") {
        Some(Square::MB)
    } else if same_text(name, "RB") {
        Some(Square::RB)
    } else if same_text(name, "IBL") {
        Some(Square::IBL)
    } else if same_text(name, "ILT") {
        Some(Square::ILT)
    } else if same_text(name, "IBR") {
        Some(Square::IBR)
    } else if same_text(name, "IRT") {
        Some(Square::IRT)
    } else {
        None
    }
}

/// The edge that is saved under `name`.
pub fn edge_by_name(name: &str) -> (e: Option<Horizontal>)
    ensures
        e == edge_named(name@),
{
    if same_text(name, "Left") {
        Some(Horizontal::Left)
    } else if same_text(name, "Right") {
        Some(Horizontal::Right)
    } else if same_text(name, "Center") {
        Some(Horizontal::Center)
    } else {
        None
    }
}

/// The shape in which a tag is saved.
pub fn encode_tag(tag: &SpriteType) -> (saved: SavedTag)
    ensures
        saved@ == tag_shape(tag@),
{
    match tag {
        SpriteType::Object => {
            let saved = SavedTag { kind: String::from_str("Object"), marks: Vec::new() };
            assert(saved@.marks =~= Seq::empty());
            saved
        },
        SpriteType::Platform { horizontal } => {
            let mut marks: Vec<String> = Vec::new();
            let mut i: usize = 0;
            while i < horizontal.len()
                invariant
                    i <= horizontal@.len(),
                    marks@.len() == i,
                    forall|j: int| 0 <= j < i ==> (#[trigger] marks@[j])@ == edge_name(horizontal@[j])@,
                decreases horizontal@.len() - i,
            {
                marks.push(String::from_str(name_of_edge(horizontal[i])));
                i += 1;
            }
            let saved = SavedTag { kind: String::from_str("Platform"), marks };
            assert(saved@.marks =~= edge_names(horizontal@));
            saved
        },
        SpriteType::Ground { square } => {
            let mut marks: Vec<String> = Vec::new();
            let mut i: usize = 0;
            while i < square.len()
                invariant
                    i <= square@.len(),
                    marks@.len() == i,
                    forall|j: int| 0 <= j < i ==> (#[trigger] marks@[j])@ == square_name(square@[j])@,
                decreases square@.len() - i,
            {
                marks.push(String::from_str(name_of_square(square[i])));
                i += 1;
            }
            let saved = SavedTag { kind: String::from_str("Ground"), marks };
            assert(saved@.marks =~= square_names(square@));
            saved
        },
    }
}

/// The squares that the names name; `None` where one of them names none.
pub fn decode_squares(names: &Vec<String>) -> (marks: Option<Vec<Square>>)
    ensures
        match marks {
            Some(m) => squares_named(texts(names@)) == Some(m@),
            None => squares_named(texts(names@)) is None,
        },
{
    let mut marks: Vec<Square> = Vec::new();
    let mut i: usize = 0;
    while i < names.len()
        invariant
            i <= names@.len(),
            squares_named(texts(names@).subrange(0, i as int)) == Some(marks@),
        decreases names@.len() - i,
    {
        proof {
            let all = texts(names@);
            assert(all.subrange(0, i + 1).drop_last() =~= all.subrange(0, i as int));
            assert(all.subrange(0, i + 1).last() == names@[i as int]@);
        }
        match square_by_name(names[i].as_str()) {
            Some(s) => {
                marks.push(s);
            },
            None => {
                proof {
                    lemma_squares_named_prefix(texts(names@), i + 1);
                }
                return None;
            },
        }
        i += 1;
    }
    assert(texts(names@).subrange(0, i as int) =~= texts(names@));
    Some(marks)
}

/// The edges that the names name; `None` where one of them names none.
pub fn decode_edges(names: &Vec<String>) -> (edges: Option<Vec<Horizontal>>)
    ensures
        match edges {
            Some(e) => edges_named(texts(names@)) == Some(e@),
            None => edges_named(texts(names@)) is None,
        },
{
    let mut edges: Vec<Horizontal> = Vec::new();
    let mut i: usize = 0;
    while i < names.len()
        invariant
            i <= names@.len(),
            edges_named(texts(names@).subrange(0, i as int)) == Some(edges@),
        decreases names@.len() - i,
    {
        proof {
            let all = texts(names@);
            assert(all.subrange(0, i + 1).drop_last() =~= all.subrange(0, i as int));
            assert(all.subrange(0, i + 1).last() == names@[i as int]@);
        }
        match edge_by_name(names[i].as_str()) {
            Some(e) => {
                edges.push(e);
            },
            None => {
                proof {
                    lemma_edges_named_prefix(texts(names@), i + 1);
                }
                return None;
            },
        }
        i += 1;
    }
    assert(texts(names@).subrange(0, i as int) =~= texts(names@));
    Some(edges)
}

/// Where a front part of the names cannot be read, the whole cannot.
pub proof fn lemma_squares_named_prefix(names: Seq<Seq<char>>, n: int)
    requires
        0 <= n <= names.len(),
        squares_named(names.subrange(0, n)) is None,
    ensures
        squares_named(names) is None,
    decreases names.len(),
{
    if n < names.len() {
        assert(names.drop_last().subrange(0, n) =~= names.subrange(0, n));
        lemma_squares_named_prefix(names.drop_last(), n);
    } else {
        assert(names.subrange(0, n) =~= names);
    }
}

/// Where a front part of the names cannot be read, the whole cannot.
pub proof fn lemma_edges_named_prefix(names: Seq<Seq<char>>, n: int)
    requires
        0 <= n <= names.len(),
        edges_named(names.subrange(0, n)) is None,
    ensures
        edges_named(names) is None,
    decreases names.len(),
{
    if n < names.len() {
        assert(names.drop_last().subrange(0, n) =~= names.subrange(0, n));
        lemma_edges_named_prefix(names.drop_last(), n);
    } else {
        assert(names.subrange(0, n) =~= names);
    }
}

/// The tag that was saved; `None` where the shape stands for no tag.
pub fn decode_tag(saved: &SavedTag) -> (tag: Option<SpriteType>)
    ensures
        match tag {
            Some(t) => tag_read(saved@) == Some(t@),
            None => tag_read(saved@) is None,
        },
{
    if same_text(saved.kind.as_str(), "Object") {
        if saved.marks.len() == 0 {
            Some(SpriteType::Object)
        } else {
            None
        }
    } else if same_text(saved.kind.as_str(), "Platform") {
        match decode_edges(&saved.marks) {
            Some(horizontal) => Some(SpriteType::Platform { horizontal }),
            None => None,
        }
    } else if same_text(saved.kind.as_str(), "Ground") {
        match decode_squares(&saved.marks) {
            Some(square) => Some(SpriteType::Ground { square }),
            None => None,
        }
    } else {
        None
    }
}

/// The shape in which a collection is saved.
pub fn encode(marked: &Vec<SpriteData>) -> (saved: Vec<SavedRecord>)
    ensures
        shapes(saved@) == collection_shape(records(marked@)),
{
    let mut saved: Vec<SavedRecord> = Vec::new();
    let mut i: usize = 0;
    while i < marked.len()
        invariant
            i <= marked@.len(),
            saved@.len() == i,
            forall|j: int| 0 <= j < i ==> (#[trigger] saved@[j])@ == record_shape(marked@[j]@),
        decreases marked@.len() - i,
    {
        let record = &marked[i];
        saved.push(
            SavedRecord {
                on_screen_frame: record.on_screen_frame,
                frame: record.frame,
                markers: encode_tag(&record.markers),
                name: record.name.clone(),
                index: record.index,
            },
        );
        i += 1;
    }
    assert(shapes(saved@) =~= collection_shape(records(marked@)));
    saved
}

/// Where a front part of the shapes cannot be read, the whole cannot.
pub proof fn lemma_collection_read_prefix(saved: Seq<RecordShape>, n: int)
    requires
        0 <= n <= saved.len(),
        collection_read(saved.subrange(0, n)) is None,
    ensures
        collection_read(saved) is None,
    decreases saved.len(),
{
    if n < saved.len() {
        assert(saved.drop_last().subrange(0, n) =~= saved.subrange(0, n));
        lemma_collection_read_prefix(saved.drop_last(), n);
    } else {
        assert(saved.subrange(0, n) =~= saved);
    }
}

/// The collection that was saved; `None` where a record of it cannot be
/// read.
pub fn decode(saved: &Vec<SavedRecord>) -> (marked: Option<Vec<SpriteData>>)
    ensures
        match marked {
            Some(m) => collection_read(shapes(saved@)) == Some(records(m@)),
            None => collection_read(shapes(saved@)) is None,
        },
{
    let mut marked: Vec<SpriteData> = Vec::new();
    let mut i: usize = 0;
    while i < saved.len()
        invariant
            i <= saved@.len(),
            marked@.len() == i,
            collection_read(shapes(saved@).subrange(0, i as int)) == Some(records(marked@)),
        decreases saved@.len() - i,
    {
        let ghost before = records(marked@);
        proof {
            let all = shapes(saved@);
            assert(all.subrange(0, i + 1).drop_last() =~= all.subrange(0, i as int));
            assert(all.subrange(0, i + 1).last() == saved@[i as int]@);
        }
        let record = &saved[i];
        match decode_tag(&record.markers) {
            Some(markers) => {
                marked.push(
                    SpriteData {
                        on_screen_frame: record.on_screen_frame,
                        frame: record.frame,
                        markers,
                        name: record.name.clone(),
                        index: record.index,
                    },
                );
                assert(records(marked@) =~= before.push(marked@[i as int]@));
            },
            None => {
                proof {
                    lemma_collection_read_prefix(shapes(saved@), i + 1);
                }
                return None;
            },
        }
        i += 1;
    }
    assert(shapes(saved@).subrange(0, i as int) =~= shapes(saved@));
    Some(marked)
}

/// Every square is read back from its name.
pub proof fn lemma_square_name_round_trip(s: Square)
    ensures
        square_named(square_name(s)@) == Some(s),
{
    reveal_strlit("LT");
    reveal_strlit("MT");
    reveal_strlit("RT");
    reveal_strlit("LM");
    reveal_strlit("MM");
    reveal_strlit("RM");
    reveal_strlit("LB");
    reveal_strlit("MB");
    reveal_strlit("RB");
    reveal_strlit("IBL");
    reveal_strlit("ILT");
    reveal_strlit("IBR");
    reveal_strlit("IRT");
    assert("LT"@.len() == 2 && "LT"@[0] == 'L' && "LT"@[1] == 'T');
    assert("MT"@.len() == 2 && "MT"@[0] == 'M' && "MT"@[1] == 'T');
    assert("RT"@.len() == 2 && "RT"@[0] == 'R' && "RT"@[1] == 'T');
    assert("LM"@.len() == 2 && "LM"@[0] == 'L' && "LM"@[1] == 'M');
    assert("MM"@.len() == 2 && "MM"@[0] == 'M' && "MM"@[1] == 'M');
    assert("RM"@.len() == 2 && "RM"@[0] == 'R' && "RM"@[1] == 'M');
    assert("LB"@.len() == 2 && "LB"@[0] == 'L' && "LB"@[1] == 'B');
    assert("MB"@.len() == 2 && "MB"@[0] == 'M' && "MB"@[1] == 'B');
    assert("RB"@.len() == 2 && "RB"@[0] == 'R' && "RB"@[1] == 'B');
    assert("IBL"@.len() == 3 && "IBL"@[1] == 'B' && "IBL"@[2] == 'L');
    assert("ILT"@.len() == 3 && "ILT"@[1] == 'L' && "ILT"@[2] == 'T');
    assert("IBR"@.len() == 3 && "IBR"@[1] == 'B' && "IBR"@[2] == 'R');
    assert("IRT"@.len() == 3 && "IRT"@[1] == 'R' && "IRT"@[2] == 'T');
}

/// Every edge is read back from its name.
pub proof fn lemma_edge_name_round_trip(e: Horizontal)
    ensures
        edge_named(edge_name(e)@) == Some(e),
{
    reveal_strlit("Left");
    reveal_strlit("Right");
    reveal_strlit("Center");
    assert("Left"@.len() == 4);
    assert("Right"@.len() == 5);
    assert("Center"@.len() == 6);
}

/// A list of squares is read back from its names.
pub proof fn lemma_square_names_round_trip(marks: Seq<Square>)
    ensures
        squares_named(square_names(marks)) == Some(marks),
    decreases marks.len(),
{
    if marks.len() > 0 {
        lemma_square_names_round_trip(marks.drop_last());
        lemma_square_name_round_trip(marks.last());
        assert(square_names(marks).drop_last() =~= square_names(marks.drop_last()));
        assert(marks.drop_last().push(marks.last()) =~= marks);
    } else {
        assert(marks =~= Seq::empty());
    }
}

/// A list of edges is read back from its names.
pub proof fn lemma_edge_names_round_trip(edges: Seq<Horizontal>)
    ensures
        edges_named(edge_names(edges)) == Some(edges),
    decreases edges.len(),
{
    if edges.len() > 0 {
        lemma_edge_names_round_trip(edges.drop_last());
        lemma_edge_name_round_trip(edges.last());
        assert(edge_names(edges).drop_last() =~= edge_names(edges.drop_last()));
        assert(edges.drop_last().push(edges.last()) =~= edges);
    } else {
        assert(edges =~= Seq::empty());
    }
}

/// A tag is read back from the shape in which it is saved.
pub proof fn lemma_tag_round_trip(tag: Tag)
    ensures
        tag_read(tag_shape(tag)) == Some(tag),
{
    reveal_strlit("Object");
    reveal_strlit("Platform");
    reveal_strlit("Ground");
    assert("Object"@.len() == 6 && "Object"@[0] == 'O');
    assert("Platform"@.len() == 8);
    assert("Ground"@.len() == 6 && "Ground"@[0] == 'G');
    match tag {
        Tag::Object => {},
        Tag::Platform { horizontal } => {
            lemma_edge_names_round_trip(horizontal);
        },
        Tag::Ground { square } => {
            lemma_square_names_round_trip(square);
        },
    }
}

/// What is read back from a saved collection is the collection: every
/// record with its tag, index, name and both rectangles.
pub proof fn lemma_round_trip(marked: Seq<Record>)
    ensures
        collection_read(collection_shape(marked)) == Some(marked),
    decreases marked.len(),
{
    if marked.len() > 0 {
        lemma_round_trip(marked.drop_last());
        lemma_tag_round_trip(marked.last().markers);
        assert(collection_shape(marked).drop_last() =~= collection_shape(marked.drop_last()));
        assert(marked.drop_last().push(marked.last()) =~= marked);
    } else {
        assert(marked =~= Seq::empty());
    }
}

/// The collection to edit, given what was found of an earlier save: the
/// collection that the save stands for, where it can be read and is well
/// kept; else the fresh collection of the atlas.
pub open spec fn loaded_or_derived(loaded: Option<Seq<RecordShape>>, info: &SpriteSheetInfo) -> Seq<
    Record,
> {
    match loaded {
        Some(saved) => match collection_read(saved) {
            Some(marked) => if well_kept(marked) {
                marked
            } else {
                derived(info)
            },
            None => derived(info),
        },
        None => derived(info),
    }
}

/// The values of what was found of an earlier save.
pub open spec fn found(loaded: Option<Vec<SavedRecord>>) -> Option<Seq<RecordShape>> {
    match loaded {
        Some(saved) => Some(shapes(saved@)),
        None => None,
    }
}

/// The collection to edit: the one read from an earlier save where there is
/// one, it can be read, its records are in order and none of them holds a
/// mark twice; else the fresh collection of the atlas. Either way the
/// collection is well kept.
pub fn load_or_derive(loaded: Option<Vec<SavedRecord>>, info: &SpriteSheetInfo) -> (marked: Vec<
    SpriteData,
>)
    ensures
        records(marked@) == loaded_or_derived(found(loaded), info),
        well_kept(records(marked@)),
{
    match &loaded {
        Some(saved) => match decode(saved) {
            Some(marked) => {
                if SpriteData::is_well_kept(&marked) {
                    marked
                } else {
                    SpriteData::create(info)
                }
            },
            None => SpriteData::create(info),
        },
        None => SpriteData::create(info),
    }
}

/// Loading what was saved of a well-kept collection gives that collection
/// back, whatever the atlas.
pub proof fn lemma_load_after_save(marked: Seq<Record>, info: &SpriteSheetInfo)
    requires
        well_kept(marked),
    ensures
        loaded_or_derived(Some(collection_shape(marked)), info) == marked,
{
    lemma_round_trip(marked);
}

/// Loading where no save was found gives the fresh collection of the atlas.
pub proof fn lemma_load_without_save(info: &SpriteSheetInfo)
    ensures
        loaded_or_derived(None, info) == derived(info),
{
}

} // verus!
