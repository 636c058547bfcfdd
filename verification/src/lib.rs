//! Tagging the frames of a sprite sheet: every frame is an object, a
//! platform with its active edges, or ground with its active marks.
//!
//! The crate holds the model and its rules, and no window: `geom` has whole-
//! unit rectangles and strict containment, `atlas` the parsed sheet, `marker`
//! the tags and records, `saved` the shape in which they are kept on disk,
//! `ui` and `shell` the editing panel, `game` the session that pointer input
//! drives, and `paths` the file names. Whoever draws and reads files hands in
//! plain values and takes plain values back.

pub mod atlas;
pub mod game;
pub mod geom;
pub mod marker;
pub mod paths;
pub mod saved;
pub mod shell;
pub mod text;
pub mod ui;
