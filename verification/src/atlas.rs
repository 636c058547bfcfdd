//! The parsed atlas of a sprite sheet: named frames and the sheet's size.

use vstd::prelude::*;
use crate::geom::{Rect, Size, UvRect};

verus! {

/// One named frame of the atlas.
#[derive(Clone, Debug)]
pub struct Sprite {
    pub filename: String,
    /// Where the frame lies on the sheet.
    pub frame: Rect,
    pub rotated: bool,
    pub trimmed: bool,
    /// The size of the image the frame was cut from.
    pub source_size: Size,
}

#[derive(Clone, Debug)]
pub struct SpriteSheetMeta {
    /// The size of the whole sheet.
    pub size: Size,
}

#[derive(Clone, Debug)]
pub struct SpriteSheetInfo {
    pub frames: Vec<Sprite>,
    pub meta: SpriteSheetMeta,
}

/// A frame's place on the sheet, as fractions of the sheet's size.
#[derive(Clone, Copy, Debug, PartialEq, Eq, Structural)]
pub struct FrameInfo {
    pub segment: UvRect,
}

impl FrameInfo {
    /// The normalized rectangle of frame `i`.
    pub open spec fn of(info: &SpriteSheetInfo, i: int) -> FrameInfo {
        FrameInfo { segment: UvRect { rect: info.frames@[i].frame, sheet: info.meta.size } }
    }

    /// One normalized rectangle per frame of the atlas, in the atlas's order.
    pub fn extract_frames(info: &SpriteSheetInfo) -> (frames: Vec<FrameInfo>)
        ensures
            frames@.len() == info.frames@.len(),
            forall|i: int| 0 <= i < frames@.len() ==> frames@[i] == FrameInfo::of(info, i),
    {
        let mut frames: Vec<FrameInfo> = Vec::new();
        let mut i: usize = 0;
        while i < info.frames.len()
            invariant
                i <= info.frames@.len(),
                frames@.len() == i,
                forall|k: int| 0 <= k < i ==> frames@[k] == FrameInfo::of(info, k),
            decreases info.frames@.len() - i,
        {
            let segment = UvRect { rect: info.frames[i].frame, sheet: info.meta.size };
            frames.push(FrameInfo { segment });
            i += 1;
        }
        frames
    }
}

/// An atlas together with the normalized rectangles of its frames.
#[derive(Clone, Debug)]
pub struct SpriteSheet {
    pub info: SpriteSheetInfo,
    pub frames: Vec<FrameInfo>,
}

pub struct Loader;

impl Loader {
    /// Completes a parsed atlas with the normalized rectangles of its frames.
    pub fn load_sprite_sheet(info: SpriteSheetInfo) -> (sheet: SpriteSheet)
        ensures
            sheet.info == info,
            sheet.frames@.len() == info.frames@.len(),
            forall|i: int|
                0 <= i < sheet.frames@.len() ==> sheet.frames@[i] == FrameInfo::of(&info, i),
    {
        let frames = FrameInfo::extract_frames(&info);
        SpriteSheet { info, frames }
    }
}

} // verus!
