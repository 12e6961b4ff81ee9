//! The drawing model: a frame is rendered as a list of plain draw commands
//! (path outlines, strokes, fills, text), which a host toolkit replays
//! verbatim onto its canvas.

use vstd::prelude::*;

use crate::geometry::{Point, Size};

verus! {

/// Stroke width, in pixels, of key outlines and of the frame border.
pub const STROKE_WIDTH: i64 = 2;

/// An RGB color, 8 bits per channel.
#[derive(Clone, Copy, Debug, PartialEq, Eq, Structural)]
pub struct Rgb {
    pub r: u8,
    pub g: u8,
    pub b: u8,
}

/// Horizontal alignment of a text label against its anchor point.
#[derive(Clone, Copy, Debug, PartialEq, Eq, Structural)]
pub enum HAlign {
    Left,
    Center,
    Right,
}

/// Vertical alignment of a text label against its anchor point.
#[derive(Clone, Copy, Debug, PartialEq, Eq, Structural)]
pub enum VAlign {
    Top,
    Center,
    Bottom,
}

/// One step of a path outline.
#[derive(Clone, Copy, Debug, PartialEq, Eq, Structural)]
pub enum PathCmd {
    MoveTo(Point),
    LineTo(Point),
    Close,
}

/// How the interior of a filled path is determined.
#[derive(Clone, Copy, Debug, PartialEq, Eq, Structural)]
pub enum FillRule {
    NonZero,
    EvenOdd,
}

/// One text label to draw: content, anchor point and the alignments that
/// make the text hug its grid cell.
#[derive(Clone, Debug)]
pub struct TextCmd {
    pub content: String,
    pub position: Point,
    pub h: HAlign,
    pub v: VAlign,
    pub color: Rgb,
}

/// Mathematical image of a `TextCmd`: the content as a character sequence.
#[verifier::ext_equal]
pub struct TextCmdV {
    pub content: Seq<char>,
    pub position: Point,
    pub h: HAlign,
    pub v: VAlign,
    pub color: Rgb,
}

impl DeepView for TextCmd {
    type V = TextCmdV;

    open spec fn deep_view(&self) -> TextCmdV {
        TextCmdV {
            content: self.content@,
            position: self.position,
            h: self.h,
            v: self.v,
            color: self.color,
        }
    }
}

/// One drawing operation of a frame.
#[derive(Clone, Debug)]
pub enum DrawCmd {
    /// Stroke the outline described by `path`.
    Stroke { path: Vec<PathCmd>, color: Rgb, width: i64 },
    /// Fill the interior of the outline described by `path`.
    Fill { path: Vec<PathCmd>, color: Rgb, rule: FillRule },
    /// Draw one text label.
    Text(TextCmd),
}

/// Mathematical image of a `DrawCmd`: paths as sequences.
#[verifier::ext_equal]
pub enum DrawCmdV {
    Stroke { path: Seq<PathCmd>, color: Rgb, width: i64 },
    Fill { path: Seq<PathCmd>, color: Rgb, rule: FillRule },
    Text(TextCmdV),
}

impl DeepView for DrawCmd {
    type V = DrawCmdV;

    open spec fn deep_view(&self) -> DrawCmdV {
        match self {
            DrawCmd::Stroke { path, color, width } => DrawCmdV::Stroke {
                path: path@,
                color: *color,
                width: *width,
            },
            DrawCmd::Fill { path, color, rule } => DrawCmdV::Fill {
                path: path@,
                color: *color,
                rule: *rule,
            },
            DrawCmd::Text(t) => DrawCmdV::Text(t.deep_view()),
        }
    }
}

/// The color every key interior is filled with.
pub open spec fn spec_fill_color() -> Rgb {
    Rgb { r: 111, g: 111, b: 186 }
}

/// The color label text is drawn in.
pub open spec fn spec_text_color() -> Rgb {
    Rgb { r: 255, g: 255, b: 255 }
}

/// The default stroke color (black).
pub open spec fn spec_default_stroke_color() -> Rgb {
    Rgb { r: 0, g: 0, b: 0 }
}

/// The closed rectangle outline a toolkit's path builder produces for a
/// whole-frame border: three sides drawn, the fourth closed.
pub open spec fn closed_rect_path(size: Size) -> Seq<PathCmd> {
    seq![
        PathCmd::MoveTo(Point { x: 0, y: 0 }),
        PathCmd::LineTo(Point { x: size.width, y: 0 }),
        PathCmd::LineTo(Point { x: size.width, y: size.height }),
        PathCmd::LineTo(Point { x: 0, y: size.height }),
        PathCmd::Close,
    ]
}

} // verus!
