//! One keyboard key: identifier allocation, geometry (a base rectangle plus a
//! deformation rectangle for non-rectangular shapes), hit-testing and the
//! state query driving the render colors.

use vstd::prelude::*;

use crate::geometry::{Point, Rect, Size};
use crate::render::{DrawCmd, DrawCmdV, HAlign, PathCmd, Rgb, TextCmd, TextCmdV, VAlign, spec_text_color};

verus! {

/// One layout unit, in pixels: key sizes are expressed in units (1U, 2U, ...).
pub const UNIT: i64 = 50;

/// Half of `UNIT`: the distance from a 1U key's center to its edges.
pub const HALF_UNIT: i64 = 25;

/// Horizontal inset, in pixels, pulling left/right label anchors inward.
pub const LABEL_INSET: i64 = 5;

/// Unit-denominated quantities (sizes, deformation offsets) are confined to
/// this magnitude, so every pixel conversion stays far from the `i64` limits.
pub const MAX_UNITS: i64 = 10_000;

/// The single glyph a freshly created key carries in its center cell.
pub const DEFAULT_GLYPH: &'static str = "\u{F701}";

/// Hands out the strictly increasing key identifiers, starting at 1.
///
/// The counter is explicit state owned by the caller; `reset_key_id` puts it
/// back to 1 when the whole surface is cleared.
#[derive(Clone, Copy, Debug, PartialEq, Eq, Structural)]
pub struct KeyIdAllocator {
    pub next_id: u64,
}

impl KeyIdAllocator {
    pub open spec fn wf(self) -> bool {
        self.next_id >= 1
    }

    pub fn new() -> (a: Self)
        ensures
            a.next_id == 1,
            a.wf(),
    {
        KeyIdAllocator { next_id: 1 }
    }

    /// Returns the next identifier and advances the counter.
    pub fn fresh_id(&mut self) -> (id: u64)
        requires
            old(self).next_id < u64::MAX,
        ensures
            id == old(self).next_id,
            final(self).next_id == old(self).next_id + 1,
    {
        let id = self.next_id;
        self.next_id = self.next_id + 1;
        id
    }
}

/// Puts the identifier counter back to 1, so the next key created is key 1.
pub fn reset_key_id(ids: &mut KeyIdAllocator)
    ensures
        final(ids).next_id == 1,
        final(ids).wf(),
{
    ids.next_id = 1;
}

/// Rectangular shape that deforms a key: offset and extent are in layout
/// units, relative to the key's own top-left corner.
#[derive(Clone, Copy, Debug, PartialEq, Eq, Structural)]
pub struct Deformation {
    pub pos: Point,
    pub size: Size,
}

impl Deformation {
    /// Offset and extent stay within the unit range; the extent is positive.
    pub open spec fn in_range(self) -> bool {
        &&& -MAX_UNITS <= self.pos.x <= MAX_UNITS
        &&& -MAX_UNITS <= self.pos.y <= MAX_UNITS
        &&& 1 <= self.size.width <= MAX_UNITS
        &&& 1 <= self.size.height <= MAX_UNITS
    }

    /// The deformation's absolute top-left corner, in pixels, given the
    /// owning key's top-left corner.
    fn abs_pos(&self, top_left: &Point) -> (p: Point)
        requires
            self.in_range(),
            top_left.x + self.pos.x * UNIT <= i64::MAX,
            i64::MIN <= top_left.x + self.pos.x * UNIT,
            top_left.y + self.pos.y * UNIT <= i64::MAX,
            i64::MIN <= top_left.y + self.pos.y * UNIT,
        ensures
            p.x == top_left.x + self.pos.x * UNIT,
            p.y == top_left.y + self.pos.y * UNIT,
    {
        Point { x: top_left.x + self.pos.x * UNIT, y: top_left.y + self.pos.y * UNIT }
    }
}

impl Default for Deformation {
    /// The identity deformation: offset (0,0), extent 1x1 unit, so the
    /// deformation rectangle coincides with the base rectangle.
    fn default() -> (d: Self)
        ensures
            d.pos == (Point { x: 0, y: 0 }),
            d.size == (Size { width: 1, height: 1 }),
            d.in_range(),
    {
        Deformation { pos: Point { x: 0, y: 0 }, size: Size { width: 1, height: 1 } }
    }
}

/// What a key reports of itself for rendering, given the cursor position.
#[derive(Clone, Copy, Debug)]
pub enum KeyState {
    Selected,
    Hover,
    Idle,
}

/// One key of the layout.
///
/// `base_rect` and `deform_rect` are derived data, recomputed by
/// `update_rect` whenever position, size or deformation change; `wf` states
/// their consistency with those fields.
#[derive(Clone, Debug)]
pub struct Key {
    pub id: u64,
    /// Center position, in pixels.
    pub pos: Point,
    /// Size in layout units (1 unit = `UNIT` pixels).
    pub size: Size,
    pub deform: Deformation,
    /// Derived: the base rectangle, in pixels.
    pub base_rect: Rect,
    /// Derived: the deformation rectangle, in pixels.
    pub deform_rect: Rect,
    /// Nine label cells in row-major order:
    /// (top, center, bottom) rows by (left, center, right) columns.
    pub labels: Vec<String>,
    pub selected: bool,
}

impl Key {
    /// Bounds on the primary fields; everything pixel-valued derived from
    /// them then fits comfortably in `i64`.
    pub open spec fn fields_in_range(self) -> bool {
        &&& self.pos.in_range()
        &&& 1 <= self.size.width <= MAX_UNITS
        &&& 1 <= self.size.height <= MAX_UNITS
        &&& self.deform.in_range()
        &&& self.labels.len() == 9
    }

    /// The base rectangle is centered on `pos` with the pixel extent of
    /// `size`.
    pub open spec fn base_rect_consistent(self) -> bool {
        &&& self.base_rect.x == self.pos.x - self.size.width * HALF_UNIT
        &&& self.base_rect.y == self.pos.y - self.size.height * HALF_UNIT
        &&& self.base_rect.width == self.size.width * UNIT
        &&& self.base_rect.height == self.size.height * UNIT
    }

    /// The deformation rectangle sits at the deformation's unit offset from
    /// the base rectangle's top-left corner, with its own pixel extent.
    pub open spec fn deform_rect_consistent(self) -> bool {
        &&& self.deform_rect.x == self.base_rect.x + self.deform.pos.x * UNIT
        &&& self.deform_rect.y == self.base_rect.y + self.deform.pos.y * UNIT
        &&& self.deform_rect.width == self.deform.size.width * UNIT
        &&& self.deform_rect.height == self.deform.size.height * UNIT
    }

    pub open spec fn wf(self) -> bool {
        &&& self.fields_in_range()
        &&& self.base_rect_consistent()
        &&& self.deform_rect_consistent()
    }

    /// The key's pixel extent: its unit size scaled by `UNIT`.
    fn px_size(&self) -> (s: Size)
        requires
            self.fields_in_range(),
        ensures
            s.width == self.size.width * UNIT,
            s.height == self.size.height * UNIT,
    {
        Size { width: self.size.width * UNIT, height: self.size.height * UNIT }
    }

    /// Recomputes both derived rectangles from position, size and
    /// deformation.
    fn update_rect(&mut self)
        requires
            old(self).fields_in_range(),
        ensures
            final(self).id == old(self).id,
            final(self).pos == old(self).pos,
            final(self).size == old(self).size,
            final(self).deform == old(self).deform,
            final(self).labels == old(self).labels,
            final(self).selected == old(self).selected,
            final(self).wf(),
    {
        let px_size = self.px_size();
        let top_left = Point {
            x: self.pos.x - self.size.width * HALF_UNIT,
            y: self.pos.y - self.size.height * HALF_UNIT,
        };
        self.base_rect = Rect {
            x: top_left.x,
            y: top_left.y,
            width: px_size.width,
            height: px_size.height,
        };

        let deform_pos = self.deform.abs_pos(&top_left);
        self.deform_rect = Rect {
            x: deform_pos.x,
            y: deform_pos.y,
            width: self.deform.size.width * UNIT,
            height: self.deform.size.height * UNIT,
        };
    }

    /// A point is inside the key if either rectangle contains it.
    pub open spec fn spec_contains(self, p: Point) -> bool {
        self.base_rect.spec_contains(p) || self.deform_rect.spec_contains(p)
    }

    pub fn contains(&self, pos: Point) -> (r: bool)
        requires
            self.wf(),
        ensures
            r == self.spec_contains(pos),
    {
        self.base_rect.contains(pos) || self.deform_rect.contains(pos)
    }

    /// Selected wins over everything; otherwise a contained cursor position
    /// means Hover; otherwise None.
    pub open spec fn spec_state(self, cur_pos: Option<Point>) -> KeyState {
        if self.selected {
            KeyState::Selected
        } else {
            match cur_pos {
                Option::Some(p) => if self.spec_contains(p) {
                    KeyState::Hover
                } else {
                    KeyState::Idle
                },
                Option::None => KeyState::Idle,
            }
        }
    }

    pub fn state(&self, cur_pos: Option<Point>) -> (s: KeyState)
        requires
            self.wf(),
        ensures
            s == self.spec_state(cur_pos),
            self.selected ==> s == KeyState::Selected,
    {
        if self.selected {
            KeyState::Selected
        } else if let Some(cur_pos) = cur_pos {
            if self.contains(cur_pos) {
                KeyState::Hover
            } else {
                KeyState::Idle
            }
        } else {
            KeyState::Idle
        }
    }

    /// Creates a key centered at `pos`: next identifier, 1x1 unit size,
    /// identity deformation, the default glyph in the center label cell, not
    /// selected, both rectangles computed.
    pub fn new(ids: &mut KeyIdAllocator, pos: Point) -> (k: Key)
        requires
            pos.in_range(),
            old(ids).next_id < u64::MAX,
        ensures
            is_new_key(k, old(ids).next_id, pos),
            final(ids).next_id == old(ids).next_id + 1,
    {
        let mut labels: Vec<String> = Vec::new();
        labels.push(String::new());
        labels.push(String::new());
        labels.push(String::new());
        labels.push(String::new());
        labels.push(DEFAULT_GLYPH.to_owned());
        labels.push(String::new());
        labels.push(String::new());
        labels.push(String::new());
        labels.push(String::new());

        proof {
            assert(labels.deep_view() =~~= default_labels());
        }
        let mut k = Key {
            id: ids.fresh_id(),
            pos,
            size: Size { width: 1, height: 1 },
            deform: Deformation::default(),
            base_rect: Rect { x: 0, y: 0, width: 0, height: 0 },
            deform_rect: Rect { x: 0, y: 0, width: 0, height: 0 },
            labels,
            selected: false,
        };
        k.update_rect();
        k
    }
}

impl Key {
    /// Builds one unclosed rectangle outline: a move to the top-left corner,
    /// then four line segments ending back at the start.
    fn draw_rect(top_left: Point, px_size: Size, path_builder: &mut Vec<PathCmd>)
        requires
            0 <= px_size.width,
            0 <= px_size.height,
            top_left.x + px_size.width <= i64::MAX,
            top_left.y + px_size.height <= i64::MAX,
        ensures
            final(path_builder)@ == old(path_builder)@ + open_rect_outline(
                Rect {
                    x: top_left.x,
                    y: top_left.y,
                    width: px_size.width,
                    height: px_size.height,
                },
            ),
    {
        path_builder.push(PathCmd::MoveTo(top_left));
        path_builder.push(PathCmd::LineTo(Point { x: top_left.x + px_size.width, y: top_left.y }));
        path_builder.push(
            PathCmd::LineTo(
                Point { x: top_left.x + px_size.width, y: top_left.y + px_size.height },
            ),
        );
        path_builder.push(PathCmd::LineTo(Point { x: top_left.x, y: top_left.y + px_size.height }));
        path_builder.push(PathCmd::LineTo(top_left));
        proof {
            assert(path_builder@ =~= old(path_builder)@ + open_rect_outline(
                Rect {
                    x: top_left.x,
                    y: top_left.y,
                    width: px_size.width,
                    height: px_size.height,
                },
            ));
        }
    }

    /// Appends the key's whole outline — the base rectangle followed by the
    /// deformation rectangle — to the path being built.
    pub fn draw(&self, path_builder: &mut Vec<PathCmd>)
        requires
            self.wf(),
        ensures
            final(path_builder)@ == old(path_builder)@ + key_outline(*self),
    {
        Self::draw_rect(
            Point { x: self.base_rect.x, y: self.base_rect.y },
            Size { width: self.base_rect.width, height: self.base_rect.height },
            path_builder,
        );
        Self::draw_rect(
            Point { x: self.deform_rect.x, y: self.deform_rect.y },
            Size { width: self.deform_rect.width, height: self.deform_rect.height },
            path_builder,
        );
        proof {
            assert(path_builder@ =~= old(path_builder)@ + key_outline(*self));
        }
    }

    /// The anchor point of the label cell with the given alignments: corners
    /// and edges are offset inward horizontally by `LABEL_INSET`, while the
    /// vertical offset is the full half-height.
    fn text_pos(&self, v: VAlign, h: HAlign) -> (p: Point)
        requires
            self.fields_in_range(),
        ensures
            p == spec_text_pos(*self, v, h),
    {
        let half_h: i64 = self.size.height * HALF_UNIT;
        let half_w: i64 = self.size.width * HALF_UNIT - LABEL_INSET;
        match (h, v) {
            (HAlign::Left, VAlign::Top) => Point { x: self.pos.x - half_w, y: self.pos.y - half_h },
            (HAlign::Left, VAlign::Center) => Point { x: self.pos.x - half_w, y: self.pos.y },
            (HAlign::Left, VAlign::Bottom) => Point {
                x: self.pos.x - half_w,
                y: self.pos.y + half_h,
            },
            (HAlign::Center, VAlign::Top) => Point { x: self.pos.x, y: self.pos.y - half_h },
            (HAlign::Center, VAlign::Center) => self.pos,
            (HAlign::Center, VAlign::Bottom) => Point { x: self.pos.x, y: self.pos.y + half_h },
            (HAlign::Right, VAlign::Top) => Point {
                x: self.pos.x + half_w,
                y: self.pos.y - half_h,
            },
            (HAlign::Right, VAlign::Center) => Point { x: self.pos.x + half_w, y: self.pos.y },
            (HAlign::Right, VAlign::Bottom) => Point {
                x: self.pos.x + half_w,
                y: self.pos.y + half_h,
            },
        }
    }

    /// Appends the draw command for one label cell: nothing if the label is
    /// empty, otherwise one text command at the cell's anchor.
    fn draw_one_text(&self, text: &String, vpos: VAlign, hpos: HAlign, frame: &mut Vec<DrawCmd>)
        requires
            self.fields_in_range(),
        ensures
            final(frame).deep_view() == old(frame).deep_view() + one_text_cmds(
                *self,
                text@,
                vpos,
                hpos,
            ),
    {
        if !text.as_str().is_empty() {
            let cmd = TextCmd {
                content: text.clone(),
                position: self.text_pos(vpos, hpos),
                h: hpos,
                v: vpos,
                color: Rgb { r: 255, g: 255, b: 255 },
            };
            frame.push(DrawCmd::Text(cmd));
        }
        proof {
            assert(frame.deep_view() =~~= old(frame).deep_view() + one_text_cmds(
                *self,
                text@,
                vpos,
                hpos,
            ));
        }
    }

    /// Appends the draw commands for all nine label cells, walking the grid
    /// column by column and skipping empty labels.
    pub fn draw_text(&self, frame: &mut Vec<DrawCmd>)
        requires
            self.wf(),
        ensures
            final(frame).deep_view() == old(frame).deep_view() + label_cmds(*self),
    {
        let mut i: usize = 0;
        while i < 9
            invariant
                self.wf(),
                i <= 9,
                frame.deep_view() == old(frame).deep_view() + label_cmds_upto(*self, i as int),
            decreases 9 - i,
        {
            let row: usize = i % 3;
            let col: usize = i / 3;
            let v: VAlign = if row == 0 {
                VAlign::Top
            } else if row == 1 {
                VAlign::Center
            } else {
                VAlign::Bottom
            };
            let h: HAlign = if col == 0 {
                HAlign::Left
            } else if col == 1 {
                HAlign::Center
            } else {
                HAlign::Right
            };
            let text = &self.labels[row * 3 + col];
            self.draw_one_text(text, v, h, frame);
            proof {
                assert(frame.deep_view() =~~= old(frame).deep_view() + label_cmds_upto(
                    *self,
                    i + 1,
                ));
            }
            i += 1;
        }
    }
}

/// An unclosed rectangle outline: a move to the top-left corner, then four
/// line segments ending back at the start.
pub open spec fn open_rect_outline(r: Rect) -> Seq<PathCmd> {
    seq![
        PathCmd::MoveTo(Point { x: r.x, y: r.y }),
        PathCmd::LineTo(Point { x: (r.x + r.width) as i64, y: r.y }),
        PathCmd::LineTo(Point { x: (r.x + r.width) as i64, y: (r.y + r.height) as i64 }),
        PathCmd::LineTo(Point { x: r.x, y: (r.y + r.height) as i64 }),
        PathCmd::LineTo(Point { x: r.x, y: r.y }),
    ]
}

/// The key's outline: both rectangles, drawn into one connected path.
pub open spec fn key_outline(k: Key) -> Seq<PathCmd> {
    open_rect_outline(k.base_rect) + open_rect_outline(k.deform_rect)
}

/// The horizontal coordinate of a label anchor: left and right columns sit
/// `LABEL_INSET` pixels inside the key's half-width.
pub open spec fn text_anchor_x(k: Key, h: HAlign) -> int {
    match h {
        HAlign::Left => k.pos.x - (k.size.width * HALF_UNIT - LABEL_INSET),
        HAlign::Center => k.pos.x as int,
        HAlign::Right => k.pos.x + (k.size.width * HALF_UNIT - LABEL_INSET),
    }
}

/// The vertical coordinate of a label anchor: top and bottom rows sit at the
/// full half-height, with no inset.
pub open spec fn text_anchor_y(k: Key, v: VAlign) -> int {
    match v {
        VAlign::Top => k.pos.y - k.size.height * HALF_UNIT,
        VAlign::Center => k.pos.y as int,
        VAlign::Bottom => k.pos.y + k.size.height * HALF_UNIT,
    }
}

/// The anchor point of the label cell with the given alignments.
pub open spec fn spec_text_pos(k: Key, v: VAlign, h: HAlign) -> Point {
    Point { x: text_anchor_x(k, h) as i64, y: text_anchor_y(k, v) as i64 }
}

/// The draw commands of one label cell: none for an empty label, otherwise
/// one text command, white, anchored and aligned to its cell.
pub open spec fn one_text_cmds(k: Key, content: Seq<char>, v: VAlign, h: HAlign) -> Seq<DrawCmdV> {
    if content.len() == 0 {
        Seq::empty()
    } else {
        seq![
            DrawCmdV::Text(
                TextCmdV {
                    content,
                    position: spec_text_pos(k, v, h),
                    h,
                    v,
                    color: spec_text_color(),
                },
            ),
        ]
    }
}

/// The label cell walked at step `i` of the drawing order (column by
/// column): row `i % 3`, column `i / 3`.
pub open spec fn cell_cmds(k: Key, i: int) -> Seq<DrawCmdV> {
    one_text_cmds(
        k,
        k.labels[i % 3 * 3 + i / 3]@,
        spec_valign_of(i % 3),
        spec_halign_of(i / 3),
    )
}

/// The vertical alignment of label row `r`.
pub open spec fn spec_valign_of(r: int) -> VAlign {
    if r == 0 {
        VAlign::Top
    } else if r == 1 {
        VAlign::Center
    } else {
        VAlign::Bottom
    }
}

/// The horizontal alignment of label column `c`.
pub open spec fn spec_halign_of(c: int) -> HAlign {
    if c == 0 {
        HAlign::Left
    } else if c == 1 {
        HAlign::Center
    } else {
        HAlign::Right
    }
}

/// The draw commands of the first `n` label cells, in drawing order.
pub open spec fn label_cmds_upto(k: Key, n: int) -> Seq<DrawCmdV>
    decreases n,
{
    if n <= 0 {
        Seq::empty()
    } else {
        label_cmds_upto(k, n - 1) + cell_cmds(k, n - 1)
    }
}

/// The draw commands of all nine label cells, in drawing order.
pub open spec fn label_cmds(k: Key) -> Seq<DrawCmdV> {
    label_cmds_upto(k, 9)
}

/// The label grid of a freshly created key: all cells empty but the center
/// one, which carries the default glyph.
pub open spec fn default_labels() -> Seq<Seq<char>> {
    seq![
        Seq::empty(),
        Seq::empty(),
        Seq::empty(),
        Seq::empty(),
        DEFAULT_GLYPH@,
        Seq::empty(),
        Seq::empty(),
        Seq::empty(),
        Seq::empty(),
    ]
}

/// Exactly what `Key::new` hands back for identifier `id` and center `pos`.
pub open spec fn is_new_key(k: Key, id: u64, pos: Point) -> bool {
    &&& k.id == id
    &&& k.pos == pos
    &&& k.size == (Size { width: 1, height: 1 })
    &&& k.deform.pos == (Point { x: 0, y: 0 })
    &&& k.deform.size == (Size { width: 1, height: 1 })
    &&& k.labels.deep_view() == default_labels()
    &&& !k.selected
    &&& k.wf()
}

} // verus!
