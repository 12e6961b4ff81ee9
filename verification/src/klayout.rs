//! The layout surface: an insertion-ordered collection of keys, the event
//! logic that turns pointer input into messages, and the frame renderer.

use vstd::prelude::*;

use crate::geometry::{Point, Rect, Size, MAX_COORD};
use crate::key::{
    is_new_key, key_outline, label_cmds, Key, KeyIdAllocator, KeyState,
};
use crate::render::{
    closed_rect_path, spec_default_stroke_color, spec_fill_color, DrawCmd, DrawCmdV, FillRule,
    PathCmd, Rgb, STROKE_WIDTH,
};
use crate::Message;

verus! {

/// Whether the surface captured an input event or let it pass.
#[derive(Clone, Copy, Debug, PartialEq, Eq, Structural)]
pub enum Status {
    Ignored,
    Captured,
}

/// A pointer button.
#[derive(Clone, Copy, Debug, PartialEq, Eq, Structural)]
pub enum MouseButton {
    Left,
    Right,
    Middle,
    Other,
}

/// A pointer event. `CursorMoved` carries the cursor's absolute position.
#[derive(Clone, Copy, Debug, PartialEq, Eq, Structural)]
pub enum MouseEvent {
    ButtonPressed(MouseButton),
    CursorMoved { position: Point },
    Other,
}

/// An input event reaching the surface.
#[derive(Clone, Copy, Debug, PartialEq, Eq, Structural)]
pub enum Event {
    Mouse(MouseEvent),
    Other,
}

/// The cursor's position relative to `bounds`, if it lies within them.
pub open spec fn spec_position_in(cursor: Option<Point>, bounds: Rect) -> Option<Point> {
    match cursor {
        Option::Some(p) => if bounds.spec_contains(p) {
            Option::Some(Point { x: (p.x - bounds.x) as i64, y: (p.y - bounds.y) as i64 })
        } else {
            Option::None
        },
        Option::None => Option::None,
    }
}

/// `bounds` is a rectangle the surface can sensibly occupy.
pub open spec fn bounds_in_range(bounds: Rect) -> bool {
    &&& -MAX_COORD <= bounds.x <= MAX_COORD
    &&& -MAX_COORD <= bounds.y <= MAX_COORD
    &&& 0 <= bounds.width <= MAX_COORD
    &&& 0 <= bounds.height <= MAX_COORD
}

/// Computes the cursor position relative to `bounds`, or nothing when the
/// cursor is absent or outside them.
pub fn position_in(cursor: Option<Point>, bounds: Rect) -> (r: Option<Point>)
    requires
        bounds_in_range(bounds),
        cursor matches Some(p) ==> p.in_range(),
    ensures
        r == spec_position_in(cursor, bounds),
{
    match cursor {
        Some(p) => {
            if bounds.contains(p) {
                Some(Point { x: p.x - bounds.x, y: p.y - bounds.y })
            } else {
                None
            }
        },
        None => None,
    }
}

/// The layout surface: the keys in insertion order, plus the validity flag
/// of the host's render cache (false once a redraw has been requested).
#[derive(Clone, Debug)]
pub struct KLayout {
    pub cache_valid: bool,
    pub keys: Vec<Key>,
}

impl Default for KLayout {
    /// An empty surface whose cache still has to be drawn once.
    fn default() -> (l: Self)
        ensures
            l.keys@ == Seq::<Key>::empty(),
            !l.cache_valid,
            l.wf(),
    {
        KLayout { cache_valid: false, keys: Vec::new() }
    }
}

impl KLayout {
    /// Every key on the surface is internally consistent.
    pub open spec fn wf(self) -> bool {
        forall|i: int| 0 <= i < self.keys@.len() ==> (#[trigger] self.keys@[i]).wf()
    }

    /// Removes every key. The render cache is left alone; invalidating it is
    /// a separate, caller-driven step (`request_redraw`).
    pub fn clear(&mut self)
        ensures
            final(self).keys@ == Seq::<Key>::empty(),
            final(self).cache_valid == old(self).cache_valid,
            final(self).wf(),
    {
        self.keys.clear();
    }

    /// Appends a key at the end of the collection.
    pub fn add_key(&mut self, key: Key)
        requires
            key.wf(),
            old(self).wf(),
        ensures
            final(self).keys@ == old(self).keys@.push(key),
            final(self).cache_valid == old(self).cache_valid,
            final(self).wf(),
    {
        self.keys.push(key);
    }

    /// Invalidates the render cache, so the next frame is recomputed.
    pub fn request_redraw(&mut self)
        ensures
            final(self).keys@ == old(self).keys@,
            !final(self).cache_valid,
            old(self).wf() ==> final(self).wf(),
    {
        self.cache_valid = false;
    }

    /// Turns one input event into the surface's reaction: a capture status
    /// and possibly a message for the owning application.
    ///
    /// A cursor outside the bounds (or absent) makes every event ignored. A
    /// primary-button press asks for a key at the cursor's relative
    /// position; a cursor move asks for a redraw with the absolute position;
    /// any other pointer event is captured silently; anything else is
    /// ignored.
    pub fn update(&self, ids: &mut KeyIdAllocator, event: Event, bounds: Rect, cursor: Option<
        Point,
    >) -> (r: (Status, Option<Message>))
        requires
            old(ids).next_id < u64::MAX,
            bounds_in_range(bounds),
            cursor matches Some(p) ==> p.in_range(),
        ensures
            spec_position_in(cursor, bounds) is None ==> r.0 == Status::Ignored && r.1 is None
                && *final(ids) == *old(ids),
            spec_position_in(cursor, bounds) matches Some(cur) ==> match event {
                Event::Mouse(m) => r.0 == Status::Captured && match m {
                    MouseEvent::ButtonPressed(MouseButton::Left) => {
                        &&& r.1 matches Some(Message::AddKey(k)) && is_new_key(
                            k,
                            old(ids).next_id,
                            cur,
                        )
                        &&& final(ids).next_id == old(ids).next_id + 1
                    },
                    MouseEvent::CursorMoved { position } => r.1 == Some(Message::Redraw(position))
                        && *final(ids) == *old(ids),
                    _ => r.1 is None && *final(ids) == *old(ids),
                },
                Event::Other => r.0 == Status::Ignored && r.1 is None && *final(ids) == *old(ids),
            },
    {
        let cur_pos = match position_in(cursor, bounds) {
            Some(p) => p,
            None => {
                return (Status::Ignored, None);
            },
        };

        match event {
            Event::Mouse(m_evt) => {
                let msg = match m_evt {
                    MouseEvent::ButtonPressed(MouseButton::Left) => Some(
                        Message::AddKey(Key::new(ids, cur_pos)),
                    ),
                    MouseEvent::CursorMoved { position } => Some(Message::Redraw(position)),
                    _ => None,
                };
                (Status::Captured, msg)
            },
            Event::Other => (Status::Ignored, None),
        }
    }

    /// Appends the draw commands of every key, in insertion order: outline
    /// stroke colored by state, interior fill, then the labels.
    pub fn draw_all(&self, frame: &mut Vec<DrawCmd>, cursor_pos: Option<Point>)
        requires
            self.wf(),
        ensures
            final(frame).deep_view() == old(frame).deep_view() + layout_cmds(
                self.keys@,
                cursor_pos,
            ),
    {
        let mut idx: usize = 0;
        while idx < self.keys.len()
            invariant
                self.wf(),
                idx <= self.keys@.len(),
                frame.deep_view() == old(frame).deep_view() + keys_cmds_upto(
                    self.keys@,
                    cursor_pos,
                    idx as int,
                ),
            decreases self.keys@.len() - idx,
        {
            let ghost dv0 = frame.deep_view();
            let key = &self.keys[idx];

            let mut path: Vec<PathCmd> = Vec::new();
            key.draw(&mut path);
            proof {
                assert(path@ =~= key_outline(*key));
            }

            let color: Rgb = match key.state(cursor_pos) {
                KeyState::Selected => Rgb { r: 255, g: 0, b: 0 },
                KeyState::Hover => Rgb { r: 0, g: 255, b: 0 },
                KeyState::Idle => Rgb { r: 0, g: 0, b: 0 },
            };
            frame.push(DrawCmd::Stroke { path, color, width: STROKE_WIDTH });
            proof {
                assert(frame.deep_view() =~~= dv0.push(
                    DrawCmdV::Stroke {
                        path: key_outline(*key),
                        color: spec_stroke_color(key.spec_state(cursor_pos)),
                        width: STROKE_WIDTH,
                    },
                ));
            }

            let mut fill_path: Vec<PathCmd> = Vec::new();
            key.draw(&mut fill_path);
            proof {
                assert(fill_path@ =~= key_outline(*key));
            }
            frame.push(
                DrawCmd::Fill {
                    path: fill_path,
                    color: Rgb { r: 111, g: 111, b: 186 },
                    rule: FillRule::NonZero,
                },
            );
            proof {
                assert(frame.deep_view() =~~= dv0 + seq![
                    DrawCmdV::Stroke {
                        path: key_outline(*key),
                        color: spec_stroke_color(key.spec_state(cursor_pos)),
                        width: STROKE_WIDTH,
                    },
                    DrawCmdV::Fill {
                        path: key_outline(*key),
                        color: spec_fill_color(),
                        rule: FillRule::NonZero,
                    },
                ]);
            }

            key.draw_text(frame);
            proof {
                assert(frame.deep_view() =~~= dv0 + key_cmds(self.keys@[idx as int], cursor_pos));
                assert(frame.deep_view() =~~= old(frame).deep_view() + keys_cmds_upto(
                    self.keys@,
                    cursor_pos,
                    idx + 1,
                ));
            }
            idx += 1;
        }
    }

    /// Renders one whole frame: every key, then a border stroked around the
    /// drawable area. This is the content the host memoizes in its render
    /// cache until a redraw is requested.
    pub fn draw(&self, frame_size: Size, cursor_pos: Option<Point>) -> (frame: Vec<DrawCmd>)
        requires
            self.wf(),
            0 <= frame_size.width <= MAX_COORD,
            0 <= frame_size.height <= MAX_COORD,
        ensures
            frame.deep_view() == frame_cmds(self.keys@, frame_size, cursor_pos),
    {
        let mut frame: Vec<DrawCmd> = Vec::new();
        self.draw_all(&mut frame, cursor_pos);

        let mut border: Vec<PathCmd> = Vec::new();
        border.push(PathCmd::MoveTo(Point { x: 0, y: 0 }));
        border.push(PathCmd::LineTo(Point { x: frame_size.width, y: 0 }));
        border.push(PathCmd::LineTo(Point { x: frame_size.width, y: frame_size.height }));
        border.push(PathCmd::LineTo(Point { x: 0, y: frame_size.height }));
        border.push(PathCmd::Close);
        proof {
            assert(border@ =~= closed_rect_path(frame_size));
        }
        frame.push(
            DrawCmd::Stroke {
                path: border,
                color: Rgb { r: 0, g: 0, b: 0 },
                width: STROKE_WIDTH,
            },
        );
        proof {
            assert(frame.deep_view() =~~= frame_cmds(self.keys@, frame_size, cursor_pos));
        }
        frame
    }
}

/// The stroke color a key's outline gets for each state: red when selected,
/// green when hovered, the default black otherwise.
pub open spec fn spec_stroke_color(s: KeyState) -> Rgb {
    match s {
        KeyState::Selected => Rgb { r: 255, g: 0, b: 0 },
        KeyState::Hover => Rgb { r: 0, g: 255, b: 0 },
        KeyState::Idle => spec_default_stroke_color(),
    }
}

/// The draw commands of one key: its outline stroked in the state's color,
/// its interior filled, then its labels.
pub open spec fn key_cmds(k: Key, cursor_pos: Option<Point>) -> Seq<DrawCmdV> {
    seq![
        DrawCmdV::Stroke {
            path: key_outline(k),
            color: spec_stroke_color(k.spec_state(cursor_pos)),
            width: STROKE_WIDTH,
        },
        DrawCmdV::Fill { path: key_outline(k), color: spec_fill_color(), rule: FillRule::NonZero },
    ] + label_cmds(k)
}

/// The draw commands of the first `n` keys, in insertion order.
pub open spec fn keys_cmds_upto(keys: Seq<Key>, cursor_pos: Option<Point>, n: int) -> Seq<DrawCmdV>
    decreases n,
{
    if n <= 0 {
        Seq::empty()
    } else {
        keys_cmds_upto(keys, cursor_pos, n - 1) + key_cmds(keys[n - 1], cursor_pos)
    }
}

/// The draw commands of all keys, in insertion order: later keys draw on top
/// of earlier ones.
pub open spec fn layout_cmds(keys: Seq<Key>, cursor_pos: Option<Point>) -> Seq<DrawCmdV> {
    keys_cmds_upto(keys, cursor_pos, keys.len() as int)
}

/// One whole frame: every key's commands, then the border around the
/// drawable area, stroked in the default color.
pub open spec fn frame_cmds(keys: Seq<Key>, frame_size: Size, cursor_pos: Option<Point>) -> Seq<
    DrawCmdV,
> {
    layout_cmds(keys, cursor_pos) + seq![
        DrawCmdV::Stroke {
            path: closed_rect_path(frame_size),
            color: spec_default_stroke_color(),
            width: STROKE_WIDTH,
        },
    ]
}

} // verus!
