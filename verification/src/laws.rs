//! The library-wide laws, stated over the same spec functions the
//! executable contracts use and proved by Verus.

use vstd::prelude::*;

use crate::geometry::Point;
use crate::key::{
    cell_cmds, is_new_key, spec_halign_of, spec_text_pos, spec_valign_of, Key, KeyState,
};
use crate::render::{DrawCmdV, TextCmdV, spec_text_color};

verus! {

/// One click of the primary button at relative position `pos`: the freshly
/// created key `k` takes the counter's identifier and is appended; the
/// counter advances by one. This is exactly what `KLayout::update` followed
/// by `Kibodo::update` do for such a click.
pub open spec fn surface_click(
    keys0: Seq<Key>,
    next0: u64,
    pos: Point,
    k: Key,
    keys1: Seq<Key>,
    next1: u64,
) -> bool {
    &&& is_new_key(k, next0, pos)
    &&& keys1 == keys0.push(k)
    &&& next1 == next0 + 1
}

/// The surface holds exactly the keys clicked so far, in click order, the
/// i-th carrying identifier i + 1 and centered at the i-th click position;
/// the counter stands one past the last identifier handed out.
pub open spec fn numbered_from_one(keys: Seq<Key>, positions: Seq<Point>, next: u64) -> bool {
    &&& keys.len() == positions.len()
    &&& next == keys.len() + 1
    &&& forall|i: int|
        0 <= i < keys.len() ==> (#[trigger] keys[i]).id == i + 1 && keys[i].pos == positions[i]
}

/// A fresh (or freshly cleared) surface is numbered from one, vacuously.
pub proof fn lemma_fresh_numbered()
    ensures
        numbered_from_one(Seq::empty(), Seq::empty(), 1),
{
}

/// One primary-button click preserves the numbering: after any sequence of
/// clicks from a fresh surface, the surface holds exactly one key per click,
/// in click order, with strictly increasing identifiers starting at 1.
pub proof fn lemma_click_preserves_numbering(
    keys0: Seq<Key>,
    positions: Seq<Point>,
    next0: u64,
    pos: Point,
    k: Key,
    keys1: Seq<Key>,
    next1: u64,
)
    requires
        numbered_from_one(keys0, positions, next0),
        surface_click(keys0, next0, pos, k, keys1, next1),
    ensures
        numbered_from_one(keys1, positions.push(pos), next1),
{
}

/// After a clear (zero keys, counter back at 1), the very next key created
/// carries identifier 1 again and sits where it was clicked.
pub proof fn lemma_clear_then_click(pos: Point, k: Key, keys1: Seq<Key>, next1: u64)
    requires
        surface_click(Seq::empty(), 1, pos, k, keys1, next1),
    ensures
        keys1.len() == 1,
        keys1[0].id == 1,
        keys1[0].pos == pos,
        next1 == 2,
{
}

/// A default-size key contains its own center, and no point 26 pixels or
/// more outside any of its edges.
pub proof fn lemma_default_key_containment(k: Key, id: u64, c: Point)
    requires
        is_new_key(k, id, c),
    ensures
        k.spec_contains(c),
        forall|p: Point|
            (p.x <= c.x - 51 || p.x >= c.x + 51 || p.y <= c.y - 51 || p.y >= c.y + 51)
                ==> !k.spec_contains(p),
{
}

/// A selected key reports Selected whatever the cursor does: far away,
/// inside, or absent.
pub proof fn lemma_selected_precedence(k: Key, cur_pos: Option<Point>)
    requires
        k.selected,
    ensures
        k.spec_state(cur_pos) == KeyState::Selected,
{
}

/// An empty label cell draws nothing; a non-empty one draws exactly one
/// white text command, anchored at its cell's anchor point — left and right
/// columns inset horizontally — with the cell's alignments.
pub proof fn lemma_label_cell_draws(k: Key, i: int)
    requires
        k.wf(),
        0 <= i < 9,
    ensures
        k.labels[i % 3 * 3 + i / 3]@.len() == 0 ==> cell_cmds(k, i) == Seq::<DrawCmdV>::empty(),
        k.labels[i % 3 * 3 + i / 3]@.len() > 0 ==> cell_cmds(k, i) == seq![
            DrawCmdV::Text(
                TextCmdV {
                    content: k.labels[i % 3 * 3 + i / 3]@,
                    position: spec_text_pos(k, spec_valign_of(i % 3), spec_halign_of(i / 3)),
                    h: spec_halign_of(i / 3),
                    v: spec_valign_of(i % 3),
                    color: spec_text_color(),
                },
            ),
        ],
{
}

} // verus!
