//! A keyboard-layout designer core: keys are placed on a surface by pointer
//! clicks, each rendered as a pair of overlapping rectangles with up to nine
//! text labels, and hit-tested against the cursor for hover highlighting.
//!
//! The library holds the whole model: geometry, hit-testing, identifier
//! allocation, event handling and frame rendering as plain draw commands. A
//! host shell owns the window, feeds events in and replays the draw commands
//! onto its canvas.

pub mod geometry;
pub mod key;
pub mod klayout;
pub mod laws;
pub mod render;

use vstd::prelude::*;

use crate::geometry::Point;
use crate::key::{reset_key_id, Key, KeyIdAllocator};
use crate::klayout::KLayout;

verus! {

/// What the surface asks the owning application to do.
#[derive(Clone, Debug)]
pub enum Message {
    /// Append this freshly created key to the surface.
    AddKey(Key),
    /// Re-render; carries the cursor's absolute position.
    Redraw(Point),
    /// Remove every key and reset the identifier counter.
    Clear,
}

/// The application model: the one layout surface.
#[derive(Clone, Debug)]
pub struct Kibodo {
    pub layout: KLayout,
}

impl Default for Kibodo {
    /// Same as `Kibodo::new`: an empty surface.
    fn default() -> (r: Self)
        ensures
            r.layout.keys@ == Seq::<Key>::empty(),
            !r.layout.cache_valid,
            r.wf(),
    {
        Kibodo { layout: KLayout::default() }
    }
}

impl Kibodo {
    pub open spec fn wf(self) -> bool {
        self.layout.wf()
    }

    /// A fresh application: an empty surface.
    pub fn new() -> (r: Self)
        ensures
            r.layout.keys@ == Seq::<Key>::empty(),
            !r.layout.cache_valid,
            r.wf(),
    {
        Kibodo { layout: KLayout::default() }
    }

    /// The window title.
    pub fn title(&self) -> (t: String)
        ensures
            t@ == "Kibodo"@,
    {
        "Kibodo".to_owned()
    }

    /// Applies one message to the model: append a key, clear the surface and
    /// reset the identifier counter, or nothing for a bare redraw request.
    /// Every message invalidates the render cache.
    pub fn update(&mut self, ids: &mut KeyIdAllocator, message: Message)
        requires
            old(self).wf(),
            message matches Message::AddKey(k) ==> k.wf(),
        ensures
            message matches Message::AddKey(key) ==> final(self).layout.keys@ == old(
                self,
            ).layout.keys@.push(key) && *final(ids) == *old(ids),
            message matches Message::Redraw(p) ==> final(self).layout.keys@ == old(
                self,
            ).layout.keys@ && *final(ids) == *old(ids),
            message matches Message::Clear ==> final(self).layout.keys@ == Seq::<Key>::empty()
                && final(ids).next_id == 1,
            !final(self).layout.cache_valid,
            final(self).wf(),
    {
        match message {
            Message::AddKey(key) => {
                self.layout.add_key(key);
            },
            Message::Redraw(_pos) => (),
            Message::Clear => {
                self.layout.clear();
                reset_key_id(ids);
            },
        }
        self.layout.request_redraw();
    }
}

} // verus!
