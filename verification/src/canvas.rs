//! Canvases and the identifiers that name them.

use vstd::prelude::*;
use crate::geometry::Rectangle;

verus! {

/// Why a layout operation did not go through.
#[derive(Debug, Clone, Copy, PartialEq, Eq, Structural)]
pub enum LayoutError {
    /// The registry already holds as many canvases as it can.
    CapacityExceeded,
    /// The registry holds no canvas under an identifier that a layout owns.
    NotFound,
    /// A rectangle that a canvas was to get covers no pixel.
    DegenerateGeometry,
    /// The display refused a query or a fill. No function of this crate
    /// returns it: it is for the caller that carries out the fill commands.
    BackendFailure,
}

/// An opaque canvas identifier: four words, compared for equality only.
#[derive(Debug, Clone, Copy, PartialEq, Eq)]
pub struct Gid {
    gid: [u32; 4],
}

impl View for Gid {
    type V = Seq<u32>;

    closed spec fn view(&self) -> Seq<u32> {
        self.gid@
    }
}

impl Gid {
    pub fn new(id: [u32; 4]) -> (g: Gid)
        ensures
            g@ == id@,
    {
        Gid { gid: id }
    }

    /// The four words of the identifier.
    pub fn gid(&self) -> (id: [u32; 4])
        ensures
            id@ == self@,
    {
        self.gid
    }

    /// Whether the two identifiers name the same canvas.
    pub fn same(&self, other: &Gid) -> (b: bool)
        ensures
            b == (self@ == other@),
    {
        let b = self.gid[0] == other.gid[0] && self.gid[1] == other.gid[1]
            && self.gid[2] == other.gid[2] && self.gid[3] == other.gid[3];
        proof {
            if b {
                assert(self@ =~= other@);
            }
        }
        b
    }

    /// An identifier always has four words.
    pub proof fn lemma_len(self)
        ensures
            self@.len() == 4,
    {
    }
}

/// What a canvas is, as a plain value.
pub struct CanvasView {
    pub gid: Seq<u32>,
    pub rect: Rectangle,
    pub clip_rect: Rectangle,
    pub trust_level: u8,
}

impl CanvasView {
    /// The same canvas with its clip rectangle moved to `clip_rect`.
    pub open spec fn with_clip(self, clip_rect: Rectangle) -> CanvasView {
        CanvasView { clip_rect, ..self }
    }

    /// The canvas as it is when it has just been made.
    pub open spec fn fresh(gid: Seq<u32>, rect: Rectangle, trust_level: u8) -> CanvasView {
        CanvasView { gid, rect, clip_rect: rect, trust_level }
    }
}

/// A region of the screen: the rectangle it was given when it was made, the
/// rectangle that drawing into it is clipped to, and how far it is trusted
/// (more is higher).
#[derive(Debug, Clone, Copy, PartialEq, Eq)]
pub struct Canvas {
    gid: Gid,
    rect: Rectangle,
    clip_rect: Rectangle,
    trust_level: u8,
}

impl View for Canvas {
    type V = CanvasView;

    closed spec fn view(&self) -> CanvasView {
        CanvasView {
            gid: self.gid@,
            rect: self.rect,
            clip_rect: self.clip_rect,
            trust_level: self.trust_level,
        }
    }
}

impl Canvas {
    /// Makes the canvas `gid` over `rect`, clipped to `rect`. A rectangle that
    /// covers no pixel is refused.
    pub fn new(gid: Gid, rect: Rectangle, trust_level: u8) -> (r: Result<Canvas, LayoutError>)
        ensures
            rect.is_proper() ==> r is Ok && r->Ok_0@ == CanvasView::fresh(gid@, rect, trust_level),
            !rect.is_proper() ==> r == Err::<Canvas, LayoutError>(LayoutError::DegenerateGeometry),
    {
        if rect.proper() {
            Ok(Canvas { gid, rect, clip_rect: rect, trust_level })
        } else {
            Err(LayoutError::DegenerateGeometry)
        }
    }

    pub fn gid(&self) -> (g: Gid)
        ensures
            g@ == self@.gid,
    {
        self.gid
    }

    pub fn rect(&self) -> (r: Rectangle)
        ensures
            r == self@.rect,
    {
        self.rect
    }

    pub fn clip_rect(&self) -> (r: Rectangle)
        ensures
            r == self@.clip_rect,
    {
        self.clip_rect
    }

    pub fn trust_level(&self) -> (t: u8)
        ensures
            t == self@.trust_level,
    {
        self.trust_level
    }

    /// Moves the clip rectangle; nothing else changes.
    pub fn set_clip(&mut self, clip_rect: Rectangle)
        ensures
            final(self)@ == old(self)@.with_clip(clip_rect),
    {
        self.clip_rect = clip_rect;
    }
}

} // verus!
