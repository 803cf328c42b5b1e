//! What the layouts have in common, and the closed set of them.

use vstd::prelude::*;
use crate::canvas::{Canvas, CanvasView, Gid, LayoutError};
use crate::chat::{
    chat_entries_after_init, chat_line_height, chat_plan_is_proper, ChatLayout, ChatLayoutView,
    MIN_CONTENT_HEIGHT,
};
use crate::geometry::{FillCommand, Point, Rectangle};
use crate::menu::{
    menu_initial_rect, menu_plan_is_proper, MenuLayout, MenuLayoutView, MENU_X_PAD, MENU_Y_PAD,
};
use crate::registry::{is_full, CanvasRegistry, Entries, MAX_CANVASES};

verus! {

/// What a layout needs to know of the display: the size of the screen and
/// the height of a line of text in the small and in the regular style.
#[derive(Debug, Clone, Copy, PartialEq, Eq, Structural)]
pub struct DisplayMetrics {
    pub screensize: Point,
    pub small_height: i16,
    pub regular_height: i16,
}

/// The answer to a resize: the bottom-right corner of the rectangle that
/// governs the layout after the call, and the fills that the caller has to
/// carry out, in this order.
#[derive(Debug, PartialEq, Eq)]
pub struct Resized {
    pub corner: Point,
    pub repaint: Vec<FillCommand>,
}

/// The kinds of layout.
#[derive(Debug, Clone, Copy, PartialEq, Eq, Structural)]
pub enum LayoutKind {
    Conversation,
    Menu,
}

/// The identifiers for the canvases of a new layout. A conversation uses all
/// three; a menu uses `content` for its one canvas.
#[derive(Debug, Clone, Copy)]
pub struct LayoutGids {
    pub predictive: Gid,
    pub input: Gid,
    pub content: Gid,
}

/// Why a layout of this kind cannot be made, if it cannot: a canvas would
/// cover no pixel, or else the registry has no room.
pub open spec fn create_error(
    kind: LayoutKind,
    entries: Entries,
    metrics: DisplayMetrics,
    status_clip: Rectangle,
    predictive: Seq<u32>,
    input: Seq<u32>,
    content: Seq<u32>,
    base_trust: u8,
) -> Option<LayoutError> {
    match kind {
        LayoutKind::Conversation => if !chat_plan_is_proper(metrics, status_clip) {
            Some(LayoutError::DegenerateGeometry)
        } else if chat_entries_after_init(
            entries,
            metrics,
            status_clip,
            predictive,
            input,
            content,
            base_trust,
        ).dom().len() > MAX_CANVASES {
            Some(LayoutError::CapacityExceeded)
        } else {
            None
        },
        LayoutKind::Menu => if !menu_plan_is_proper(metrics) {
            Some(LayoutError::DegenerateGeometry)
        } else if !entries.dom().contains(content) && is_full(entries) {
            Some(LayoutError::CapacityExceeded)
        } else {
            None
        },
    }
}

/// The registry after a layout of this kind has been made.
pub open spec fn created_entries(
    kind: LayoutKind,
    entries: Entries,
    metrics: DisplayMetrics,
    status_clip: Rectangle,
    predictive: Seq<u32>,
    input: Seq<u32>,
    content: Seq<u32>,
    base_trust: u8,
) -> Entries {
    match kind {
        LayoutKind::Conversation => chat_entries_after_init(
            entries,
            metrics,
            status_clip,
            predictive,
            input,
            content,
            base_trust,
        ),
        LayoutKind::Menu => entries.insert(
            content,
            CanvasView::fresh(content, menu_initial_rect(metrics), base_trust),
        ),
    }
}

/// The layout of this kind as it is when it has been made.
pub open spec fn created_layout(
    kind: LayoutKind,
    metrics: DisplayMetrics,
    predictive: Seq<u32>,
    input: Seq<u32>,
    content: Seq<u32>,
) -> LayoutView {
    match kind {
        LayoutKind::Conversation => LayoutView::Chat(
            ChatLayoutView {
                content,
                predictive,
                input,
                min_content_height: MIN_CONTENT_HEIGHT,
                min_input_height: chat_line_height(metrics) as i16,
                screensize: metrics.screensize,
                small_height: metrics.small_height,
                regular_height: metrics.regular_height,
            },
        ),
        LayoutKind::Menu => LayoutView::Menu(
            MenuLayoutView {
                menu: content,
                menu_y_pad: MENU_Y_PAD,
                menu_x_pad: MENU_X_PAD,
                menu_min_height: metrics.small_height,
                screensize: metrics.screensize,
                small_height: metrics.small_height,
            },
        ),
    }
}

/// A layout of either kind, as a plain value.
pub enum LayoutView {
    Chat(ChatLayoutView),
    Menu(MenuLayoutView),
}

impl LayoutView {
    /// Whether the registry holds every canvas of the layout.
    pub open spec fn owns_all(self, entries: Entries) -> bool {
        match self {
            LayoutView::Chat(chat) => chat.owns_all(entries),
            LayoutView::Menu(menu) => entries.dom().contains(menu.menu),
        }
    }

    /// What clearing the layout asks to have painted.
    pub open spec fn clear_commands(self, entries: Entries) -> Seq<FillCommand> {
        match self {
            LayoutView::Chat(chat) => chat.clear_commands(entries),
            LayoutView::Menu(menu) => menu.clear_commands(entries),
        }
    }

    /// The registry after a resize to `new_height`.
    pub open spec fn resized_entries(
        self,
        new_height: i16,
        status_clip: Rectangle,
        entries: Entries,
    ) -> Entries {
        match self {
            LayoutView::Chat(chat) => chat.resized_entries(new_height, status_clip, entries),
            LayoutView::Menu(menu) => menu.resized_entries(new_height, entries),
        }
    }

    /// The corner that a resize to `new_height` reports.
    pub open spec fn resized_corner(
        self,
        new_height: i16,
        status_clip: Rectangle,
        entries: Entries,
    ) -> Point {
        match self {
            LayoutView::Chat(chat) => chat.resized_corner(new_height, status_clip, entries),
            LayoutView::Menu(menu) => menu.resized_rect(new_height).br,
        }
    }

    /// What a resize to `new_height` asks to have painted.
    pub open spec fn resize_repaint(
        self,
        new_height: i16,
        status_clip: Rectangle,
        entries: Entries,
    ) -> Seq<FillCommand> {
        match self {
            LayoutView::Chat(chat) => chat.resize_repaint(new_height, status_clip, entries),
            LayoutView::Menu(menu) => menu.resize_repaint(new_height),
        }
    }

    /// The canvas for what the user types: a conversation has one, a menu
    /// has none.
    pub open spec fn input_canvas(self) -> Option<Seq<u32>> {
        match self {
            LayoutView::Chat(chat) => Some(chat.input),
            LayoutView::Menu(_) => None,
        }
    }

    /// The canvas for predictions: a conversation has one, a menu has none.
    pub open spec fn prediction_canvas(self) -> Option<Seq<u32>> {
        match self {
            LayoutView::Chat(chat) => Some(chat.predictive),
            LayoutView::Menu(_) => None,
        }
    }

    /// The canvas for content, which every layout has.
    pub open spec fn content_canvas(self) -> Seq<u32> {
        match self {
            LayoutView::Chat(chat) => chat.content,
            LayoutView::Menu(menu) => menu.menu,
        }
    }
}

/// A layout of either kind. There are these two kinds and no others.
#[derive(Debug, Clone, Copy)]
pub enum Layout {
    Chat(ChatLayout),
    Menu(MenuLayout),
}

impl View for Layout {
    type V = LayoutView;

    open spec fn view(&self) -> LayoutView {
        match *self {
            Layout::Chat(chat) => LayoutView::Chat(chat@),
            Layout::Menu(menu) => LayoutView::Menu(menu@),
        }
    }
}

impl Layout {
    /// Makes a layout of the given kind and puts its canvases into the
    /// registry. If it cannot be made, the registry stays as it was. The
    /// bottom of a menu has to be a row that a coordinate can hold.
    pub fn create(
        kind: LayoutKind,
        metrics: &DisplayMetrics,
        gids: LayoutGids,
        base_trust: u8,
        status_canvas: &Canvas,
        canvases: &mut CanvasRegistry,
    ) -> (r: Result<Layout, LayoutError>)
        requires
            kind is Menu ==> MENU_Y_PAD + metrics.small_height <= i16::MAX,
        ensures
            r is Err <==> create_error(
                kind,
                old(canvases)@,
                *metrics,
                status_canvas@.clip_rect,
                gids.predictive@,
                gids.input@,
                gids.content@,
                base_trust,
            ) is Some,
            r is Err ==> final(canvases)@ == old(canvases)@ && Some(r->Err_0) == create_error(
                kind,
                old(canvases)@,
                *metrics,
                status_canvas@.clip_rect,
                gids.predictive@,
                gids.input@,
                gids.content@,
                base_trust,
            ),
            r is Ok ==> final(canvases)@ == created_entries(
                kind,
                old(canvases)@,
                *metrics,
                status_canvas@.clip_rect,
                gids.predictive@,
                gids.input@,
                gids.content@,
                base_trust,
            ),
            r is Ok ==> r->Ok_0@ == created_layout(
                kind,
                *metrics,
                gids.predictive@,
                gids.input@,
                gids.content@,
            ),
    {
        match kind {
            LayoutKind::Conversation => {
                match ChatLayout::init(
                    metrics,
                    gids.predictive,
                    gids.input,
                    gids.content,
                    base_trust,
                    status_canvas,
                    canvases,
                ) {
                    Ok(chat) => Ok(Layout::Chat(chat)),
                    Err(e) => Err(e),
                }
            },
            LayoutKind::Menu => {
                match MenuLayout::init(metrics, gids.content, base_trust, status_canvas, canvases) {
                    Ok(menu) => Ok(Layout::Menu(menu)),
                    Err(e) => Err(e),
                }
            },
        }
    }

    /// The kind of the layout.
    pub fn kind(&self) -> (k: LayoutKind)
        ensures
            k is Conversation <==> self@ is Chat,
    {
        match self {
            Layout::Chat(_) => LayoutKind::Conversation,
            Layout::Menu(_) => LayoutKind::Menu,
        }
    }

    /// The fills that blank every canvas of the layout. The registry has to
    /// hold them all.
    pub fn clear(&self, canvases: &CanvasRegistry) -> (r: Result<Vec<FillCommand>, LayoutError>)
        ensures
            r is Ok <==> self@.owns_all(canvases@),
            r is Ok ==> r->Ok_0@ == self@.clear_commands(canvases@),
            r is Err ==> r->Err_0 == LayoutError::NotFound,
    {
        match self {
            Layout::Chat(chat) => chat.clear(canvases),
            Layout::Menu(menu) => menu.clear(canvases),
        }
    }

    /// Resizes the layout: the input pane of a conversation, the whole of a
    /// menu. The registry has to hold every canvas of the layout; if it does
    /// not, nothing changes.
    pub fn resize_height(
        &mut self,
        new_height: i16,
        status_canvas: &Canvas,
        canvases: &mut CanvasRegistry,
    ) -> (r: Result<Resized, LayoutError>)
        ensures
            final(self)@ == old(self)@,
            r is Ok <==> old(self)@.owns_all(old(canvases)@),
            r is Err ==> r->Err_0 == LayoutError::NotFound && final(canvases)@ == old(canvases)@,
            r is Ok ==> final(canvases)@ == old(self)@.resized_entries(
                new_height,
                status_canvas@.clip_rect,
                old(canvases)@,
            ),
            r is Ok ==> r->Ok_0.corner == old(self)@.resized_corner(
                new_height,
                status_canvas@.clip_rect,
                old(canvases)@,
            ),
            r is Ok ==> r->Ok_0.repaint@ == old(self)@.resize_repaint(
                new_height,
                status_canvas@.clip_rect,
                old(canvases)@,
            ),
    {
        match self {
            Layout::Chat(chat) => chat.resize_height(new_height, status_canvas, canvases),
            Layout::Menu(menu) => menu.resize_height(new_height, status_canvas, canvases),
        }
    }

    /// The canvas that takes what the user types, if the layout has one.
    pub fn get_input_canvas(&self) -> (r: Option<Gid>)
        ensures
            r is Some <==> self@.input_canvas() is Some,
            r is Some ==> r->Some_0@ == self@.input_canvas()->Some_0,
    {
        match self {
            Layout::Chat(chat) => chat.get_input_canvas(),
            Layout::Menu(menu) => menu.get_input_canvas(),
        }
    }

    /// The canvas that shows predictions, if the layout has one.
    pub fn get_prediction_canvas(&self) -> (r: Option<Gid>)
        ensures
            r is Some <==> self@.prediction_canvas() is Some,
            r is Some ==> r->Some_0@ == self@.prediction_canvas()->Some_0,
    {
        match self {
            Layout::Chat(chat) => chat.get_prediction_canvas(),
            Layout::Menu(menu) => menu.get_prediction_canvas(),
        }
    }

    /// The canvas that shows the content.
    pub fn get_content_canvas(&self) -> (g: Gid)
        ensures
            g@ == self@.content_canvas(),
    {
        match self {
            Layout::Chat(chat) => chat.get_content_canvas(),
            Layout::Menu(menu) => menu.get_content_canvas(),
        }
    }
}

} // verus!
