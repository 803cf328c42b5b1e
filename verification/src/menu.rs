//! The menu layout: one canvas, a fixed distance from the top and from both
//! sides of the screen, as high as its entries need.

use vstd::prelude::*;
use crate::canvas::{Canvas, CanvasView, Gid, LayoutError};
use crate::geometry::{FillCommand, PixelColor, Point, Rectangle};
use crate::layout::{DisplayMetrics, Resized};
use crate::registry::{is_full, CanvasRegistry, Entries};

verus! {

/// The distance of the menu from the top of the screen.
pub const MENU_Y_PAD: i16 = 100;

/// The distance of the menu from the left and from the right of the screen.
pub const MENU_X_PAD: i16 = 35;

/// Whether the menu gets at least one pixel when it is made.
pub open spec fn menu_plan_is_proper(metrics: DisplayMetrics) -> bool {
    metrics.screensize.x - MENU_X_PAD > MENU_X_PAD && metrics.small_height > 0
}

/// The menu when it is made: one small line high.
pub open spec fn menu_initial_rect(metrics: DisplayMetrics) -> Rectangle {
    Rectangle {
        tl: Point { x: MENU_X_PAD, y: MENU_Y_PAD },
        br: Point {
            x: (metrics.screensize.x - MENU_X_PAD) as i16,
            y: (MENU_Y_PAD + metrics.small_height) as i16,
        },
    }
}

/// What a menu layout remembers, as a plain value.
pub struct MenuLayoutView {
    pub menu: Seq<u32>,
    pub menu_y_pad: i16,
    pub menu_x_pad: i16,
    pub menu_min_height: i16,
    pub screensize: Point,
    pub small_height: i16,
}

impl MenuLayoutView {
    /// What holds of every menu layout.
    pub open spec fn valid(self) -> bool {
        &&& self.menu_y_pad == MENU_Y_PAD
        &&& self.menu_x_pad == MENU_X_PAD
        &&& self.menu_min_height == self.small_height
        &&& 0 < self.menu_min_height <= i16::MAX - MENU_Y_PAD
        &&& self.screensize.x - MENU_X_PAD > MENU_X_PAD
    }

    /// The most that the menu can be high: what the screen has below the
    /// top of the menu.
    pub open spec fn max_height(self) -> int {
        self.screensize.y - self.menu_y_pad
    }

    /// The height that a resize to `new_height` gives the menu: the most it
    /// can be if the request is more, else the request, but no less than one
    /// small line.
    pub open spec fn clamped_height(self, new_height: i16) -> int {
        if new_height > self.max_height() {
            self.max_height()
        } else if new_height < self.menu_min_height {
            self.menu_min_height as int
        } else {
            new_height as int
        }
    }

    /// The menu after a resize to `new_height`.
    pub open spec fn resized_rect(self, new_height: i16) -> Rectangle {
        Rectangle {
            tl: Point { x: self.menu_x_pad, y: self.menu_y_pad },
            br: Point {
                x: (self.screensize.x - self.menu_x_pad) as i16,
                y: (self.menu_y_pad + self.clamped_height(new_height)) as i16,
            },
        }
    }

    /// The registry after a resize to `new_height`.
    pub open spec fn resized_entries(self, new_height: i16, entries: Entries) -> Entries {
        entries.insert(self.menu, entries[self.menu].with_clip(self.resized_rect(new_height)))
    }

    /// What a resize to `new_height` asks to have painted: the menu, in dark.
    pub open spec fn resize_repaint(self, new_height: i16) -> Seq<FillCommand> {
        seq![FillCommand { rect: self.resized_rect(new_height), color: PixelColor::Dark }]
    }

    /// What clearing the layout asks to have painted: the menu, in dark.
    pub open spec fn clear_commands(self, entries: Entries) -> Seq<FillCommand> {
        seq![FillCommand { rect: entries[self.menu].clip_rect, color: PixelColor::Dark }]
    }
}

/// The canvas of a menu layout, and what it needs to know to resize it.
#[derive(Debug, Clone, Copy)]
pub struct MenuLayout {
    menu: Gid,
    menu_y_pad: i16,
    menu_x_pad: i16,
    menu_min_height: i16,
    screensize: Point,
    small_height: i16,
}

impl View for MenuLayout {
    type V = MenuLayoutView;

    closed spec fn view(&self) -> MenuLayoutView {
        MenuLayoutView {
            menu: self.menu@,
            menu_y_pad: self.menu_y_pad,
            menu_x_pad: self.menu_x_pad,
            menu_min_height: self.menu_min_height,
            screensize: self.screensize,
            small_height: self.small_height,
        }
    }
}

impl MenuLayout {
    #[verifier::type_invariant]
    spec fn well_formed(self) -> bool {
        self@.valid()
    }

    /// Makes the canvas of a menu under the identifier `menu`, one small line
    /// high, trusted as far as `base_trust`, and puts it into the registry.
    ///
    /// Nothing is made if the menu would cover no pixel, or if the registry
    /// has no room for the canvas: the registry then stays as it was. The
    /// bottom of the menu has to be a row that a coordinate can hold.
    pub fn init(
        metrics: &DisplayMetrics,
        menu: Gid,
        base_trust: u8,
        status_canvas: &Canvas,
        canvases: &mut CanvasRegistry,
    ) -> (r: Result<MenuLayout, LayoutError>)
        requires
            MENU_Y_PAD + metrics.small_height <= i16::MAX,
        ensures
            r is Ok <==> menu_plan_is_proper(*metrics) && (old(canvases)@.dom().contains(menu@)
                || !is_full(old(canvases)@)),
            !menu_plan_is_proper(*metrics) ==> r == Err::<MenuLayout, LayoutError>(
                LayoutError::DegenerateGeometry,
            ),
            r is Err && menu_plan_is_proper(*metrics) ==> r == Err::<MenuLayout, LayoutError>(
                LayoutError::CapacityExceeded,
            ),
            r is Err ==> final(canvases)@ == old(canvases)@,
            r is Ok ==> final(canvases)@ == old(canvases)@.insert(
                menu@,
                CanvasView::fresh(menu@, menu_initial_rect(*metrics), base_trust),
            ),
            r is Ok ==> r->Ok_0@ == (MenuLayoutView {
                menu: menu@,
                menu_y_pad: MENU_Y_PAD,
                menu_x_pad: MENU_X_PAD,
                menu_min_height: metrics.small_height,
                screensize: metrics.screensize,
                small_height: metrics.small_height,
            }),
            r is Ok ==> r->Ok_0@.valid(),
    {
        let screensize = metrics.screensize;
        let small_height = metrics.small_height;
        if !(screensize.x as i32 - MENU_X_PAD as i32 > MENU_X_PAD as i32 && small_height > 0) {
            return Err(LayoutError::DegenerateGeometry);
        }
        let menu_canvas = match Canvas::new(
            menu,
            Rectangle::new_coords(
                MENU_X_PAD,
                MENU_Y_PAD,
                screensize.x - MENU_X_PAD,
                MENU_Y_PAD + small_height,
            ),
            base_trust,
        ) {
            Ok(canvas) => canvas,
            Err(e) => { return Err(e); },
        };
        match canvases.insert(menu, menu_canvas) {
            Ok(_) => {},
            Err(e) => { return Err(e); },
        }
        Ok(
            MenuLayout {
                menu,
                menu_y_pad: MENU_Y_PAD,
                menu_x_pad: MENU_X_PAD,
                menu_min_height: small_height,
                screensize,
                small_height,
            },
        )
    }

    /// The fill that blanks the menu, in dark. The registry has to hold the
    /// canvas of the menu.
    pub fn clear(&self, canvases: &CanvasRegistry) -> (r: Result<Vec<FillCommand>, LayoutError>)
        ensures
            r is Ok <==> canvases@.dom().contains(self@.menu),
            r is Ok ==> r->Ok_0@ == self@.clear_commands(canvases@),
            r is Err ==> r->Err_0 == LayoutError::NotFound,
    {
        let menu_clip = match canvases.get(&self.menu) {
            Ok(canvas) => canvas.clip_rect(),
            Err(e) => { return Err(e); },
        };
        let mut commands: Vec<FillCommand> = Vec::new();
        commands.push(FillCommand { rect: menu_clip, color: PixelColor::Dark });
        assert(commands@ =~= self@.clear_commands(canvases@));
        Ok(commands)
    }

    /// Gives the menu the height `new_height`, but no more than the screen has
    /// below the top of the menu and, short of that, no less than one small
    /// line. The resize is always carried out.
    ///
    /// The registry has to hold the canvas of the menu; if it does not,
    /// nothing changes.
    pub fn resize_height(
        &mut self,
        new_height: i16,
        status_canvas: &Canvas,
        canvases: &mut CanvasRegistry,
    ) -> (r: Result<Resized, LayoutError>)
        ensures
            final(self)@ == old(self)@,
            r is Ok <==> old(canvases)@.dom().contains(old(self)@.menu),
            r is Err ==> r->Err_0 == LayoutError::NotFound && final(canvases)@ == old(canvases)@,
            r is Ok ==> final(canvases)@ == old(self)@.resized_entries(
                new_height,
                old(canvases)@,
            ),
            r is Ok ==> r->Ok_0.corner == old(self)@.resized_rect(new_height).br,
            r is Ok ==> r->Ok_0.repaint@ == old(self)@.resize_repaint(new_height),
            r is Ok && new_height > old(self)@.max_height() ==> final(canvases)@[old(
                self,
            )@.menu].clip_rect.height() == old(self)@.max_height(),
    {
        proof {
            use_type_invariant(&*self);
        }
        let ceiling: i32 = self.screensize.y as i32 - self.menu_y_pad as i32;
        let mut height: i32 = if new_height < self.menu_min_height {
            self.menu_min_height as i32
        } else {
            new_height as i32
        };
        if new_height as i32 > ceiling {
            height = ceiling;
        }
        let bottom: i32 = self.menu_y_pad as i32 + height;
        let menu_clip_rect = Rectangle::new_coords(
            self.menu_x_pad,
            self.menu_y_pad,
            self.screensize.x - self.menu_x_pad,
            bottom as i16,
        );
        match canvases.get_mut(&self.menu) {
            Ok(canvas) => { canvas.set_clip(menu_clip_rect); },
            Err(e) => { return Err(e); },
        }
        let mut repaint: Vec<FillCommand> = Vec::new();
        repaint.push(FillCommand { rect: menu_clip_rect, color: PixelColor::Dark });
        assert(repaint@ =~= old(self)@.resize_repaint(new_height));
        Ok(Resized { corner: menu_clip_rect.br, repaint })
    }

    /// A menu takes no input.
    pub fn get_input_canvas(&self) -> (r: Option<Gid>)
        ensures
            r is None,
    {
        None
    }

    /// A menu shows no predictions.
    pub fn get_prediction_canvas(&self) -> (r: Option<Gid>)
        ensures
            r is None,
    {
        None
    }

    /// The canvas of the menu, which is where its content goes.
    pub fn get_content_canvas(&self) -> (g: Gid)
        ensures
            g@ == self@.menu,
    {
        self.menu
    }
}

/// The menu that a resize leaves is where its formula says, in coordinates
/// that fit, and its height is the clamped height.
pub proof fn lemma_menu_resize_geometry(layout: MenuLayoutView, new_height: i16)
    requires
        layout.valid(),
    ensures
        layout.resized_rect(new_height).tl == (Point { x: MENU_X_PAD, y: MENU_Y_PAD }),
        layout.resized_rect(new_height).br.x == layout.screensize.x - MENU_X_PAD,
        layout.resized_rect(new_height).br.y == MENU_Y_PAD + layout.clamped_height(new_height),
        layout.resized_rect(new_height).height() == layout.clamped_height(new_height),
        layout.resized_rect(new_height).width() == layout.screensize.x - 2 * MENU_X_PAD,
{
}

/// A resize to more than the screen has below the top of the menu makes the
/// menu exactly that high: it then ends at the bottom of the screen.
pub proof fn lemma_menu_resize_clamps_to_screen(layout: MenuLayoutView, new_height: i16)
    requires
        layout.valid(),
        new_height > layout.screensize.y - MENU_Y_PAD,
    ensures
        layout.resized_rect(new_height).height() == layout.screensize.y - MENU_Y_PAD,
        layout.resized_rect(new_height).br.y == layout.screensize.y,
{
}

/// A resize to less than one small line, on a screen that has room for one
/// below the top of the menu, makes the menu one small line high.
pub proof fn lemma_menu_resize_floor(layout: MenuLayoutView, new_height: i16)
    requires
        layout.valid(),
        new_height < layout.small_height,
        new_height <= layout.screensize.y - MENU_Y_PAD,
    ensures
        layout.resized_rect(new_height).height() == layout.small_height,
{
}

/// Resizing a menu twice to the same height leaves what resizing it once
/// leaves.
pub proof fn lemma_menu_resize_idempotent(layout: MenuLayoutView, new_height: i16, entries: Entries)
    ensures
        layout.resized_entries(new_height, layout.resized_entries(new_height, entries))
            == layout.resized_entries(new_height, entries),
{
    let once = layout.resized_entries(new_height, entries);
    let twice = layout.resized_entries(new_height, once);
    assert(twice =~= once);
}

/// After a resize, the canvas of the menu is clipped to the new rectangle,
/// nothing else about it has changed, and every other canvas is as it was.
pub proof fn lemma_menu_resize_entries(
    layout: MenuLayoutView,
    new_height: i16,
    entries: Entries,
    other: Seq<u32>,
)
    requires
        entries.dom().contains(layout.menu),
    ensures
        ({
            let after = layout.resized_entries(new_height, entries);
            &&& after.dom() == entries.dom()
            &&& after[layout.menu] == entries[layout.menu].with_clip(
                layout.resized_rect(new_height),
            )
            &&& other != layout.menu ==> after[other] == entries[other]
        }),
{
    let after = layout.resized_entries(new_height, entries);
    assert(after.dom() =~= entries.dom());
}

} // verus!
