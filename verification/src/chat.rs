//! The conversation layout: a content pane above an input pane above a pane
//! of predictions, each as wide as the screen.

use vstd::prelude::*;
use crate::canvas::{Canvas, CanvasView, Gid, LayoutError};
use crate::geometry::{
    lemma_adjacent_rectangles_disjoint, v_span, v_stack, FillCommand, PixelColor, Point, Rectangle,
};
use crate::layout::{DisplayMetrics, Resized};
use crate::registry::{CanvasRegistry, Entries, MAX_CANVASES};

verus! {

/// The space left free around a line of text in the input and prediction
/// panes, above and below.
pub const MARGIN: i16 = 4;

/// The content pane is never made this low or lower by a resize.
pub const MIN_CONTENT_HEIGHT: i16 = 64;

/// The height of the prediction pane, and of the input pane when it is made:
/// one regular line and its margins.
pub open spec fn chat_line_height(metrics: DisplayMetrics) -> int {
    metrics.regular_height + 2 * MARGIN
}

/// The row at which the input pane begins when it is made.
pub open spec fn chat_input_top(metrics: DisplayMetrics) -> int {
    metrics.screensize.y - 2 * chat_line_height(metrics)
}

/// Whether each of the three panes gets at least one pixel, given where the
/// status region is clipped.
pub open spec fn chat_plan_is_proper(metrics: DisplayMetrics, status_clip: Rectangle) -> bool {
    &&& metrics.screensize.x > 0
    &&& chat_line_height(metrics) > 0
    &&& metrics.screensize.x > status_clip.tl.x
    &&& chat_input_top(metrics) > status_clip.br.y
}

/// The prediction pane: the bottom rows of the screen.
pub open spec fn chat_predictive_rect(metrics: DisplayMetrics) -> Rectangle {
    Rectangle {
        tl: Point { x: 0, y: (metrics.screensize.y - chat_line_height(metrics)) as i16 },
        br: metrics.screensize,
    }
}

/// The input pane when it is made: stacked on the prediction pane.
pub open spec fn chat_input_rect(metrics: DisplayMetrics) -> Rectangle {
    v_stack(chat_predictive_rect(metrics), -chat_line_height(metrics))
}

/// The content pane when it is made: from the status region down to the input
/// pane.
pub open spec fn chat_content_rect(metrics: DisplayMetrics, status_clip: Rectangle) -> Rectangle {
    v_span(status_clip, chat_input_rect(metrics))
}

/// The registry after the three canvases of a conversation layout have been
/// put into `entries`, in the order prediction, input, content.
pub open spec fn chat_entries_after_init(
    entries: Entries,
    metrics: DisplayMetrics,
    status_clip: Rectangle,
    predictive: Seq<u32>,
    input: Seq<u32>,
    content: Seq<u32>,
    base_trust: u8,
) -> Entries {
    entries.insert(
        predictive,
        CanvasView::fresh(predictive, chat_predictive_rect(metrics), base_trust),
    ).insert(input, CanvasView::fresh(input, chat_input_rect(metrics), base_trust)).insert(
        content,
        CanvasView::fresh(content, chat_content_rect(metrics, status_clip), base_trust / 2),
    )
}

/// What a conversation layout remembers, as a plain value.
pub struct ChatLayoutView {
    pub content: Seq<u32>,
    pub predictive: Seq<u32>,
    pub input: Seq<u32>,
    pub min_content_height: i16,
    pub min_input_height: i16,
    pub screensize: Point,
    pub small_height: i16,
    pub regular_height: i16,
}

impl ChatLayoutView {
    /// What holds of every conversation layout.
    pub open spec fn valid(self) -> bool {
        &&& self.min_content_height == MIN_CONTENT_HEIGHT
        &&& self.min_input_height > 0
    }

    /// Whether the registry holds the three canvases of the layout.
    pub open spec fn owns_all(self, entries: Entries) -> bool {
        &&& entries.dom().contains(self.input)
        &&& entries.dom().contains(self.predictive)
        &&& entries.dom().contains(self.content)
    }

    /// The height that a resize to `new_height` gives the input pane: the
    /// request, but no less than the height the pane was made with.
    pub open spec fn clamped_height(self, new_height: i16) -> i16 {
        if new_height < self.min_input_height {
            self.min_input_height
        } else {
            new_height
        }
    }

    /// The row at which the input pane would begin after a resize.
    pub open spec fn resized_input_top(self, new_height: i16, entries: Entries) -> int {
        entries[self.predictive].clip_rect.tl.y - self.clamped_height(new_height)
    }

    /// The height that a resize would leave the content pane.
    pub open spec fn resized_content_height(
        self,
        new_height: i16,
        status_clip: Rectangle,
        entries: Entries,
    ) -> int {
        self.resized_input_top(new_height, entries) - status_clip.br.y
    }

    /// Whether a resize to `new_height` is carried out: it is when it leaves
    /// the content pane higher than its minimum.
    pub open spec fn resize_commits(
        self,
        new_height: i16,
        status_clip: Rectangle,
        entries: Entries,
    ) -> bool {
        self.resized_content_height(new_height, status_clip, entries) > self.min_content_height
    }

    /// The input pane after a resize that is carried out.
    pub open spec fn resized_input_rect(self, new_height: i16, entries: Entries) -> Rectangle {
        v_stack(entries[self.predictive].clip_rect, -self.clamped_height(new_height))
    }

    /// The content pane after a resize that is carried out.
    pub open spec fn resized_content_rect(
        self,
        new_height: i16,
        status_clip: Rectangle,
        entries: Entries,
    ) -> Rectangle {
        v_span(status_clip, self.resized_input_rect(new_height, entries))
    }

    /// The registry after a resize to `new_height`.
    pub open spec fn resized_entries(
        self,
        new_height: i16,
        status_clip: Rectangle,
        entries: Entries,
    ) -> Entries {
        if self.resize_commits(new_height, status_clip, entries) {
            let moved = entries.insert(
                self.input,
                entries[self.input].with_clip(self.resized_input_rect(new_height, entries)),
            );
            moved.insert(
                self.content,
                moved[self.content].with_clip(
                    self.resized_content_rect(new_height, status_clip, entries),
                ),
            )
        } else {
            entries
        }
    }

    /// The corner that a resize to `new_height` reports: the bottom-right
    /// corner of the new content pane if the resize is carried out, and that
    /// of the input pane as it was if it is not.
    pub open spec fn resized_corner(
        self,
        new_height: i16,
        status_clip: Rectangle,
        entries: Entries,
    ) -> Point {
        if self.resize_commits(new_height, status_clip, entries) {
            self.resized_content_rect(new_height, status_clip, entries).br
        } else {
            entries[self.input].clip_rect.br
        }
    }

    /// What a resize to `new_height` asks to have painted: the new input and
    /// content panes, in light, if it is carried out, and nothing if not.
    pub open spec fn resize_repaint(
        self,
        new_height: i16,
        status_clip: Rectangle,
        entries: Entries,
    ) -> Seq<FillCommand> {
        if self.resize_commits(new_height, status_clip, entries) {
            seq![
                FillCommand {
                    rect: self.resized_input_rect(new_height, entries),
                    color: PixelColor::Light,
                },
                FillCommand {
                    rect: self.resized_content_rect(new_height, status_clip, entries),
                    color: PixelColor::Light,
                },
            ]
        } else {
            Seq::empty()
        }
    }

    /// What clearing the layout asks to have painted: content, predictions,
    /// input, each in light.
    pub open spec fn clear_commands(self, entries: Entries) -> Seq<FillCommand> {
        seq![
            FillCommand { rect: entries[self.content].clip_rect, color: PixelColor::Light },
            FillCommand { rect: entries[self.predictive].clip_rect, color: PixelColor::Light },
            FillCommand { rect: entries[self.input].clip_rect, color: PixelColor::Light },
        ]
    }
}

/// The canvases of a conversation layout, and what it needs to know to
/// resize them.
#[derive(Debug, Clone, Copy)]
pub struct ChatLayout {
    content: Gid,
    predictive: Gid,
    input: Gid,
    min_content_height: i16,
    min_input_height: i16,
    screensize: Point,
    small_height: i16,
    regular_height: i16,
}

impl View for ChatLayout {
    type V = ChatLayoutView;

    closed spec fn view(&self) -> ChatLayoutView {
        ChatLayoutView {
            content: self.content@,
            predictive: self.predictive@,
            input: self.input@,
            min_content_height: self.min_content_height,
            min_input_height: self.min_input_height,
            screensize: self.screensize,
            small_height: self.small_height,
            regular_height: self.regular_height,
        }
    }
}

impl ChatLayout {
    #[verifier::type_invariant]
    spec fn well_formed(self) -> bool {
        self@.valid()
    }

    /// Makes the three canvases of a conversation layout under the given
    /// identifiers and puts them into the registry: the prediction pane at
    /// the bottom of the screen, the input pane on top of it, and the content
    /// pane from the status region down to the input pane. Input and
    /// predictions are trusted as far as `base_trust`, content half as far.
    ///
    /// Nothing is made if a pane would cover no pixel, or if the registry has
    /// no room for the canvases: the registry then stays as it was.
    pub fn init(
        metrics: &DisplayMetrics,
        predictive: Gid,
        input: Gid,
        content: Gid,
        base_trust: u8,
        status_canvas: &Canvas,
        canvases: &mut CanvasRegistry,
    ) -> (r: Result<ChatLayout, LayoutError>)
        ensures
            r is Ok <==> chat_plan_is_proper(*metrics, status_canvas@.clip_rect)
                && chat_entries_after_init(
                old(canvases)@,
                *metrics,
                status_canvas@.clip_rect,
                predictive@,
                input@,
                content@,
                base_trust,
            ).dom().len() <= MAX_CANVASES,
            !chat_plan_is_proper(*metrics, status_canvas@.clip_rect) ==> r == Err::<
                ChatLayout,
                LayoutError,
            >(LayoutError::DegenerateGeometry),
            r is Err && chat_plan_is_proper(*metrics, status_canvas@.clip_rect) ==> r == Err::<
                ChatLayout,
                LayoutError,
            >(LayoutError::CapacityExceeded),
            r is Err ==> final(canvases)@ == old(canvases)@,
            r is Ok ==> final(canvases)@ == chat_entries_after_init(
                old(canvases)@,
                *metrics,
                status_canvas@.clip_rect,
                predictive@,
                input@,
                content@,
                base_trust,
            ),
            r is Ok ==> r->Ok_0@ == (ChatLayoutView {
                content: content@,
                predictive: predictive@,
                input: input@,
                min_content_height: MIN_CONTENT_HEIGHT,
                min_input_height: chat_line_height(*metrics) as i16,
                screensize: metrics.screensize,
                small_height: metrics.small_height,
                regular_height: metrics.regular_height,
            }),
            r is Ok ==> r->Ok_0@.valid() && chat_line_height(*metrics) <= i16::MAX,
    {
        let screensize = metrics.screensize;
        let status_clip = status_canvas.clip_rect();
        let line: i32 = metrics.regular_height as i32 + 2 * (MARGIN as i32);
        let input_top: i32 = screensize.y as i32 - 2 * line;
        if !(screensize.x > 0 && line > 0 && screensize.x > status_clip.tl.x && input_top
            > status_clip.br.y as i32) {
            return Err(LayoutError::DegenerateGeometry);
        }
        let min_input_height: i16 = metrics.regular_height + 2 * MARGIN;
        let predictive_rect = Rectangle::new_coords(
            0,
            screensize.y - min_input_height,
            screensize.x,
            screensize.y,
        );
        let input_rect = Rectangle::new_v_stack(predictive_rect, -min_input_height);
        let content_rect = Rectangle::new_v_span(status_clip, input_rect);
        let predictive_canvas = match Canvas::new(predictive, predictive_rect, base_trust) {
            Ok(canvas) => canvas,
            Err(e) => { return Err(e); },
        };
        let input_canvas = match Canvas::new(input, input_rect, base_trust) {
            Ok(canvas) => canvas,
            Err(e) => { return Err(e); },
        };
        let content_canvas = match Canvas::new(content, content_rect, base_trust / 2) {
            Ok(canvas) => canvas,
            Err(e) => { return Err(e); },
        };
        // Count the identifiers that are new to the registry, so that nothing
        // is put in unless all of it fits.
        let held = canvases.len();
        let mut needed: usize = 0;
        if !canvases.contains(&predictive) {
            needed = needed + 1;
        }
        if !canvases.contains(&input) && !input.same(&predictive) {
            needed = needed + 1;
        }
        if !canvases.contains(&content) && !content.same(&predictive) && !content.same(&input) {
            needed = needed + 1;
        }
        if held + needed > MAX_CANVASES {
            return Err(LayoutError::CapacityExceeded);
        }
        match canvases.insert(predictive, predictive_canvas) {
            Ok(_) => {},
            Err(e) => { return Err(e); },
        }
        match canvases.insert(input, input_canvas) {
            Ok(_) => {},
            Err(e) => { return Err(e); },
        }
        match canvases.insert(content, content_canvas) {
            Ok(_) => {},
            Err(e) => { return Err(e); },
        }
        Ok(
            ChatLayout {
                content,
                predictive,
                input,
                min_content_height: MIN_CONTENT_HEIGHT,
                min_input_height,
                screensize,
                small_height: metrics.small_height,
                regular_height: metrics.regular_height,
            },
        )
    }

    /// The fills that blank the layout: content, predictions, input, each in
    /// light. The registry has to hold the three canvases.
    pub fn clear(&self, canvases: &CanvasRegistry) -> (r: Result<Vec<FillCommand>, LayoutError>)
        ensures
            r is Ok <==> self@.owns_all(canvases@),
            r is Ok ==> r->Ok_0@ == self@.clear_commands(canvases@),
            r is Err ==> r->Err_0 == LayoutError::NotFound,
    {
        let input_clip = match canvases.get(&self.input) {
            Ok(canvas) => canvas.clip_rect(),
            Err(e) => { return Err(e); },
        };
        let content_clip = match canvases.get(&self.content) {
            Ok(canvas) => canvas.clip_rect(),
            Err(e) => { return Err(e); },
        };
        let predictive_clip = match canvases.get(&self.predictive) {
            Ok(canvas) => canvas.clip_rect(),
            Err(e) => { return Err(e); },
        };
        let mut commands: Vec<FillCommand> = Vec::new();
        commands.push(FillCommand { rect: content_clip, color: PixelColor::Light });
        commands.push(FillCommand { rect: predictive_clip, color: PixelColor::Light });
        commands.push(FillCommand { rect: input_clip, color: PixelColor::Light });
        assert(commands@ =~= self@.clear_commands(canvases@));
        Ok(commands)
    }

    /// Gives the input pane the height `new_height`, or the height it was
    /// made with if that is more, and lets the content pane end where the
    /// input pane then begins. The resize is carried out only if it leaves the
    /// content pane higher than its minimum; otherwise nothing changes, no
    /// fill is asked for, and the corner reported is that of the input pane.
    ///
    /// The registry has to hold the three canvases; if it does not, nothing
    /// changes.
    pub fn resize_height(
        &mut self,
        new_height: i16,
        status_canvas: &Canvas,
        canvases: &mut CanvasRegistry,
    ) -> (r: Result<Resized, LayoutError>)
        ensures
            final(self)@ == old(self)@,
            r is Ok <==> old(self)@.owns_all(old(canvases)@),
            r is Err ==> r->Err_0 == LayoutError::NotFound && final(canvases)@ == old(canvases)@,
            r is Ok ==> final(canvases)@ == old(self)@.resized_entries(
                new_height,
                status_canvas@.clip_rect,
                old(canvases)@,
            ),
            r is Ok ==> r->Ok_0.corner == old(self)@.resized_corner(
                new_height,
                status_canvas@.clip_rect,
                old(canvases)@,
            ),
            r is Ok ==> r->Ok_0.repaint@ == old(self)@.resize_repaint(
                new_height,
                status_canvas@.clip_rect,
                old(canvases)@,
            ),
            r is Ok && !old(self)@.resize_commits(
                new_height,
                status_canvas@.clip_rect,
                old(canvases)@,
            ) ==> final(canvases)@ == old(canvases)@ && r->Ok_0.repaint@.len() == 0
                && r->Ok_0.corner == old(canvases)@[old(self)@.input].clip_rect.br,
    {
        proof {
            use_type_invariant(&*self);
        }
        let input_clip = match canvases.get(&self.input) {
            Ok(canvas) => canvas.clip_rect(),
            Err(e) => { return Err(e); },
        };
        let predictive_clip = match canvases.get(&self.predictive) {
            Ok(canvas) => canvas.clip_rect(),
            Err(e) => { return Err(e); },
        };
        if !canvases.contains(&self.content) {
            return Err(LayoutError::NotFound);
        }
        let height: i16 = if new_height < self.min_input_height {
            self.min_input_height
        } else {
            new_height
        };
        let status_clip = status_canvas.clip_rect();
        let input_top: i32 = predictive_clip.tl.y as i32 - height as i32;
        if input_top - status_clip.br.y as i32 > self.min_content_height as i32 {
            let new_input_rect = Rectangle::new_v_stack(predictive_clip, -height);
            let new_content_rect = Rectangle::new_v_span(status_clip, new_input_rect);
            match canvases.get_mut(&self.input) {
                Ok(canvas) => { canvas.set_clip(new_input_rect); },
                Err(e) => { return Err(e); },
            }
            match canvases.get_mut(&self.content) {
                Ok(canvas) => { canvas.set_clip(new_content_rect); },
                Err(e) => { return Err(e); },
            }
            let mut repaint: Vec<FillCommand> = Vec::new();
            repaint.push(FillCommand { rect: new_input_rect, color: PixelColor::Light });
            repaint.push(FillCommand { rect: new_content_rect, color: PixelColor::Light });
            assert(repaint@ =~= old(self)@.resize_repaint(
                new_height,
                status_canvas@.clip_rect,
                old(canvases)@,
            ));
            Ok(Resized { corner: new_content_rect.br, repaint })
        } else {
            Ok(Resized { corner: input_clip.br, repaint: Vec::new() })
        }
    }

    /// The canvas that takes what the user types.
    pub fn get_input_canvas(&self) -> (r: Option<Gid>)
        ensures
            r is Some && r->Some_0@ == self@.input,
    {
        Some(self.input)
    }

    /// The canvas that shows the predictions.
    pub fn get_prediction_canvas(&self) -> (r: Option<Gid>)
        ensures
            r is Some && r->Some_0@ == self@.predictive,
    {
        Some(self.predictive)
    }

    /// The canvas that shows the content.
    pub fn get_content_canvas(&self) -> (g: Gid)
        ensures
            g@ == self@.content,
    {
        self.content
    }
}

/// When a conversation layout can be made, each pane is where its formula
/// says, in coordinates that fit, and covers at least one pixel.
pub proof fn lemma_chat_plan_fits(metrics: DisplayMetrics, status_clip: Rectangle)
    requires
        chat_plan_is_proper(metrics, status_clip),
    ensures
        0 < chat_line_height(metrics) <= i16::MAX,
        chat_predictive_rect(metrics).tl.y == metrics.screensize.y - chat_line_height(metrics),
        chat_input_rect(metrics).tl.y == chat_input_top(metrics),
        chat_input_rect(metrics).br.y == chat_predictive_rect(metrics).tl.y,
        chat_input_rect(metrics).height() == chat_line_height(metrics),
        chat_predictive_rect(metrics).height() == chat_line_height(metrics),
        chat_content_rect(metrics, status_clip).tl == (Point {
            x: status_clip.tl.x,
            y: status_clip.br.y,
        }),
        chat_content_rect(metrics, status_clip).br == (Point {
            x: metrics.screensize.x,
            y: chat_input_top(metrics) as i16,
        }),
        chat_predictive_rect(metrics).is_proper(),
        chat_input_rect(metrics).is_proper(),
        chat_content_rect(metrics, status_clip).is_proper(),
{
}

/// The three panes of a conversation layout that can be made have no pixel
/// in common, two by two.
pub proof fn lemma_chat_panes_disjoint(metrics: DisplayMetrics, status_clip: Rectangle)
    requires
        chat_plan_is_proper(metrics, status_clip),
    ensures
        !chat_predictive_rect(metrics).overlaps(chat_input_rect(metrics)),
        !chat_predictive_rect(metrics).overlaps(chat_content_rect(metrics, status_clip)),
        !chat_input_rect(metrics).overlaps(chat_content_rect(metrics, status_clip)),
{
    lemma_chat_plan_fits(metrics, status_clip);
    lemma_adjacent_rectangles_disjoint(chat_predictive_rect(metrics), chat_input_rect(metrics));
    lemma_adjacent_rectangles_disjoint(
        chat_predictive_rect(metrics),
        chat_content_rect(metrics, status_clip),
    );
    lemma_adjacent_rectangles_disjoint(
        chat_input_rect(metrics),
        chat_content_rect(metrics, status_clip),
    );
}

/// When the status region begins at the left edge of the screen, the three
/// panes of a conversation layout that can be made cover the screen below
/// the status region, and nothing else.
pub proof fn lemma_chat_panes_cover_screen(
    metrics: DisplayMetrics,
    status_clip: Rectangle,
    x: int,
    y: int,
)
    requires
        chat_plan_is_proper(metrics, status_clip),
        status_clip.tl.x == 0,
    ensures
        (0 <= x < metrics.screensize.x && status_clip.br.y <= y < metrics.screensize.y) <==> (
        chat_predictive_rect(metrics).covers(x, y) || chat_input_rect(metrics).covers(x, y)
            || chat_content_rect(metrics, status_clip).covers(x, y)),
{
    lemma_chat_plan_fits(metrics, status_clip);
}

/// A resize to less than the height that the input pane was made with does
/// what a resize to that height does.
pub proof fn lemma_resize_below_minimum(
    layout: ChatLayoutView,
    new_height: i16,
    status_clip: Rectangle,
    entries: Entries,
)
    requires
        new_height < layout.min_input_height,
    ensures
        layout.resized_entries(new_height, status_clip, entries) == layout.resized_entries(
            layout.min_input_height,
            status_clip,
            entries,
        ),
        layout.resized_corner(new_height, status_clip, entries) == layout.resized_corner(
            layout.min_input_height,
            status_clip,
            entries,
        ),
        layout.resize_repaint(new_height, status_clip, entries) == layout.resize_repaint(
            layout.min_input_height,
            status_clip,
            entries,
        ),
{
}

/// A resize that would leave the content pane no higher than its minimum
/// changes no canvas, asks for no fill, and reports the corner of the input
/// pane as it was.
pub proof fn lemma_rejected_resize_changes_nothing(
    layout: ChatLayoutView,
    new_height: i16,
    status_clip: Rectangle,
    entries: Entries,
)
    requires
        layout.resized_content_height(new_height, status_clip, entries)
            <= layout.min_content_height,
    ensures
        layout.resized_entries(new_height, status_clip, entries) == entries,
        layout.resized_corner(new_height, status_clip, entries)
            == entries[layout.input].clip_rect.br,
        layout.resize_repaint(new_height, status_clip, entries) == Seq::<FillCommand>::empty(),
{
}

/// A resize that is carried out puts the input pane, in coordinates that
/// fit, on top of the prediction pane with the clamped height, and leaves the
/// content pane higher than its minimum.
pub proof fn lemma_committed_resize_geometry(
    layout: ChatLayoutView,
    new_height: i16,
    status_clip: Rectangle,
    entries: Entries,
)
    requires
        layout.valid(),
        layout.resize_commits(new_height, status_clip, entries),
    ensures
        layout.resized_input_rect(new_height, entries).tl.y == layout.resized_input_top(
            new_height,
            entries,
        ),
        layout.resized_input_rect(new_height, entries).br.y
            == entries[layout.predictive].clip_rect.tl.y,
        layout.resized_input_rect(new_height, entries).height() == layout.clamped_height(
            new_height,
        ),
        layout.resized_content_rect(new_height, status_clip, entries).height()
            > MIN_CONTENT_HEIGHT,
        layout.resized_content_rect(new_height, status_clip, entries).tl.y == status_clip.br.y,
{
}

/// What the registry holds after a conversation layout has been made under
/// three identifiers that differ: the three new canvases, each over its pane
/// and clipped to it, input and predictions trusted as far as `base_trust` and
/// content exactly half as far, rounded down; and under every other
/// identifier what it held before.
pub proof fn lemma_chat_init_entries(
    entries: Entries,
    metrics: DisplayMetrics,
    status_clip: Rectangle,
    predictive: Seq<u32>,
    input: Seq<u32>,
    content: Seq<u32>,
    base_trust: u8,
    other: Seq<u32>,
)
    requires
        predictive != input,
        predictive != content,
        input != content,
    ensures
        ({
            let after = chat_entries_after_init(
                entries,
                metrics,
                status_clip,
                predictive,
                input,
                content,
                base_trust,
            );
            &&& after.dom() == entries.dom().insert(predictive).insert(input).insert(content)
            &&& after[predictive] == CanvasView::fresh(
                predictive,
                chat_predictive_rect(metrics),
                base_trust,
            )
            &&& after[input] == CanvasView::fresh(input, chat_input_rect(metrics), base_trust)
            &&& after[content] == CanvasView::fresh(
                content,
                chat_content_rect(metrics, status_clip),
                base_trust / 2,
            )
            &&& after[content].trust_level <= after[input].trust_level
            &&& after[content].trust_level <= after[predictive].trust_level
            &&& other != predictive && other != input && other != content ==> (after.dom().contains(
                other,
            ) <==> entries.dom().contains(other)) && after[other] == entries[other]
        }),
{
}

/// No canvas of a conversation layout is trusted further than the status
/// region, if the base trust is not.
pub proof fn lemma_chat_trust_bounded(
    entries: Entries,
    metrics: DisplayMetrics,
    status: CanvasView,
    predictive: Seq<u32>,
    input: Seq<u32>,
    content: Seq<u32>,
    base_trust: u8,
)
    requires
        base_trust <= status.trust_level,
    ensures
        ({
            let after = chat_entries_after_init(
                entries,
                metrics,
                status.clip_rect,
                predictive,
                input,
                content,
                base_trust,
            );
            &&& after[predictive].trust_level <= status.trust_level
            &&& after[input].trust_level <= status.trust_level
            &&& after[content].trust_level <= status.trust_level
        }),
{
}

/// After a resize that is carried out, under three identifiers that differ,
/// the input and content canvases are clipped to their new panes, the
/// prediction canvas is clipped as before, nothing else about the three has
/// changed, and every other canvas is as it was.
pub proof fn lemma_committed_resize_entries(
    layout: ChatLayoutView,
    new_height: i16,
    status_clip: Rectangle,
    entries: Entries,
    other: Seq<u32>,
)
    requires
        layout.owns_all(entries),
        layout.resize_commits(new_height, status_clip, entries),
        layout.predictive != layout.input,
        layout.predictive != layout.content,
        layout.input != layout.content,
    ensures
        ({
            let after = layout.resized_entries(new_height, status_clip, entries);
            &&& after.dom() == entries.dom()
            &&& after[layout.input] == entries[layout.input].with_clip(
                layout.resized_input_rect(new_height, entries),
            )
            &&& after[layout.content] == entries[layout.content].with_clip(
                layout.resized_content_rect(new_height, status_clip, entries),
            )
            &&& after[layout.predictive] == entries[layout.predictive]
            &&& other != layout.input && other != layout.content ==> after[other] == entries[other]
        }),
{
    let after = layout.resized_entries(new_height, status_clip, entries);
    assert(after.dom() =~= entries.dom());
}

/// After a resize that is carried out, under three identifiers that differ,
/// the three panes of the layout have no pixel in common, two by two.
pub proof fn lemma_resized_panes_disjoint(
    layout: ChatLayoutView,
    new_height: i16,
    status_clip: Rectangle,
    entries: Entries,
)
    requires
        layout.valid(),
        layout.owns_all(entries),
        layout.resize_commits(new_height, status_clip, entries),
        layout.predictive != layout.input,
        layout.predictive != layout.content,
        layout.input != layout.content,
    ensures
        ({
            let after = layout.resized_entries(new_height, status_clip, entries);
            &&& !after[layout.input].clip_rect.overlaps(after[layout.predictive].clip_rect)
            &&& !after[layout.input].clip_rect.overlaps(after[layout.content].clip_rect)
            &&& !after[layout.content].clip_rect.overlaps(after[layout.predictive].clip_rect)
        }),
{
    let after = layout.resized_entries(new_height, status_clip, entries);
    lemma_committed_resize_entries(layout, new_height, status_clip, entries, layout.predictive);
    lemma_committed_resize_geometry(layout, new_height, status_clip, entries);
    lemma_adjacent_rectangles_disjoint(
        after[layout.input].clip_rect,
        after[layout.predictive].clip_rect,
    );
    lemma_adjacent_rectangles_disjoint(
        after[layout.input].clip_rect,
        after[layout.content].clip_rect,
    );
    lemma_adjacent_rectangles_disjoint(
        after[layout.content].clip_rect,
        after[layout.predictive].clip_rect,
    );
}

} // verus!
