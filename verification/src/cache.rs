//! The widget cache: an insertion-ordered collection of widgets, pointer
//! hit-testing, event dispatch and the per-frame draw loop.
//!
//! Widgets are stored in the order of creation and identified by their
//! index; nothing is ever removed, so an index stays valid for the life of
//! the cache.  One pointer-motion sample makes one transition: hit-test the
//! point, notify the widgets whose bounds were left and entered, then hand
//! the widget under the pointer the event translated into its local space.

use vstd::prelude::*;
use crate::event::{InputEvent, PushrodEvent};
use crate::geometry::{Point, Rect, Size};
use crate::render::{DrawCommand, RenderOp, RenderTarget, TextureSlot, op_on_window};
use crate::widget::{SystemWidget, Widget};

verus! {

/// Whether the point `(x, y)` lies within `w`'s axis-aligned bounds,
/// inclusive on all four edges.
pub open spec fn contains_point(w: SystemWidget, x: int, y: int) -> bool {
    &&& w.origin_spec().x <= x <= w.origin_spec().x + w.size_spec().w
    &&& w.origin_spec().y <= y <= w.origin_spec().y + w.size_spec().h
}

/// The index of the widget under the point `(x, y)`: the *last* widget in
/// insertion order whose bounds contain the point, or 0 — the full-window
/// background widget — if none does.
pub open spec fn hit_index(s: Seq<SystemWidget>, x: int, y: int) -> int
    decreases s.len(),
{
    if s.len() == 0 {
        0
    } else if contains_point(s.last(), x, y) {
        s.len() - 1
    } else {
        hit_index(s.drop_last(), x, y)
    }
}

/// Hit testing resolves overlaps in favour of the later insertion: the
/// result is a widget containing the point with no later widget containing
/// it, and it is 0 exactly when no widget contains the point (or when the
/// hit widget is the background itself).
pub proof fn lemma_hit_index_last_wins(s: Seq<SystemWidget>, x: int, y: int)
    ensures
        0 <= hit_index(s, x, y),
        s.len() > 0 ==> hit_index(s, x, y) < s.len(),
        s.len() == 0 ==> hit_index(s, x, y) == 0,
        forall|j: int| hit_index(s, x, y) < j < s.len() ==> !contains_point(#[trigger] s[j], x, y),
        (exists|j: int| 0 <= j < s.len() && contains_point(#[trigger] s[j], x, y))
            ==> contains_point(s[hit_index(s, x, y)], x, y),
        (forall|j: int| 0 <= j < s.len() ==> !contains_point(#[trigger] s[j], x, y))
            ==> hit_index(s, x, y) == 0,
    decreases s.len(),
{
    if s.len() > 0 && !contains_point(s.last(), x, y) {
        lemma_hit_index_last_wins(s.drop_last(), x, y);
        assert forall|j: int| 0 <= j < s.len() - 1 implies s.drop_last()[j] == s[j] by {}
    }
}

/// `event` with its pointer coordinates translated into the local space of
/// a widget whose origin is `origin`.
pub open spec fn translated(event: InputEvent, origin: Point) -> InputEvent {
    match event {
        InputEvent::MouseMotion { x, y, xrel, yrel } => InputEvent::MouseMotion {
            x: (x - origin.x) as i64,
            y: (y - origin.y) as i64,
            xrel,
            yrel,
        },
        InputEvent::MouseButtonDown { button, clicks, x, y } => InputEvent::MouseButtonDown {
            button,
            clicks,
            x: (x - origin.x) as i64,
            y: (y - origin.y) as i64,
        },
        InputEvent::MouseButtonUp { button, clicks, x, y } => InputEvent::MouseButtonUp {
            button,
            clicks,
            x: (x - origin.x) as i64,
            y: (y - origin.y) as i64,
        },
        _ => event,
    }
}

/// Whether the coordinates an input event carries are ones the window
/// system can produce.  The window system reports 32-bit coordinates; the
/// event carries them as `i64`, so translation into a widget's local space
/// cannot overflow.
pub open spec fn coords_in_range(event: InputEvent) -> bool {
    match event {
        InputEvent::MouseMotion { x, y, .. } => {
            i32::MIN <= x <= i32::MAX && i32::MIN <= y <= i32::MAX
        },
        InputEvent::MouseButtonDown { x, y, .. } => {
            i32::MIN <= x <= i32::MAX && i32::MIN <= y <= i32::MAX
        },
        InputEvent::MouseButtonUp { x, y, .. } => {
            i32::MIN <= x <= i32::MAX && i32::MIN <= y <= i32::MAX
        },
        _ => true,
    }
}

/// The events a pointer-motion sample at `(x, y)` produces, given widgets
/// `s` and the previously current widget `prev`.
///
/// If the hit test resolves to a different widget than before, the output
/// opens with the bounds-exited notification (delivered to `prev`), the
/// responses `prev` generated, the bounds-entered notification (delivered
/// to the new widget), and its responses.  In every case it ends with the
/// responses of the widget under the pointer to the motion event
/// translated into its local space.
pub open spec fn motion_output(
    s: Seq<SystemWidget>,
    prev: u32,
    event: InputEvent,
    x: int,
    y: int,
) -> Seq<PushrodEvent> {
    let hit = hit_index(s, x, y) as u32;
    let routed = s[hit as int].responses(PushrodEvent::SystemEvent {
        id: hit,
        event: translated(event, s[hit as int].origin_spec()),
    });
    if hit != prev {
        let exit_ev = PushrodEvent::BoundsExited { exited: prev, entered: hit };
        let enter_ev = PushrodEvent::BoundsEntered { exited: prev, entered: hit };
        seq![exit_ev] + s[prev as int].responses(exit_ev) + seq![enter_ev]
            + s[hit as int].responses(enter_ev) + routed
    } else {
        routed
    }
}

/// The events a pointer-button event at `(x, y)` produces: the responses
/// of the widget under the point to the event translated into its local
/// space.  Button events do not move the current widget.
pub open spec fn button_output(s: Seq<SystemWidget>, event: InputEvent, x: int, y: int) -> Seq<
    PushrodEvent,
> {
    let hit = hit_index(s, x, y) as u32;
    s[hit as int].responses(PushrodEvent::SystemEvent {
        id: hit,
        event: translated(event, s[hit as int].origin_spec()),
    })
}

/// The full output list one raw event produces, given widgets `s` and the
/// currently current widget `prev`.
pub open spec fn output_for(s: Seq<SystemWidget>, prev: u32, event: InputEvent) -> Seq<
    PushrodEvent,
> {
    match event {
        InputEvent::MouseMotion { x, y, .. } => motion_output(s, prev, event, x as int, y as int),
        InputEvent::MouseButtonDown { x, y, .. } => button_output(s, event, x as int, y as int),
        InputEvent::MouseButtonUp { x, y, .. } => button_output(s, event, x as int, y as int),
        _ => Seq::empty(),
    }
}

/// The widget under the pointer after one raw event: pointer motion moves
/// it to the hit-tested widget; everything else leaves it alone.
pub open spec fn current_after(s: Seq<SystemWidget>, prev: u32, event: InputEvent) -> u32 {
    match event {
        InputEvent::MouseMotion { x, y, .. } => hit_index(s, x as int, y as int) as u32,
        _ => prev,
    }
}

/// Whether an event is a bounds-change notification.
pub open spec fn is_bounds_event(e: PushrodEvent) -> bool {
    e is BoundsExited || e is BoundsEntered
}

/// The bounds-change notifications among `out`, in order.
pub open spec fn bounds_events(out: Seq<PushrodEvent>) -> Seq<PushrodEvent> {
    out.filter(|e: PushrodEvent| is_bounds_event(e))
}

/// No widget generates bounds-change notifications of its own: only the
/// cache synthesises them.
pub proof fn lemma_responses_no_bounds(w: SystemWidget, e: PushrodEvent)
    ensures
        bounds_events(w.responses(e)) == Seq::<PushrodEvent>::empty(),
{
    reveal_with_fuel(Seq::filter, 3);
    match w {
        SystemWidget::Base(_) => {},
        SystemWidget::Box(_) => {},
        SystemWidget::Button(_) => {
            assert(w.responses(e).len() <= 1);
            if w.responses(e).len() == 1 {
                assert(w.responses(e).drop_last() =~= Seq::<PushrodEvent>::empty());
            }
        },
        SystemWidget::Image(_) => {},
        SystemWidget::Text(_) => {},
    }
}

/// Bounds-change dispatch: a pointer motion that moves from one widget to
/// a different one produces exactly one bounds-exited notification
/// followed by exactly one bounds-entered notification, each once per
/// transition; a motion that stays within the same widget produces none.
pub proof fn lemma_bounds_change_dispatch(
    s: Seq<SystemWidget>,
    prev: u32,
    event: InputEvent,
    x: int,
    y: int,
)
    ensures
        ({
            let hit = hit_index(s, x, y) as u32;
            let out = motion_output(s, prev, event, x, y);
            &&& hit != prev ==> bounds_events(out) == seq![
                PushrodEvent::BoundsExited { exited: prev, entered: hit },
                PushrodEvent::BoundsEntered { exited: prev, entered: hit },
            ]
            &&& hit == prev ==> bounds_events(out) == Seq::<PushrodEvent>::empty()
        }),
{
    reveal_with_fuel(Seq::filter, 3);
    let pred = |e: PushrodEvent| is_bounds_event(e);
    let hit = hit_index(s, x, y) as u32;
    let routed_ev = PushrodEvent::SystemEvent {
        id: hit,
        event: translated(event, s[hit as int].origin_spec()),
    };
    let routed = s[hit as int].responses(routed_ev);
    lemma_responses_no_bounds(s[hit as int], routed_ev);
    if hit != prev {
        let exit_ev = PushrodEvent::BoundsExited { exited: prev, entered: hit };
        let enter_ev = PushrodEvent::BoundsEntered { exited: prev, entered: hit };
        let r_prev = s[prev as int].responses(exit_ev);
        let r_hit = s[hit as int].responses(enter_ev);
        lemma_responses_no_bounds(s[prev as int], exit_ev);
        lemma_responses_no_bounds(s[hit as int], enter_ev);
        Seq::filter_distributes_over_add(
            seq![exit_ev] + r_prev + seq![enter_ev] + r_hit,
            routed,
            pred,
        );
        Seq::filter_distributes_over_add(seq![exit_ev] + r_prev + seq![enter_ev], r_hit, pred);
        Seq::filter_distributes_over_add(seq![exit_ev] + r_prev, seq![enter_ev], pred);
        Seq::filter_distributes_over_add(seq![exit_ev], r_prev, pred);
        assert(seq![exit_ev].filter(pred) =~= seq![exit_ev]);
        assert(seq![enter_ev].filter(pred) =~= seq![enter_ev]);
        assert(bounds_events(motion_output(s, prev, event, x, y)) =~= seq![exit_ev, enter_ev]);
    } else {
        assert(bounds_events(motion_output(s, prev, event, x, y)) =~= Seq::<PushrodEvent>::empty());
    }
}

/// A widget after the draw loop has handled it: redrawn — textures
/// allocated, its invalidation flag and its sub-widgets' flags cleared by
/// its own `draw` — if it was invalidated, untouched otherwise.
pub open spec fn widget_post_draw(w: SystemWidget) -> SystemWidget {
    if w.invalidated_spec() {
        w.after_draw()
    } else {
        w
    }
}

/// Whether any widget in `s` needs a redraw.
pub open spec fn any_invalidated(s: Seq<SystemWidget>) -> bool {
    exists|i: int| 0 <= i < s.len() && (#[trigger] s[i]).invalidated_spec()
}

/// The op that composites widget `i`'s texture onto the window at the
/// widget's origin and size.
pub open spec fn window_blit_op(w: SystemWidget, i: int) -> RenderOp {
    RenderOp {
        target: RenderTarget::Window,
        command: DrawCommand::Blit(
            TextureSlot { widget: i as u32, layer: 0 },
            Rect {
                x: w.origin_spec().x,
                y: w.origin_spec().y,
                w: w.size_spec().w,
                h: w.size_spec().h,
            },
        ),
    }
}

/// The ops the draw loop produces for widget `i`: its draw plan followed
/// by the composite onto the window, or nothing if it is not invalidated.
pub open spec fn widget_draw_ops(w: SystemWidget, i: int) -> Seq<RenderOp> {
    if w.invalidated_spec() {
        w.draw_plan(TextureSlot { widget: i as u32, layer: 0 }) + seq![window_blit_op(w, i)]
    } else {
        Seq::empty()
    }
}

/// The ops the draw loop produces for the first `n` widgets of `s`, in
/// insertion order.
pub open spec fn draw_loop_ops(s: Seq<SystemWidget>, n: int) -> Seq<RenderOp>
    decreases n,
{
    if n <= 0 {
        Seq::empty()
    } else {
        draw_loop_ops(s, n - 1) + widget_draw_ops(s[n - 1], n - 1)
    }
}

/// Contains a list of the widgets under management, in insertion order,
/// and the index of the widget currently under the pointer.
pub struct WidgetCache {
    /// The widgets, identified by their index; index 0 is the full-window
    /// background widget the engine registers at construction.
    pub cache: Vec<SystemWidget>,
    /// The index of the widget the pointer is currently over.
    pub current_widget_id: u32,
}

impl WidgetCache {
    /// A cache fit for dispatch: non-empty (index 0 must exist for the hit
    /// test's fallback), small enough for its indices, its current widget
    /// in bounds, and every widget well-formed.
    pub open spec fn wf(&self) -> bool {
        &&& 1 <= self.cache@.len() <= i32::MAX
        &&& (self.current_widget_id as int) < self.cache@.len()
        &&& forall|i: int| 0 <= i < self.cache@.len() ==> (#[trigger] self.cache@[i]).wf()
    }

    /// Creates a new, empty `WidgetCache`.
    pub fn new() -> (r: WidgetCache)
        ensures
            r.cache@.len() == 0,
            r.current_widget_id == 0,
    {
        WidgetCache { cache: Vec::new(), current_widget_id: 0 }
    }

    /// Adds a widget to the cache, returning its id: the index it was
    /// inserted at, which identifies it from then on.
    pub fn add(&mut self, widget: SystemWidget) -> (r: i32)
        requires
            old(self).cache@.len() < i32::MAX,
        ensures
            final(self).cache@ == old(self).cache@.push(widget),
            final(self).current_widget_id == old(self).current_widget_id,
            r == old(self).cache@.len(),
            old(self).wf() && widget.wf() ==> final(self).wf(),
    {
        self.cache.push(widget);
        (self.cache.len() - 1) as i32
    }

    /// Retrieves a reference to the widget with id `widget`, or `None` if
    /// no widget has that id.
    pub fn get(&self, widget: i32) -> (r: Option<&SystemWidget>)
        ensures
            r is Some <==> 0 <= widget < self.cache@.len(),
            r matches Some(w) ==> *w == self.cache@[widget as int],
    {
        if widget >= 0 && (widget as usize) < self.cache.len() {
            Some(&self.cache[widget as usize])
        } else {
            None
        }
    }

    /// Retrieves the id of the widget currently under the pointer.
    pub fn get_current_widget(&self) -> (r: u32)
        ensures
            r == self.current_widget_id,
    {
        self.current_widget_id
    }

    /// Returns the id of the top-most widget at `(x, y)`: the last widget
    /// in insertion order whose bounds contain the point — later
    /// insertions win on overlap — or 0 if none does.
    pub fn get_widget_id(&self, x: i64, y: i64) -> (r: u32)
        requires
            self.wf(),
        ensures
            r as int == hit_index(self.cache@, x as int, y as int),
            r < self.cache@.len(),
    {
        proof {
            lemma_hit_index_last_wins(self.cache@, x as int, y as int);
        }
        let ghost s = self.cache@;
        let cache_size = self.cache.len();
        let mut widget_id: u32 = 0;
        let mut i: usize = 0;
        while i < cache_size
            invariant
                self.wf(),
                s == self.cache@,
                cache_size == s.len(),
                i <= cache_size,
                widget_id as int == hit_index(s.take(i as int), x as int, y as int),
            decreases cache_size - i,
        {
            let w = &self.cache[i];
            let origin = w.get_origin();
            let sz = w.get_size();
            let start_x = origin.x as i64;
            let start_y = origin.y as i64;
            let end_x = start_x + sz.w as i64;
            let end_y = start_y + sz.h as i64;
            if x >= start_x && x <= end_x && y >= start_y && y <= end_y {
                widget_id = i as u32;
            }
            proof {
                assert(s.take(i + 1).drop_last() =~= s.take(i as int));
                assert(s.take(i + 1).last() == s[i as int]);
            }
            i = i + 1;
        }
        proof {
            assert(s.take(cache_size as int) =~= s);
        }
        widget_id
    }

    /// Delivers `event` to the widget with id `widget_id` and returns the
    /// events the widget generated in response.
    fn send_and_receive_event_to_widget(&self, widget_id: u32, event: &PushrodEvent) -> (r: Vec<
        PushrodEvent,
    >)
        requires
            widget_id < self.cache@.len(),
        ensures
            r@ == self.cache@[widget_id as int].responses(*event),
    {
        self.cache[widget_id as usize].handle_event(event)
    }

    /// Handles one raw event from the engine.
    ///
    /// A pointer-motion sample is hit-tested; if the widget under the
    /// pointer changed, the bounds-exited and bounds-entered notifications
    /// are delivered to the widgets that lost and gained it, and both
    /// notifications and all responses appear in the returned list, in
    /// delivery order.  The motion event itself — and any pointer-button
    /// event — is delivered to the widget under the point, translated into
    /// its local coordinate space.  Quit and unrecognised events produce
    /// nothing.  Widget state is never changed here: only the record of
    /// which widget is current moves.
    pub fn handle_event(&mut self, event: &InputEvent) -> (r: Vec<PushrodEvent>)
        requires
            old(self).wf(),
            coords_in_range(*event),
        ensures
            final(self).cache@ == old(self).cache@,
            final(self).wf(),
            final(self).current_widget_id == current_after(
                old(self).cache@,
                old(self).current_widget_id,
                *event,
            ),
            r@ == output_for(old(self).cache@, old(self).current_widget_id, *event),
    {
        let mut return_vector: Vec<PushrodEvent> = Vec::new();
        match event {
            InputEvent::MouseMotion { x, y, xrel, yrel } => {
                let previous_widget_id = self.current_widget_id;
                let new_widget_id = self.get_widget_id(*x, *y);
                self.current_widget_id = new_widget_id;

                if new_widget_id != previous_widget_id {
                    let exit_ev = PushrodEvent::BoundsExited {
                        exited: previous_widget_id,
                        entered: new_widget_id,
                    };
                    return_vector.push(exit_ev);
                    let mut exit_responses = self.send_and_receive_event_to_widget(
                        previous_widget_id,
                        &exit_ev,
                    );
                    return_vector.append(&mut exit_responses);

                    let enter_ev = PushrodEvent::BoundsEntered {
                        exited: previous_widget_id,
                        entered: new_widget_id,
                    };
                    return_vector.push(enter_ev);
                    let mut enter_responses = self.send_and_receive_event_to_widget(
                        new_widget_id,
                        &enter_ev,
                    );
                    return_vector.append(&mut enter_responses);
                }

                let origin = self.cache[new_widget_id as usize].get_origin();
                let routed_ev = PushrodEvent::SystemEvent {
                    id: new_widget_id,
                    event: InputEvent::MouseMotion {
                        x: *x - origin.x as i64,
                        y: *y - origin.y as i64,
                        xrel: *xrel,
                        yrel: *yrel,
                    },
                };
                let mut routed_responses = self.send_and_receive_event_to_widget(
                    new_widget_id,
                    &routed_ev,
                );
                return_vector.append(&mut routed_responses);
                proof {
                    assert(return_vector@ =~= motion_output(
                        old(self).cache@,
                        old(self).current_widget_id,
                        *event,
                        *x as int,
                        *y as int,
                    ));
                }
            },
            InputEvent::MouseButtonDown { button, clicks, x, y } => {
                let hit = self.get_widget_id(*x, *y);
                let origin = self.cache[hit as usize].get_origin();
                let routed_ev = PushrodEvent::SystemEvent {
                    id: hit,
                    event: InputEvent::MouseButtonDown {
                        button: *button,
                        clicks: *clicks,
                        x: *x - origin.x as i64,
                        y: *y - origin.y as i64,
                    },
                };
                let mut routed_responses = self.send_and_receive_event_to_widget(hit, &routed_ev);
                return_vector.append(&mut routed_responses);
            },
            InputEvent::MouseButtonUp { button, clicks, x, y } => {
                let hit = self.get_widget_id(*x, *y);
                let origin = self.cache[hit as usize].get_origin();
                let routed_ev = PushrodEvent::SystemEvent {
                    id: hit,
                    event: InputEvent::MouseButtonUp {
                        button: *button,
                        clicks: *clicks,
                        x: *x - origin.x as i64,
                        y: *y - origin.y as i64,
                    },
                };
                let mut routed_responses = self.send_and_receive_event_to_widget(hit, &routed_ev);
                return_vector.append(&mut routed_responses);
            },
            _ => {},
        }
        return_vector
    }

    /// Redraws one invalidated widget: produces its draw plan — the
    /// widget's own `draw` clears its invalidation flags — and composites
    /// its texture onto the window at its origin and size.
    fn draw(&mut self, widget_id: u32) -> (r: Vec<RenderOp>)
        requires
            old(self).wf(),
            widget_id < old(self).cache@.len(),
            old(self).cache@[widget_id as int].invalidated_spec(),
        ensures
            final(self).cache@ == old(self).cache@.update(
                widget_id as int,
                widget_post_draw(old(self).cache@[widget_id as int]),
            ),
            final(self).current_widget_id == old(self).current_widget_id,
            r@ == widget_draw_ops(old(self).cache@[widget_id as int], widget_id as int),
            final(self).wf(),
    {
        let slot = TextureSlot::new(widget_id, 0);
        let widget = vstd::std_specs::vec::vec_index_mut(&mut self.cache, widget_id as usize);
        let widget_origin = widget.get_origin();
        let widget_size = widget.get_size();
        let (texture, mut ops) = widget.draw(slot);
        match texture {
            Some(_) => {
                ops.push(op_on_window(DrawCommand::Blit(
                    slot,
                    crate::geometry::make_rect(widget_origin, widget_size),
                )));
            },
            None => {
                proof {
                    assert(false);
                }
            },
        }
        ops
    }

    /// The main draw loop: walks the cache in insertion order, redraws
    /// every invalidated widget and composites it onto the window, and
    /// reports whether anything was drawn — `false` means the frame need
    /// not be presented.
    pub fn draw_loop(&mut self) -> (r: (bool, Vec<RenderOp>))
        requires
            old(self).wf(),
        ensures
            final(self).wf(),
            final(self).current_widget_id == old(self).current_widget_id,
            final(self).cache@.len() == old(self).cache@.len(),
            forall|i: int|
                0 <= i < old(self).cache@.len() ==> final(self).cache@[i] == widget_post_draw(
                    #[trigger] old(self).cache@[i],
                ),
            forall|i: int|
                0 <= i < final(self).cache@.len() ==> !(#[trigger] final(self).cache@[i]).invalidated_spec(),
            r.0 == any_invalidated(old(self).cache@),
            r.1@ == draw_loop_ops(old(self).cache@, old(self).cache@.len() as int),
            !any_invalidated(old(self).cache@) ==> final(self).cache@ == old(self).cache@
                && r.1@.len() == 0 && !r.0,
    {
        let ghost s = self.cache@;
        let mut ops: Vec<RenderOp> = Vec::new();
        let mut invalidated = false;
        let cache_size = self.cache.len();
        let mut i: usize = 0;
        while i < cache_size
            invariant
                self.wf(),
                cache_size == s.len(),
                self.cache@.len() == s.len(),
                self.current_widget_id == old(self).current_widget_id,
                i <= cache_size,
                forall|j: int| 0 <= j < i ==> self.cache@[j] == widget_post_draw(#[trigger] s[j]),
                forall|j: int| i <= j < s.len() ==> self.cache@[j] == #[trigger] s[j],
                invalidated == any_invalidated(s.take(i as int)),
                ops@ == draw_loop_ops(s, i as int),
            decreases cache_size - i,
        {
            let is_inv = self.cache[i].is_invalidated();
            if is_inv {
                invalidated = true;
                let mut widget_ops = self.draw(i as u32);
                ops.append(&mut widget_ops);
            }
            proof {
                assert(s.take(i + 1).drop_last() =~= s.take(i as int));
                assert(s.take(i + 1).last() == s[i as int]);
                if !is_inv {
                    assert(widget_post_draw(s[i as int]) == s[i as int]);
                }
            }
            i = i + 1;
        }
        proof {
            assert(s.take(cache_size as int) =~= s);
            assert forall|i: int|
                0 <= i < self.cache@.len() implies !(#[trigger] self.cache@[i]).invalidated_spec() by {
                lemma_post_draw_settled(s[i]);
            }
            if !any_invalidated(s) {
                assert(self.cache@ =~= s);
                lemma_draw_loop_ops_settled(s, cache_size as int);
            }
        }
        (invalidated, ops)
    }
}

impl Default for WidgetCache {
    /// Same as [`WidgetCache::new`]: empty, with widget 0 current.
    fn default() -> (r: WidgetCache)
        ensures
            r.cache@.len() == 0,
            r.current_widget_id == 0,
    {
        WidgetCache::new()
    }
}

/// No widget the draw loop has settled needs a redraw, so running the
/// draw loop again right away draws nothing, produces no ops, and reports
/// that the frame need not be presented.
pub proof fn lemma_draw_loop_idempotent(s: Seq<SystemWidget>)
    ensures
        forall|i: int|
            0 <= i < s.len() ==> !widget_post_draw(#[trigger] s[i]).invalidated_spec(),
        !any_invalidated(Seq::new(s.len(), |i: int| widget_post_draw(s[i]))),
        draw_loop_ops(Seq::new(s.len(), |i: int| widget_post_draw(s[i])), s.len() as int)
            =~= Seq::<RenderOp>::empty(),
{
    assert forall|i: int| 0 <= i < s.len() implies !widget_post_draw(
        #[trigger] s[i],
    ).invalidated_spec() by {
        lemma_post_draw_settled(s[i]);
    }
    lemma_draw_loop_ops_settled(Seq::new(s.len(), |i: int| widget_post_draw(s[i])), s.len() as int);
}

/// A widget the draw loop has handled is no longer invalidated.
pub proof fn lemma_post_draw_settled(w: SystemWidget)
    ensures
        !widget_post_draw(w).invalidated_spec(),
{
}

/// The draw loop produces no ops over widgets none of which is
/// invalidated.
pub proof fn lemma_draw_loop_ops_settled(s: Seq<SystemWidget>, n: int)
    requires
        n <= s.len(),
        forall|i: int| 0 <= i < s.len() ==> !(#[trigger] s[i]).invalidated_spec(),
    ensures
        draw_loop_ops(s, n) =~= Seq::<RenderOp>::empty(),
    decreases n,
{
    if n > 0 {
        lemma_draw_loop_ops_settled(s, n - 1);
    }
}

} // verus!
