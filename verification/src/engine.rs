//! The engine: the state the run loop revolves around.
//!
//! The engine owns the widget cache, the running flag and the frame-rate
//! target.  The host drives it: it drains raw events from its event pump
//! and hands each to [`Engine::dispatch_event`], forwards the returned
//! application events to the registered handler, asks
//! [`Engine::next_frame`] for the frame's render ops, replays them on its
//! canvas — presenting only when something was drawn — and sleeps the rest
//! of the frame budget, as [`frame_sleep_ms`] computes it.

use vstd::prelude::*;
use crate::base_widget::BaseWidget;
use crate::cache::{WidgetCache, any_invalidated, coords_in_range, current_after, draw_loop_ops,
    output_for, widget_post_draw};
use crate::event::{EventHandler, InputEvent, PushrodEvent};
use crate::geometry::{Point, Size};
use crate::render::{Color, DrawCommand, RenderOp, RenderTarget, op_on_window};
use crate::widget::{SystemWidget, Widget};

verus! {

/// The frame budget in milliseconds for a target frame rate: the whole
/// part of `1000 / frame_rate`.
pub fn frame_budget_ms(frame_rate: u32) -> (r: u64)
    requires
        frame_rate >= 1,
    ensures
        r == 1000 as int / frame_rate as int,
{
    1000u64 / (frame_rate as u64)
}

/// How long to sleep after an iteration that took `elapsed_ms` of a
/// `budget_ms` frame budget: the remainder of the budget, or nothing at
/// all if the iteration already exceeded it — a slow frame is not
/// punished further, the next frame simply starts late.
pub fn frame_sleep_ms(budget_ms: u64, elapsed_ms: u64) -> (r: u64)
    ensures
        elapsed_ms < budget_ms ==> r == budget_ms - elapsed_ms,
        elapsed_ms >= budget_ms ==> r == 0,
{
    if elapsed_ms < budget_ms {
        budget_ms - elapsed_ms
    } else {
        0
    }
}

/// The ops that open every frame: paint the whole window white.
pub open spec fn frame_clear_ops() -> Seq<RenderOp> {
    seq![
        RenderOp {
            target: RenderTarget::Window,
            command: DrawCommand::SetDrawColor(Color { r: 255u8, g: 255u8, b: 255u8, a: 255u8 }),
        },
        RenderOp { target: RenderTarget::Window, command: DrawCommand::Clear },
    ]
}

/// Owns the target frame rate, the window size, the running flag, the
/// widget cache, and the application's event handler, if one was
/// registered.
pub struct Engine {
    /// The display refresh target, in frames per second.
    pub frame_rate: u32,
    /// The size of the window the engine draws into.
    pub size: Size,
    /// Cooperative-cancellation flag: `run` loops while this holds.
    pub running: bool,
    /// The widgets under management.
    pub widget_cache: WidgetCache,
    /// Receives the application events each frame generates.
    pub event_handler: Option<Box<dyn EventHandler>>,
}

impl Engine {
    /// An engine fit to drive: a positive frame rate and a well-formed,
    /// non-empty widget cache.
    pub open spec fn wf(&self) -> bool {
        &&& self.frame_rate >= 1
        &&& self.widget_cache.wf()
    }

    /// Creates a new engine for a window of the given size, refreshing at
    /// `frame_rate` frames per second.  The full-window background widget
    /// — id 0, opaque white — is registered here.
    pub fn new(size: Size, frame_rate: u32) -> (r: Engine)
        requires
            frame_rate >= 1,
        ensures
            r.frame_rate == frame_rate,
            r.size == size,
            r.running,
            r.event_handler is None,
            r.widget_cache.cache@.len() == 1,
            r.widget_cache.current_widget_id == 0,
            r.widget_cache.cache@[0] == SystemWidget::Base(BaseWidget {
                origin: Point { x: 0, y: 0 },
                size,
                base_color: Color { r: 255u8, g: 255u8, b: 255u8, a: 255u8 },
                invalidated: true,
                texture: crate::texture::TextureStore {
                    allocated: false,
                    size: Size { w: 0, h: 0 },
                    invalidated: false,
                },
            }),
            r.wf(),
    {
        let mut widget_cache = WidgetCache::new();
        let mut base_widget = BaseWidget::new(Point::new(0, 0), Size::new(size.w, size.h));
        base_widget.set_color(Color::rgba(255, 255, 255, 255));
        widget_cache.add(SystemWidget::Base(base_widget));
        Engine { frame_rate, size, running: true, widget_cache, event_handler: None }
    }

    /// Shuts down the running state, ending `run`'s loop at the end of
    /// the current iteration.
    pub fn shutdown(&mut self)
        ensures
            *final(self) == (Engine { running: false, ..*old(self) }),
    {
        self.running = false;
    }

    /// Whether the engine is still running.
    pub fn is_running(&self) -> (r: bool)
        ensures
            r == self.running,
    {
        self.running
    }

    /// Adds a widget to the user interface, returning its id.
    pub fn add_widget(&mut self, widget: SystemWidget) -> (r: i32)
        requires
            old(self).widget_cache.cache@.len() < i32::MAX,
        ensures
            final(self).widget_cache.cache@ == old(self).widget_cache.cache@.push(widget),
            final(self).widget_cache.current_widget_id == old(self).widget_cache.current_widget_id,
            r == old(self).widget_cache.cache@.len(),
            final(self).running == old(self).running,
            final(self).frame_rate == old(self).frame_rate,
            final(self).size == old(self).size,
            old(self).wf() && widget.wf() ==> final(self).wf(),
    {
        self.widget_cache.add(widget)
    }

    /// Registers the handler that receives the application events the
    /// widgets generate.
    pub fn add_event_handler(&mut self, handler: Box<dyn EventHandler>)
        ensures
            final(self).event_handler is Some,
            final(self).frame_rate == old(self).frame_rate,
            final(self).size == old(self).size,
            final(self).running == old(self).running,
            final(self).widget_cache == old(self).widget_cache,
    {
        self.event_handler = Some(handler);
    }

    /// Handles one raw event from the host's event pump.  A quit signal
    /// stops the engine at once; every other event goes to the widget
    /// cache, and the application events it produced are returned for the
    /// host to hand to the event handler.
    pub fn dispatch_event(&mut self, event: &InputEvent) -> (r: Vec<PushrodEvent>)
        requires
            old(self).wf(),
            coords_in_range(*event),
        ensures
            final(self).wf(),
            final(self).frame_rate == old(self).frame_rate,
            final(self).size == old(self).size,
            final(self).widget_cache.cache@ == old(self).widget_cache.cache@,
            *event is Quit ==> !final(self).running && r@ == Seq::<PushrodEvent>::empty()
                && final(self).widget_cache == old(self).widget_cache,
            !(*event is Quit) ==> {
                &&& final(self).running == old(self).running
                &&& final(self).widget_cache.current_widget_id == current_after(
                    old(self).widget_cache.cache@,
                    old(self).widget_cache.current_widget_id,
                    *event,
                )
                &&& r@ == output_for(
                    old(self).widget_cache.cache@,
                    old(self).widget_cache.current_widget_id,
                    *event,
                )
            },
    {
        match event {
            InputEvent::Quit => {
                self.running = false;
                Vec::new()
            },
            _ => self.widget_cache.handle_event(event),
        }
    }

    /// Produces one frame: the ops that clear the window to white
    /// followed by the cache's draw loop, and whether anything was drawn —
    /// the host presents the canvas only if so.
    pub fn next_frame(&mut self) -> (r: (bool, Vec<RenderOp>))
        requires
            old(self).wf(),
        ensures
            final(self).wf(),
            final(self).frame_rate == old(self).frame_rate,
            final(self).size == old(self).size,
            final(self).running == old(self).running,
            final(self).widget_cache.current_widget_id == old(self).widget_cache.current_widget_id,
            final(self).widget_cache.cache@.len() == old(self).widget_cache.cache@.len(),
            forall|i: int|
                0 <= i < old(self).widget_cache.cache@.len()
                    ==> final(self).widget_cache.cache@[i] == widget_post_draw(
                    #[trigger] old(self).widget_cache.cache@[i],
                ),
            r.0 == any_invalidated(old(self).widget_cache.cache@),
            r.1@ == frame_clear_ops() + draw_loop_ops(
                old(self).widget_cache.cache@,
                old(self).widget_cache.cache@.len() as int,
            ),
    {
        let mut ops: Vec<RenderOp> = Vec::new();
        ops.push(op_on_window(DrawCommand::SetDrawColor(Color::rgba(255, 255, 255, 255))));
        ops.push(op_on_window(DrawCommand::Clear));
        let (drawn, mut loop_ops) = self.widget_cache.draw_loop();
        ops.append(&mut loop_ops);
        proof {
            assert(ops@ =~= frame_clear_ops() + draw_loop_ops(
                old(self).widget_cache.cache@,
                old(self).widget_cache.cache@.len() as int,
            ));
        }
        (drawn, ops)
    }
}

} // verus!
