//! Engine behaviour: construction, dispatch, frame planning and pacing.

use pushrod::base_widget::BaseWidget;
use pushrod::engine::{Engine, frame_budget_ms, frame_sleep_ms};
use pushrod::event::{EventHandler, InputEvent, PushrodEvent};
use pushrod::geometry::{point, size};
use pushrod::box_widget::BoxWidget;
use pushrod::render::{Color, DrawCommand, FontStyle, RenderTarget};
use pushrod::text_widget::{TextJustify, TextWidget};
use pushrod::widget::{SystemWidget, Widget};

#[test]
fn new_engine_registers_background_widget() {
    let engine = Engine::new(size(800, 600), 30);
    assert!(engine.is_running());
    let background = engine.widget_cache.get(0).unwrap();
    assert_eq!(background.get_origin(), point(0, 0));
    assert_eq!(background.get_size(), size(800, 600));
    assert_eq!(background.get_color(), Color::rgba(255, 255, 255, 255));
    assert!(engine.widget_cache.get(1).is_none());
}

#[test]
fn add_widget_returns_sequential_ids() {
    let mut engine = Engine::new(size(800, 600), 30);
    let mut w = BaseWidget::new(point(20, 20), size(760, 560));
    w.set_color(Color::rgba(127, 127, 127, 255));
    let id = engine.add_widget(SystemWidget::Base(w));
    assert_eq!(id, 1);
    let id2 = engine.add_widget(SystemWidget::Base(BaseWidget::new(point(0, 0), size(5, 5))));
    assert_eq!(id2, 2);
}

#[test]
fn quit_signal_stops_the_engine() {
    let mut engine = Engine::new(size(800, 600), 30);
    assert!(engine.is_running());
    let events = engine.dispatch_event(&InputEvent::Quit);
    assert!(events.is_empty());
    assert!(!engine.is_running());
}

#[test]
fn shutdown_stops_the_engine() {
    let mut engine = Engine::new(size(800, 600), 30);
    engine.shutdown();
    assert!(!engine.is_running());
}

#[test]
fn dispatch_forwards_to_the_cache() {
    let mut engine = Engine::new(size(800, 600), 30);
    engine.add_widget(SystemWidget::Base(BaseWidget::new(point(10, 10), size(50, 50))));
    let events = engine.dispatch_event(&InputEvent::MouseMotion {
        x: 20,
        y: 20,
        xrel: 1,
        yrel: 1,
    });
    assert_eq!(
        events,
        vec![
            PushrodEvent::BoundsExited { exited: 0, entered: 1 },
            PushrodEvent::BoundsEntered { exited: 0, entered: 1 },
        ]
    );
    assert_eq!(engine.widget_cache.get_current_widget(), 1);
    assert!(engine.is_running());
}

struct CountingHandler {
    seen: usize,
}

impl EventHandler for CountingHandler {
    fn process_event(&mut self, events: &Vec<PushrodEvent>) {
        self.seen += events.len();
    }
}

#[test]
fn event_handler_registration() {
    let mut engine = Engine::new(size(800, 600), 30);
    assert!(engine.event_handler.is_none());
    engine.add_event_handler(Box::new(CountingHandler { seen: 0 }));
    assert!(engine.event_handler.is_some());
    // The host hands each non-empty batch to the handler.
    let events = engine.dispatch_event(&InputEvent::Quit);
    if !events.is_empty() {
        if let Some(handler) = engine.event_handler.as_mut() {
            handler.process_event(&events);
        }
    }
}

#[test]
fn next_frame_clears_draws_and_reports() {
    let mut engine = Engine::new(size(800, 600), 30);
    let (present, ops) = engine.next_frame();
    assert!(present);
    // The frame opens by painting the window white.
    assert_eq!(ops[0].target, RenderTarget::Window);
    assert_eq!(ops[0].command, DrawCommand::SetDrawColor(Color::rgba(255, 255, 255, 255)));
    assert_eq!(ops[1].command, DrawCommand::Clear);
    // The background widget was drawn and composited.
    assert!(ops.iter().any(|op| {
        op.target == RenderTarget::Window && matches!(op.command, DrawCommand::Blit(_, _))
    }));

    // An unchanged second frame needs no present.
    let (present, ops) = engine.next_frame();
    assert!(!present);
    assert_eq!(ops.len(), 2);
}

#[test]
fn a_small_user_interface_runs_through_a_frame() {
    let mut engine = Engine::new(size(800, 600), 30);

    let mut base = BaseWidget::new(point(20, 20), size(760, 560));
    base.set_color(Color::rgba(127, 127, 127, 255));
    assert_eq!(engine.add_widget(SystemWidget::Base(base)), 1);

    let text = TextWidget::new(
        point(24, 24),
        size(300, 40),
        String::from("assets/OpenSans-Regular.ttf"),
        FontStyle::normal(),
        28,
        Color::rgb(0, 0, 0),
        TextJustify::Left,
        String::from("Welcome"),
    );
    assert_eq!(engine.add_widget(SystemWidget::Text(text)), 2);

    let mut blue_box = BoxWidget::new(point(40, 80), size(100, 100), Color::rgb(0, 0, 255), 3);
    blue_box.set_color(Color::rgb(0, 255, 255));
    assert_eq!(engine.add_widget(SystemWidget::Box(blue_box)), 3);

    // The first frame draws all four widgets and wants a present.
    let (present, ops) = engine.next_frame();
    assert!(present);
    let window_blits = ops
        .iter()
        .filter(|op| {
            op.target == RenderTarget::Window && matches!(op.command, DrawCommand::Blit(_, _))
        })
        .count();
    assert_eq!(window_blits, 4);

    // A quiet second frame needs none.
    let (present, _) = engine.next_frame();
    assert!(!present);

    // The pointer wanders into the box: the application hears about it.
    let events = engine.dispatch_event(&InputEvent::MouseMotion {
        x: 50,
        y: 90,
        xrel: 0,
        yrel: 0,
    });
    assert_eq!(
        events,
        vec![
            PushrodEvent::BoundsExited { exited: 0, entered: 3 },
            PushrodEvent::BoundsEntered { exited: 0, entered: 3 },
        ]
    );
    assert_eq!(engine.widget_cache.get_current_widget(), 3);

    // Nothing was invalidated by moving the pointer; still a quiet frame.
    let (present, _) = engine.next_frame();
    assert!(!present);
}

#[test]
fn frame_pacing_sleeps_the_rest_of_the_budget() {
    // A target rate of 30 gives a 33 ms budget; a 10 ms iteration leaves
    // 23 ms to sleep.
    let budget = frame_budget_ms(30);
    assert_eq!(budget, 33);
    assert_eq!(frame_sleep_ms(budget, 10), 23);
    // An iteration over budget proceeds immediately.
    assert_eq!(frame_sleep_ms(budget, 33), 0);
    assert_eq!(frame_sleep_ms(budget, 100), 0);
    // Other common rates.
    assert_eq!(frame_budget_ms(60), 16);
    assert_eq!(frame_budget_ms(120), 8);
    assert_eq!(frame_budget_ms(1000), 1);
}
