//! Cache behaviour: hit testing, bounds-change dispatch, the draw loop.

use pushrod::base_widget::BaseWidget;
use pushrod::box_widget::BoxWidget;
use pushrod::button_widget::ButtonWidget;
use pushrod::cache::WidgetCache;
use pushrod::event::{InputEvent, PushrodEvent};
use pushrod::geometry::{point, size};
use pushrod::render::{Color, DrawCommand, FontStyle, RenderTarget};
use pushrod::text_widget::TextJustify;
use pushrod::widget::{SystemWidget, Widget};

fn base(x: i32, y: i32, w: u32, h: u32) -> SystemWidget {
    SystemWidget::Base(BaseWidget::new(point(x, y), size(w, h)))
}

#[test]
fn add_assigns_sequential_ids() {
    let mut cache = WidgetCache::new();
    assert_eq!(cache.add(base(0, 0, 10, 10)), 0);
    assert_eq!(cache.add(base(5, 5, 10, 10)), 1);
    assert_eq!(cache.get_current_widget(), 0);
}

#[test]
fn get_is_a_fallible_lookup() {
    let mut cache = WidgetCache::new();
    cache.add(base(0, 0, 10, 10));
    assert!(cache.get(0).is_some());
    assert!(cache.get(1).is_none());
    assert!(cache.get(-1).is_none());
    assert_eq!(cache.get(0).unwrap().get_size(), size(10, 10));
}

#[test]
fn hit_test_last_inserted_wins_on_overlap() {
    let mut cache = WidgetCache::new();
    cache.add(base(0, 0, 10, 10));
    cache.add(base(5, 5, 10, 10));
    // (7, 7) is inside both; the later insertion wins.
    assert_eq!(cache.get_widget_id(7, 7), 1);
    // (20, 20) is inside neither; the background id 0 is returned.
    assert_eq!(cache.get_widget_id(20, 20), 0);
    // Bounds are inclusive on all edges.
    assert_eq!(cache.get_widget_id(15, 15), 1);
    assert_eq!(cache.get_widget_id(16, 15), 0);
    // (3, 3) is only inside the first widget.
    assert_eq!(cache.get_widget_id(3, 3), 0);
}

fn motion(x: i64, y: i64) -> InputEvent {
    InputEvent::MouseMotion { x, y, xrel: 0, yrel: 0 }
}

#[test]
fn bounds_change_fires_exactly_once_per_transition() {
    let mut cache = WidgetCache::new();
    cache.add(base(0, 0, 100, 100)); // background, id 0
    cache.add(base(10, 10, 20, 20)); // id 1
    cache.add(base(50, 50, 20, 20)); // id 2

    // Move into widget 1: exited 0, entered 1, in that order.
    let events = cache.handle_event(&motion(15, 15));
    assert_eq!(
        events,
        vec![
            PushrodEvent::BoundsExited { exited: 0, entered: 1 },
            PushrodEvent::BoundsEntered { exited: 0, entered: 1 },
        ]
    );
    assert_eq!(cache.get_current_widget(), 1);

    // Move within widget 1: no bounds notifications at all.
    let events = cache.handle_event(&motion(20, 20));
    assert!(events.is_empty());
    assert_eq!(cache.get_current_widget(), 1);

    // Move from widget 1 to widget 2: exited then entered, once each.
    let events = cache.handle_event(&motion(55, 60));
    assert_eq!(
        events,
        vec![
            PushrodEvent::BoundsExited { exited: 1, entered: 2 },
            PushrodEvent::BoundsEntered { exited: 1, entered: 2 },
        ]
    );
    assert_eq!(cache.get_current_widget(), 2);
}

#[test]
fn button_release_is_routed_and_translated() {
    let mut cache = WidgetCache::new();
    cache.add(base(0, 0, 200, 200));
    cache.add(SystemWidget::Button(ButtonWidget::new(
        point(40, 160),
        size(140, 60),
        String::from("font.ttf"),
        FontStyle::normal(),
        16,
        Color::rgb(0, 0, 0),
        TextJustify::Center,
        String::from("OK"),
        1,
    )));
    let events = cache.handle_event(&InputEvent::MouseButtonUp {
        button: 1,
        clicks: 1,
        x: 50,
        y: 170,
    });
    assert_eq!(events, vec![PushrodEvent::Clicked { id: 1, clicks: 1 }]);
    // A release outside every widget goes to the background, which stays
    // silent.
    let events = cache.handle_event(&InputEvent::MouseButtonUp {
        button: 1,
        clicks: 1,
        x: 500,
        y: 500,
    });
    assert!(events.is_empty());
}

#[test]
fn draw_loop_draws_only_invalidated_widgets() {
    let mut cache = WidgetCache::new();
    cache.add(base(0, 0, 100, 100));
    cache.add(SystemWidget::Box(BoxWidget::new(point(10, 10), size(40, 40), Color::rgb(0, 0, 255), 2)));

    let (drawn, ops) = cache.draw_loop();
    assert!(drawn);
    assert!(!ops.is_empty());
    // Each drawn widget's texture is composited onto the window at the
    // widget's origin and size.
    let window_blits: Vec<_> = ops
        .iter()
        .filter(|op| {
            op.target == RenderTarget::Window && matches!(op.command, DrawCommand::Blit(_, _))
        })
        .collect();
    assert_eq!(window_blits.len(), 2);
}

#[test]
fn draw_loop_twice_reports_nothing_to_redraw() {
    let mut cache = WidgetCache::new();
    cache.add(base(0, 0, 100, 100));
    cache.add(SystemWidget::Box(BoxWidget::new(point(10, 10), size(40, 40), Color::rgb(0, 0, 255), 2)));

    let (drawn, _) = cache.draw_loop();
    assert!(drawn);
    // Nothing changed in between: the second run invalidates nothing,
    // produces no ops, and reports that no present is needed.
    let (drawn_again, ops_again) = cache.draw_loop();
    assert!(!drawn_again);
    assert!(ops_again.is_empty());
}

#[test]
fn draw_loop_redraws_after_a_change() {
    let mut cache = WidgetCache::new();
    cache.add(base(0, 0, 100, 100));
    let (drawn, _) = cache.draw_loop();
    assert!(drawn);
    let (drawn, _) = cache.draw_loop();
    assert!(!drawn);

    // Invalidate widget 0 again by hand; the loop picks it back up.
    if let Some(_w) = cache.get(0) {
        // The cache owns its widgets; mutate through the public field.
        cache.cache[0].set_invalidated(true);
    }
    let (drawn, ops) = cache.draw_loop();
    assert!(drawn);
    assert!(!ops.is_empty());
}
