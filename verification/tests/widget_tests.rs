//! Widget behaviour: invalidation, draw plans, borders, text justification.

use pushrod::base_widget::BaseWidget;
use pushrod::box_widget::BoxWidget;
use pushrod::button_widget::ButtonWidget;
use pushrod::event::{InputEvent, PushrodEvent};
use pushrod::geometry::{Rect, point, size};
use pushrod::image_widget::ImageWidget;
use pushrod::render::{Color, DrawCommand, FontStyle, RenderOp, RenderTarget, TextureSlot};
use pushrod::text_widget::{TextJustify, TextWidget, text_offset};
use pushrod::widget::{SystemWidget, Widget};

fn outlines(ops: &[RenderOp]) -> Vec<Rect> {
    let mut found = Vec::new();
    for op in ops {
        if let DrawCommand::Outline(r) = &op.command {
            found.push(*r);
        }
    }
    found
}

#[test]
fn set_size_invalidates_and_propagates_base() {
    let mut w = BaseWidget::new(point(0, 0), size(10, 10));
    w.set_invalidated(false);
    assert!(!w.is_invalidated());
    w.set_size(size(25, 35));
    assert!(w.is_invalidated());
    assert_eq!(w.get_size(), size(25, 35));
}

#[test]
fn set_size_invalidates_and_propagates_box() {
    let mut w = BoxWidget::new(point(0, 0), size(40, 40), Color::rgb(0, 0, 255), 3);
    w.set_invalidated(false);
    w.set_size(size(60, 50));
    assert!(w.is_invalidated());
    assert_eq!(w.get_size(), size(60, 50));
    assert_eq!(w.base_widget.get_size(), size(60, 50));
    assert!(w.base_widget.is_invalidated());
}

#[test]
fn set_size_invalidates_and_propagates_button() {
    let mut w = ButtonWidget::new(
        point(0, 0),
        size(140, 60),
        String::from("assets/OpenSans-Regular.ttf"),
        FontStyle::normal(),
        28,
        Color::rgb(0, 0, 0),
        TextJustify::Center,
        String::from("Click Me"),
        2,
    );
    w.set_invalidated(false);
    w.set_size(size(200, 80));
    assert!(w.is_invalidated());
    assert_eq!(w.base_widget.get_size(), size(200, 80));
    assert_eq!(w.text_widget.get_size(), size(200, 80));
}

#[test]
fn set_color_invalidates() {
    let mut w = BoxWidget::new(point(0, 0), size(40, 40), Color::rgb(0, 0, 255), 3);
    w.set_invalidated(false);
    w.set_color(Color::rgb(0, 255, 255));
    assert!(w.is_invalidated());
    assert_eq!(w.get_color(), Color::rgb(0, 255, 255));
}

#[test]
fn draw_when_not_invalidated_reuses_texture() {
    let mut w = BaseWidget::new(point(0, 0), size(10, 10));
    let slot = TextureSlot::new(0, 0);
    let (first_ref, first_ops) = w.draw(slot);
    let first_ref = first_ref.unwrap();
    assert!(!first_ops.is_empty());
    // Drawing itself clears the invalidation flag.
    assert!(!w.is_invalidated());

    // Drawing again re-renders nothing and hands back the same reference.
    let (second_ref, second_ops) = w.draw(slot);
    assert_eq!(second_ops.len(), 0);
    assert_eq!(second_ref.unwrap(), first_ref);
}

#[test]
fn parent_redraw_reuses_sub_widget_textures() {
    let mut w = ButtonWidget::new(
        point(0, 0),
        size(100, 50),
        String::from("font.ttf"),
        FontStyle::normal(),
        16,
        Color::rgb(0, 0, 0),
        TextJustify::Center,
        String::from("OK"),
        2,
    );
    let slot = TextureSlot::new(5, 0);
    let (_, first_ops) = w.draw(slot);
    // The first draw rasterised the text and cleared every flag in the
    // subtree.
    assert!(first_ops.iter().any(|op| matches!(op.command, DrawCommand::BlitText(_))));
    assert!(!w.is_invalidated());
    assert!(!w.base_widget.is_invalidated());
    assert!(!w.text_widget.is_invalidated());

    // A change to the button alone redraws the button but re-uses the
    // sub-widgets' textures: no fresh rasterisation, no background fill.
    w.set_border_width(3);
    let (_, second_ops) = w.draw(slot);
    assert!(!second_ops.is_empty());
    assert!(!second_ops.iter().any(|op| matches!(op.command, DrawCommand::BlitText(_))));
    assert!(!second_ops.iter().any(|op| matches!(op.command, DrawCommand::Clear)));
    // The existing text texture is still composited in.
    assert!(second_ops.iter().any(|op| {
        matches!(op.command, DrawCommand::Blit(from, _) if from.layer == 2)
    }));
}

#[test]
fn base_draw_plan_fills_with_color() {
    let mut w = BaseWidget::new(point(0, 0), size(10, 10));
    w.set_color(Color::rgb(127, 127, 127));
    let slot = TextureSlot::new(2, 0);
    let (tex, ops) = w.draw(slot);
    assert_eq!(tex.unwrap().size, size(10, 10));
    assert_eq!(ops.len(), 3);
    assert_eq!(ops[0].target, RenderTarget::Texture(slot));
    assert_eq!(ops[0].command, DrawCommand::CreateTexture(size(10, 10)));
    assert_eq!(ops[1].command, DrawCommand::SetDrawColor(Color::rgb(127, 127, 127)));
    assert_eq!(ops[2].command, DrawCommand::Clear);
}

#[test]
fn border_draws_n_concentric_rectangles() {
    let mut w = BoxWidget::new(point(0, 0), size(100, 100), Color::rgb(255, 0, 0), 10);
    let slot = TextureSlot::new(1, 0);
    let (_, ops) = w.draw(slot);
    let rects = outlines(&ops);
    assert_eq!(rects.len(), 10);
    for (i, r) in rects.iter().enumerate() {
        let i = i as i32;
        assert_eq!(*r, Rect { x: i, y: i, w: 100 - 2 * i as u32, h: 100 - 2 * i as u32 });
    }
}

#[test]
fn zero_width_border_draws_no_rectangle() {
    let mut w = BoxWidget::new(point(0, 0), size(100, 100), Color::rgb(255, 0, 0), 0);
    let slot = TextureSlot::new(1, 0);
    let (tex, ops) = w.draw(slot);
    assert!(tex.is_some());
    assert_eq!(outlines(&ops).len(), 0);
    // The background is still drawn and composited in.
    assert!(ops.iter().any(|op| matches!(op.command, DrawCommand::Blit(_, _))));
}

#[test]
fn text_offset_justifies() {
    // Left sits at 0, right flush with the far edge, center halfway.
    assert_eq!(text_offset(TextJustify::Left, 100, 40), 0);
    assert_eq!(text_offset(TextJustify::Right, 100, 40), 60);
    assert_eq!(text_offset(TextJustify::Center, 100, 40), 30);
    // Text as wide as the widget sits at 0 under every justification.
    assert_eq!(text_offset(TextJustify::Left, 64, 64), 0);
    assert_eq!(text_offset(TextJustify::Right, 64, 64), 0);
    assert_eq!(text_offset(TextJustify::Center, 64, 64), 0);
    // Odd leftover space: the center offset is the whole half.
    assert_eq!(text_offset(TextJustify::Center, 11, 4), 3);
    // The offsets hold over the whole width range.
    assert_eq!(text_offset(TextJustify::Right, u32::MAX, 0), u32::MAX as i64);
    assert_eq!(text_offset(TextJustify::Center, u32::MAX, 1), (u32::MAX as i64 - 1) / 2);
}

#[test]
fn text_widget_draw_carries_request() {
    let mut w = TextWidget::new(
        point(24, 24),
        size(300, 40),
        String::from("assets/OpenSans-Regular.ttf"),
        FontStyle::normal(),
        28,
        Color::rgb(0, 0, 0),
        TextJustify::Left,
        String::from("Welcome"),
    );
    let slot = TextureSlot::new(3, 0);
    let (_, ops) = w.draw(slot);
    let req = ops
        .iter()
        .find_map(|op| {
            if let DrawCommand::BlitText(req) = &op.command {
                Some(req.clone())
            } else {
                None
            }
        })
        .unwrap();
    assert_eq!(req.font_name, "assets/OpenSans-Regular.ttf");
    assert_eq!(req.font_size, 28);
    assert_eq!(req.text, "Welcome");
    assert_eq!(req.wrap_width, 300);
    assert_eq!(req.widget_width, 300);
    assert_eq!(req.justify, TextJustify::Left);
    assert_eq!(req.color, Color::rgb(0, 0, 0));
}

#[test]
fn text_widget_set_text_invalidates() {
    let mut w = TextWidget::new(
        point(0, 0),
        size(100, 20),
        String::from("font.ttf"),
        FontStyle::normal(),
        12,
        Color::rgb(0, 0, 0),
        TextJustify::Left,
        String::from("before"),
    );
    w.set_invalidated(false);
    w.set_text(String::from("after"));
    assert!(w.is_invalidated());
    assert_eq!(w.get_text(), "after");
    // A font-colour change invalidates too, so the new colour renders.
    w.set_invalidated(false);
    w.set_font_color(Color::rgb(9, 9, 9));
    assert_eq!(w.get_font_color(), Color::rgb(9, 9, 9));
    assert!(w.is_invalidated());
}

#[test]
fn button_draw_layers_text_inside_border() {
    let mut w = ButtonWidget::new(
        point(0, 0),
        size(100, 50),
        String::from("font.ttf"),
        FontStyle::normal(),
        16,
        Color::rgb(0, 0, 0),
        TextJustify::Center,
        String::from("OK"),
        4,
    );
    assert_eq!(w.get_border_width(), 4);
    let slot = TextureSlot::new(5, 0);
    let (_, ops) = w.draw(slot);
    // The text texture lands inset one pixel past the border.
    let text_blit = ops
        .iter()
        .filter_map(|op| {
            if op.target != RenderTarget::Texture(slot) {
                return None;
            }
            if let DrawCommand::Blit(from, to) = &op.command {
                if from.layer == 2 {
                    return Some(*to);
                }
            }
            None
        })
        .next()
        .unwrap();
    assert_eq!(text_blit, Rect { x: 5, y: 5, w: 90, h: 40 });
    // The border is black and four rectangles deep.
    assert_eq!(outlines(&ops).len(), 4);
    assert!(ops.iter().any(|op| op.command == DrawCommand::SetDrawColor(Color::rgb(0, 0, 0))));
}

#[test]
fn button_click_generates_clicked_event() {
    let w = ButtonWidget::new(
        point(0, 0),
        size(100, 50),
        String::from("font.ttf"),
        FontStyle::normal(),
        16,
        Color::rgb(0, 0, 0),
        TextJustify::Center,
        String::from("OK"),
        1,
    );
    let up = PushrodEvent::SystemEvent {
        id: 7,
        event: InputEvent::MouseButtonUp { button: 1, clicks: 2, x: 10, y: 10 },
    };
    let responses = w.handle_event(&up);
    assert_eq!(responses, vec![PushrodEvent::Clicked { id: 7, clicks: 2 }]);

    let down = PushrodEvent::SystemEvent {
        id: 7,
        event: InputEvent::MouseButtonDown { button: 1, clicks: 1, x: 10, y: 10 },
    };
    assert!(w.handle_event(&down).is_empty());
}

#[test]
fn image_widget_draw_blits_image() {
    let mut w = ImageWidget::new(point(0, 0), size(64, 64), String::from("assets/rust-48x48.jpg"));
    assert_eq!(w.get_image_name(), "assets/rust-48x48.jpg");
    let slot = TextureSlot::new(6, 0);
    let (_, ops) = w.draw(slot);
    let image = ops
        .iter()
        .find_map(|op| {
            if let DrawCommand::BlitImage(name, to) = &op.command {
                Some((name.clone(), *to))
            } else {
                None
            }
        })
        .unwrap();
    assert_eq!(image.0, "assets/rust-48x48.jpg");
    assert_eq!(image.1, Rect { x: 0, y: 0, w: 64, h: 64 });
}

#[test]
fn system_widget_delegates() {
    let mut sw = SystemWidget::Box(BoxWidget::new(point(5, 6), size(30, 30), Color::rgb(0, 0, 255), 2));
    assert_eq!(sw.get_origin(), point(5, 6));
    assert_eq!(sw.get_size(), size(30, 30));
    assert!(sw.is_invalidated());
    sw.set_invalidated(false);
    assert!(!sw.is_invalidated());
    sw.set_origin(point(9, 9));
    assert_eq!(sw.get_origin(), point(9, 9));
    // Moving a widget alone does not invalidate it.
    assert!(!sw.is_invalidated());
}
