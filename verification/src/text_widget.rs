//! A widget that renders a block of text over a base fill.
//!
//! The text itself is rasterised by the host's font service; the widget's
//! draw plan carries a [`TextRequest`] naming the font, style, size, colour
//! and text, and the host places the resulting bitmap at the horizontal
//! offset [`text_offset`] computes from the justification.

use vstd::prelude::*;
use crate::base_widget::BaseWidget;
use crate::event::PushrodEvent;
use crate::geometry::{Point, Rect, Size, rect};
use crate::render::{Color, DrawCommand, FontStyle, RenderOp, RenderTarget, TextRequest, TextureRef,
    TextureSlot, op_on};
use crate::texture::TextureStore;
use crate::widget::Widget;

verus! {

/// How a rendered text block is placed horizontally inside its widget.
#[derive(Copy, Clone, Debug, PartialEq, Eq, Structural)]
pub enum TextJustify {
    /// Flush with the widget's left edge.
    Left,
    /// Centered between the widget's edges.
    Center,
    /// Flush with the widget's right edge.
    Right,
}

/// The horizontal offset of a rendered text block inside its widget.
///
/// `widget_w` is the widget's width and `text_w` the realised width of the
/// rasterised text, which never exceeds the widget's width because the font
/// service wraps the text at the widget's width.  Left-justified text sits
/// at offset 0, right-justified text at `widget_w - text_w`, and centered
/// text halfway between the two.  The offset is returned wide, like the
/// window coordinates events carry, so it holds for every width.
pub fn text_offset(justify: TextJustify, widget_w: u32, text_w: u32) -> (x: i64)
    requires
        text_w <= widget_w,
    ensures
        justify == TextJustify::Left ==> x == 0,
        justify == TextJustify::Right ==> x == widget_w - text_w,
        justify == TextJustify::Center ==> x == (widget_w - text_w) / 2,
{
    match justify {
        TextJustify::Left => 0,
        TextJustify::Right => widget_w as i64 - text_w as i64,
        TextJustify::Center => (widget_w as i64 - text_w as i64) / 2,
    }
}

/// A widget that displays a text message with a given font name, style,
/// size, colour and justification.
#[derive(Clone, Debug)]
pub struct TextWidget {
    /// Upper left-hand corner, relative to the enclosing window.
    pub origin: Point,
    /// Extent in pixels.
    pub size: Size,
    /// Whether the widget must be redrawn.
    pub invalidated: bool,
    /// The texture the widget renders into.
    pub texture: TextureStore,
    /// The embedded background.
    pub base_widget: BaseWidget,
    /// Path or name of the font to render with.
    pub font_name: String,
    /// Style the font is rendered with.
    pub font_style: FontStyle,
    /// Point size of the font.
    pub font_size: u16,
    /// Colour of the rendered glyphs.
    pub font_color: Color,
    /// How the text block is justified inside the widget.
    pub justification: TextJustify,
    /// The text to display.
    pub msg: String,
}

impl TextWidget {
    /// Creates a new `TextWidget` from its position and bounds, the font to
    /// render with, and the message to display.
    pub fn new(
        origin: Point,
        size: Size,
        font_name: String,
        font_style: FontStyle,
        font_size: u16,
        font_color: Color,
        justification: TextJustify,
        msg: String,
    ) -> (r: TextWidget)
        ensures
            r == (TextWidget {
                origin,
                size,
                invalidated: true,
                texture: TextureStore { allocated: false, size: Size { w: 0, h: 0 }, invalidated: false },
                base_widget: BaseWidget {
                    origin: Point { x: 0, y: 0 },
                    size,
                    base_color: Color { r: 255u8, g: 255u8, b: 255u8, a: 0u8 },
                    invalidated: true,
                    texture: TextureStore { allocated: false, size: Size { w: 0, h: 0 }, invalidated: false },
                },
                font_name,
                font_style,
                font_size,
                font_color,
                justification,
                msg,
            }),
            r.wf(),
    {
        TextWidget {
            origin,
            size,
            invalidated: true,
            texture: TextureStore::new(),
            base_widget: BaseWidget::new(crate::geometry::origin_point(), size),
            font_name,
            font_style,
            font_size,
            font_color,
            justification,
            msg,
        }
    }

    /// Sets the colour the text is rendered in, invalidating the widget so
    /// the text is re-rendered in the new colour.
    pub fn set_font_color(&mut self, color: Color)
        ensures
            *final(self) == (TextWidget { font_color: color, invalidated: true, ..*old(self) }),
            old(self).wf() ==> final(self).wf(),
    {
        self.font_color = color;
        self.invalidated = true;
    }

    /// Changes the displayed text, invalidating the widget.
    pub fn set_text(&mut self, msg: String)
        ensures
            *final(self) == (TextWidget { msg, invalidated: true, ..*old(self) }),
    {
        self.msg = msg;
        self.invalidated = true;
    }

    /// Retrieves the colour the text is rendered in.
    pub fn get_font_color(&self) -> (r: Color)
        ensures
            r == self.font_color,
    {
        self.font_color
    }

    /// Retrieves the displayed text.
    pub fn get_text(&self) -> (r: String)
        ensures
            r == self.msg,
    {
        self.msg.clone()
    }

    /// The request the draw plan hands the host's font service.
    pub open spec fn text_request(&self) -> TextRequest {
        TextRequest {
            font_name: self.font_name,
            font_size: self.font_size,
            font_style: self.font_style,
            color: self.font_color,
            text: self.msg,
            wrap_width: self.size.w,
            justify: self.justification,
            widget_width: self.size.w,
        }
    }
}

impl Widget for TextWidget {
    open spec fn origin_spec(&self) -> Point {
        self.origin
    }

    open spec fn size_spec(&self) -> Size {
        self.size
    }

    open spec fn color_spec(&self) -> Color {
        self.base_widget.base_color
    }

    open spec fn invalidated_spec(&self) -> bool {
        self.invalidated
    }

    open spec fn texture_spec(&self) -> TextureStore {
        self.texture
    }

    open spec fn embedded_sizes(&self) -> Seq<Size> {
        seq![self.base_widget.size]
    }

    open spec fn wf(&self) -> bool {
        self.base_widget.invalidated || self.base_widget.texture.allocated
    }

    open spec fn accepts_size(&self, size: Size) -> bool {
        true
    }

    open spec fn with_origin(self, point: Point) -> TextWidget {
        TextWidget { origin: point, ..self }
    }

    open spec fn with_size(self, size: Size) -> TextWidget {
        TextWidget {
            size,
            invalidated: true,
            base_widget: self.base_widget.with_size(size),
            ..self
        }
    }

    open spec fn with_color(self, color: Color) -> TextWidget {
        TextWidget {
            invalidated: true,
            base_widget: self.base_widget.with_color(color),
            ..self
        }
    }

    open spec fn with_invalidated(self, state: bool) -> TextWidget {
        TextWidget { invalidated: state, ..self }
    }

    open spec fn with_texture(self, texture: TextureStore) -> TextWidget {
        TextWidget { texture, ..self }
    }

    open spec fn after_draw(self) -> TextWidget {
        if self.invalidated {
            TextWidget {
                texture: self.texture.after_create(self.size),
                base_widget: self.base_widget.after_draw(),
                invalidated: false,
                ..self
            }
        } else {
            self
        }
    }

    open spec fn draw_plan(&self, slot: TextureSlot) -> Seq<RenderOp> {
        if self.invalidated {
            let child = TextureSlot { widget: slot.widget, layer: (slot.layer + 1) as u32 };
            self.texture.create_ops(self.size, slot)
                + self.base_widget.draw_plan(child)
                + seq![
                    RenderOp {
                        target: RenderTarget::Texture(slot),
                        command: DrawCommand::Blit(child, Rect { x: 0, y: 0, w: self.size.w, h: self.size.h }),
                    },
                    RenderOp {
                        target: RenderTarget::Texture(slot),
                        command: DrawCommand::BlitText(self.text_request()),
                    },
                ]
        } else {
            Seq::empty()
        }
    }

    open spec fn draw_req(&self, slot: TextureSlot) -> bool {
        self.wf() && slot.layer < u32::MAX
    }

    open spec fn responses(&self, event: PushrodEvent) -> Seq<PushrodEvent> {
        Seq::empty()
    }

    fn get_origin(&self) -> Point {
        self.origin
    }

    fn get_size(&self) -> Size {
        self.size
    }

    fn get_color(&self) -> Color {
        self.base_widget.get_color()
    }

    fn set_origin(&mut self, point: Point) {
        self.origin = point;
    }

    fn set_size(&mut self, size: Size) {
        self.size = size;
        self.base_widget.set_size(size);
        self.invalidated = true;
    }

    fn set_invalidated(&mut self, state: bool) {
        self.invalidated = state;
    }

    fn set_color(&mut self, color: Color) {
        self.base_widget.set_color(color);
        self.invalidated = true;
    }

    fn is_invalidated(&self) -> bool {
        self.invalidated
    }

    fn get_texture(&mut self) -> &mut TextureStore {
        &mut self.texture
    }

    fn handle_event(&self, event: &PushrodEvent) -> Vec<PushrodEvent> {
        Vec::new()
    }

    fn draw(&mut self, slot: TextureSlot) -> (r: (Option<TextureRef>, Vec<RenderOp>)) {
        let mut ops: Vec<RenderOp> = Vec::new();
        if self.invalidated {
            let created = self.texture.create_or_resize_texture(self.size);
            if created {
                ops.push(op_on(slot, DrawCommand::CreateTexture(self.size)));
            }
            let child = TextureSlot { widget: slot.widget, layer: slot.layer + 1 };
            let (_, mut base_ops) = self.base_widget.draw(child);
            ops.append(&mut base_ops);
            ops.push(op_on(slot, DrawCommand::Blit(child, rect(0, 0, self.size.w, self.size.h))));
            ops.push(op_on(slot, DrawCommand::BlitText(TextRequest {
                font_name: self.font_name.clone(),
                font_size: self.font_size,
                font_style: self.font_style,
                color: self.font_color,
                text: self.msg.clone(),
                wrap_width: self.size.w,
                justify: self.justification,
                widget_width: self.size.w,
            })));
            self.invalidated = false;
            proof {
                assert(ops@ =~= old(self).draw_plan(slot));
            }
        }
        let r = self.texture.get_optional_ref(slot);
        (r, ops)
    }
}

} // verus!
