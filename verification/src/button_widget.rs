//! An interactive widget: a filled box with justified text and a border.
//!
//! A `ButtonWidget` composes a [`BaseWidget`] background, a [`TextWidget`]
//! message inset one pixel past the border, and a black border.  It
//! generates a [`PushrodEvent::Clicked`] event when a pointer button is
//! released inside its bounds.

use vstd::prelude::*;
use crate::base_widget::BaseWidget;
use crate::box_widget::{border_ops, push_border};
use crate::event::{InputEvent, PushrodEvent};
use crate::geometry::{Point, Rect, Size, rect};
use crate::render::{Color, DrawCommand, FontStyle, RenderOp, RenderTarget, TextureRef, TextureSlot,
    op_on};
use crate::text_widget::{TextJustify, TextWidget};
use crate::texture::TextureStore;
use crate::widget::Widget;

verus! {

/// A clickable button: background, text message and border.
#[derive(Clone, Debug)]
pub struct ButtonWidget {
    /// Upper left-hand corner, relative to the enclosing window.
    pub origin: Point,
    /// Extent in pixels.
    pub size: Size,
    /// Whether the widget must be redrawn.
    pub invalidated: bool,
    /// The texture the widget renders into.
    pub texture: TextureStore,
    /// The embedded background.
    pub base_widget: BaseWidget,
    /// The embedded text message.
    pub text_widget: TextWidget,
    /// Width of the black border in pixels.
    pub border_width: u8,
}

impl ButtonWidget {
    /// Creates a new `ButtonWidget` from its position and bounds, the font
    /// and message to display, and the border width.  The border and the
    /// one-pixel text inset past it must fit inside the size.
    pub fn new(
        origin: Point,
        size: Size,
        font_name: String,
        font_style: FontStyle,
        font_size: u16,
        font_color: Color,
        justification: TextJustify,
        msg: String,
        border_width: u8,
    ) -> (r: ButtonWidget)
        requires
            2 * (border_width + 1) <= size.w,
            2 * (border_width + 1) <= size.h,
        ensures
            r == (ButtonWidget {
                origin,
                size,
                invalidated: true,
                texture: TextureStore { allocated: false, size: Size { w: 0, h: 0 }, invalidated: false },
                base_widget: BaseWidget {
                    origin: Point { x: 0, y: 0 },
                    size,
                    base_color: Color { r: 255u8, g: 255u8, b: 255u8, a: 0u8 },
                    invalidated: true,
                    texture: TextureStore { allocated: false, size: Size { w: 0, h: 0 }, invalidated: false },
                },
                text_widget: TextWidget {
                    origin: Point { x: 0, y: 0 },
                    size: Size {
                        w: (size.w - 2 * border_width) as u32,
                        h: (size.h - 2 * border_width) as u32,
                    },
                    invalidated: true,
                    texture: TextureStore { allocated: false, size: Size { w: 0, h: 0 }, invalidated: false },
                    base_widget: BaseWidget {
                        origin: Point { x: 0, y: 0 },
                        size: Size {
                            w: (size.w - 2 * border_width) as u32,
                            h: (size.h - 2 * border_width) as u32,
                        },
                        base_color: Color { r: 255u8, g: 255u8, b: 255u8, a: 0u8 },
                        invalidated: true,
                        texture: TextureStore { allocated: false, size: Size { w: 0, h: 0 }, invalidated: false },
                    },
                    font_name,
                    font_style,
                    font_size,
                    font_color,
                    justification,
                    msg,
                },
                border_width,
            }),
            r.wf(),
    {
        let text_size = Size::new(size.w - 2 * (border_width as u32), size.h - 2 * (border_width as u32));
        ButtonWidget {
            origin,
            size,
            invalidated: true,
            texture: TextureStore::new(),
            base_widget: BaseWidget::new(crate::geometry::origin_point(), size),
            text_widget: TextWidget::new(
                crate::geometry::origin_point(),
                text_size,
                font_name,
                font_style,
                font_size,
                font_color,
                justification,
                msg,
            ),
            border_width,
        }
    }

    /// Sets the border width in pixels, invalidating the widget.  The new
    /// border and the text inset past it must fit inside the current size.
    pub fn set_border_width(&mut self, width: u8)
        requires
            2 * (width + 1) <= old(self).size.w,
            2 * (width + 1) <= old(self).size.h,
        ensures
            *final(self) == (ButtonWidget { border_width: width, invalidated: true, ..*old(self) }),
            old(self).wf() ==> final(self).wf(),
    {
        self.border_width = width;
        self.invalidated = true;
    }

    /// Retrieves the border width in pixels.
    pub fn get_border_width(&self) -> (r: u8)
        ensures
            r == self.border_width,
    {
        self.border_width
    }

    /// Changes the text displayed inside the button, invalidating it.
    pub fn set_text(&mut self, msg: String)
        ensures
            *final(self) == (ButtonWidget {
                text_widget: TextWidget { msg, invalidated: true, ..old(self).text_widget },
                invalidated: true,
                ..*old(self)
            }),
            old(self).wf() ==> final(self).wf(),
    {
        self.text_widget.set_text(msg);
        self.invalidated = true;
    }

    /// The rectangle the text texture is blitted into: inset one pixel
    /// past the border on every side.
    pub open spec fn text_rect(&self) -> Rect {
        Rect {
            x: (self.border_width + 1) as i32,
            y: (self.border_width + 1) as i32,
            w: (self.size.w - 2 * (self.border_width + 1)) as u32,
            h: (self.size.h - 2 * (self.border_width + 1)) as u32,
        }
    }
}

impl Widget for ButtonWidget {
    open spec fn origin_spec(&self) -> Point {
        self.origin
    }

    open spec fn size_spec(&self) -> Size {
        self.size
    }

    open spec fn color_spec(&self) -> Color {
        self.base_widget.base_color
    }

    open spec fn invalidated_spec(&self) -> bool {
        self.invalidated
    }

    open spec fn texture_spec(&self) -> TextureStore {
        self.texture
    }

    open spec fn embedded_sizes(&self) -> Seq<Size> {
        seq![self.base_widget.size, self.text_widget.size]
    }

    open spec fn wf(&self) -> bool {
        &&& 2 * (self.border_width + 1) <= self.size.w
        &&& 2 * (self.border_width + 1) <= self.size.h
        &&& (self.base_widget.invalidated || self.base_widget.texture.allocated)
        &&& (self.text_widget.invalidated || self.text_widget.texture.allocated)
        &&& self.text_widget.wf()
    }

    open spec fn accepts_size(&self, size: Size) -> bool {
        &&& 2 * (self.border_width + 1) <= size.w
        &&& 2 * (self.border_width + 1) <= size.h
    }

    open spec fn with_origin(self, point: Point) -> ButtonWidget {
        ButtonWidget { origin: point, ..self }
    }

    open spec fn with_size(self, size: Size) -> ButtonWidget {
        ButtonWidget {
            size,
            invalidated: true,
            base_widget: self.base_widget.with_size(size),
            text_widget: self.text_widget.with_size(size),
            ..self
        }
    }

    open spec fn with_color(self, color: Color) -> ButtonWidget {
        ButtonWidget {
            invalidated: true,
            base_widget: self.base_widget.with_color(color),
            ..self
        }
    }

    open spec fn with_invalidated(self, state: bool) -> ButtonWidget {
        ButtonWidget { invalidated: state, ..self }
    }

    open spec fn with_texture(self, texture: TextureStore) -> ButtonWidget {
        ButtonWidget { texture, ..self }
    }

    open spec fn after_draw(self) -> ButtonWidget {
        if self.invalidated {
            ButtonWidget {
                texture: self.texture.after_create(self.size),
                base_widget: self.base_widget.after_draw(),
                text_widget: self.text_widget.after_draw(),
                invalidated: false,
                ..self
            }
        } else {
            self
        }
    }

    open spec fn draw_plan(&self, slot: TextureSlot) -> Seq<RenderOp> {
        if self.invalidated {
            let child_base = TextureSlot { widget: slot.widget, layer: (slot.layer + 1) as u32 };
            let child_text = TextureSlot { widget: slot.widget, layer: (slot.layer + 2) as u32 };
            self.texture.create_ops(self.size, slot)
                + self.base_widget.draw_plan(child_base)
                + seq![
                    RenderOp {
                        target: RenderTarget::Texture(slot),
                        command: DrawCommand::Blit(child_base, Rect { x: 0, y: 0, w: self.size.w, h: self.size.h }),
                    },
                ]
                + self.text_widget.draw_plan(child_text)
                + seq![
                    RenderOp {
                        target: RenderTarget::Texture(slot),
                        command: DrawCommand::Blit(child_text, self.text_rect()),
                    },
                ]
                + border_ops(slot, Color { r: 0u8, g: 0u8, b: 0u8, a: 255u8 }, self.size, self.border_width)
        } else {
            Seq::empty()
        }
    }

    open spec fn draw_req(&self, slot: TextureSlot) -> bool {
        self.wf() && slot.layer + 3 <= u32::MAX
    }

    /// A pointer button released inside the button's bounds — routed here
    /// by the cache as a widget-relative system event — yields one
    /// `Clicked` event carrying the widget's id and the click count.
    open spec fn responses(&self, event: PushrodEvent) -> Seq<PushrodEvent> {
        match event {
            PushrodEvent::SystemEvent {
                id,
                event: InputEvent::MouseButtonUp { clicks, .. },
            } => seq![PushrodEvent::Clicked { id, clicks }],
            _ => Seq::empty(),
        }
    }

    fn get_origin(&self) -> Point {
        self.origin
    }

    fn get_size(&self) -> Size {
        self.size
    }

    fn get_color(&self) -> Color {
        self.base_widget.get_color()
    }

    fn set_origin(&mut self, point: Point) {
        self.origin = point;
    }

    fn set_size(&mut self, size: Size) {
        self.size = size;
        self.base_widget.set_size(size);
        self.text_widget.set_size(size);
        self.invalidated = true;
    }

    fn set_invalidated(&mut self, state: bool) {
        self.invalidated = state;
    }

    fn set_color(&mut self, color: Color) {
        self.base_widget.set_color(color);
        self.invalidated = true;
    }

    fn is_invalidated(&self) -> bool {
        self.invalidated
    }

    fn get_texture(&mut self) -> &mut TextureStore {
        &mut self.texture
    }

    fn handle_event(&self, event: &PushrodEvent) -> (r: Vec<PushrodEvent>) {
        let mut r: Vec<PushrodEvent> = Vec::new();
        match event {
            PushrodEvent::SystemEvent { id, event: InputEvent::MouseButtonUp { button, clicks, x, y } } => {
                r.push(PushrodEvent::Clicked { id: *id, clicks: *clicks });
            }
            _ => {}
        }
        proof {
            assert(r@ =~= self.responses(*event));
        }
        r
    }

    fn draw(&mut self, slot: TextureSlot) -> (r: (Option<TextureRef>, Vec<RenderOp>)) {
        let mut ops: Vec<RenderOp> = Vec::new();
        if self.invalidated {
            let created = self.texture.create_or_resize_texture(self.size);
            if created {
                ops.push(op_on(slot, DrawCommand::CreateTexture(self.size)));
            }
            let child_base = TextureSlot { widget: slot.widget, layer: slot.layer + 1 };
            let child_text = TextureSlot { widget: slot.widget, layer: slot.layer + 2 };
            let (_, mut base_ops) = self.base_widget.draw(child_base);
            ops.append(&mut base_ops);
            ops.push(op_on(slot, DrawCommand::Blit(child_base, rect(0, 0, self.size.w, self.size.h))));
            let (_, mut text_ops) = self.text_widget.draw(child_text);
            ops.append(&mut text_ops);
            let inset: u32 = self.border_width as u32 + 1;
            ops.push(op_on(slot, DrawCommand::Blit(
                child_text,
                rect(inset as i32, inset as i32, self.size.w - 2 * inset, self.size.h - 2 * inset),
            )));
            push_border(&mut ops, slot, Color::rgb(0, 0, 0), self.size, self.border_width);
            self.invalidated = false;
            proof {
                assert(ops@ =~= old(self).draw_plan(slot));
            }
        }
        let r = self.texture.get_optional_ref(slot);
        (r, ops)
    }
}

} // verus!
