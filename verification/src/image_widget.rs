//! A widget that displays an image over a base fill.
//!
//! An `ImageWidget` embeds a [`BaseWidget`], and after the base has been
//! drawn, blits the named image transparently over the base's texture.
//! Loading and decoding the image is the host's business; the draw plan
//! names it by path.

use vstd::prelude::*;
use crate::base_widget::BaseWidget;
use crate::event::PushrodEvent;
use crate::geometry::{Point, Rect, Size, rect};
use crate::render::{Color, DrawCommand, RenderOp, RenderTarget, TextureRef, TextureSlot, op_on};
use crate::texture::TextureStore;
use crate::widget::Widget;

verus! {

/// A widget that blits an image over its background.
#[derive(Clone, Debug)]
pub struct ImageWidget {
    /// Upper left-hand corner, relative to the enclosing window.
    pub origin: Point,
    /// Extent in pixels.
    pub size: Size,
    /// Whether the widget must be redrawn.
    pub invalidated: bool,
    /// The texture the widget renders into.
    pub texture: TextureStore,
    /// The embedded background.
    pub base_widget: BaseWidget,
    /// Path of the image the host loads and blits.
    pub image_name: String,
}

impl ImageWidget {
    /// Creates a new `ImageWidget` from its position and bounds and the
    /// path of the image to display.
    pub fn new(origin: Point, size: Size, image_name: String) -> (r: ImageWidget)
        ensures
            r == (ImageWidget {
                origin,
                size,
                invalidated: true,
                texture: TextureStore { allocated: false, size: Size { w: 0, h: 0 }, invalidated: false },
                base_widget: BaseWidget {
                    origin: Point { x: 0, y: 0 },
                    size,
                    base_color: Color { r: 255u8, g: 255u8, b: 255u8, a: 0u8 },
                    invalidated: true,
                    texture: TextureStore { allocated: false, size: Size { w: 0, h: 0 }, invalidated: false },
                },
                image_name,
            }),
            r.wf(),
    {
        ImageWidget {
            origin,
            size,
            invalidated: true,
            texture: TextureStore::new(),
            base_widget: BaseWidget::new(crate::geometry::origin_point(), size),
            image_name,
        }
    }

    /// Retrieves the path of the displayed image.
    pub fn get_image_name(&self) -> (r: String)
        ensures
            r == self.image_name,
    {
        self.image_name.clone()
    }
}

impl Widget for ImageWidget {
    open spec fn origin_spec(&self) -> Point {
        self.origin
    }

    open spec fn size_spec(&self) -> Size {
        self.size
    }

    open spec fn color_spec(&self) -> Color {
        self.base_widget.base_color
    }

    open spec fn invalidated_spec(&self) -> bool {
        self.invalidated
    }

    open spec fn texture_spec(&self) -> TextureStore {
        self.texture
    }

    open spec fn embedded_sizes(&self) -> Seq<Size> {
        seq![self.base_widget.size]
    }

    open spec fn wf(&self) -> bool {
        self.base_widget.invalidated || self.base_widget.texture.allocated
    }

    open spec fn accepts_size(&self, size: Size) -> bool {
        true
    }

    open spec fn with_origin(self, point: Point) -> ImageWidget {
        ImageWidget { origin: point, ..self }
    }

    open spec fn with_size(self, size: Size) -> ImageWidget {
        ImageWidget {
            size,
            invalidated: true,
            base_widget: self.base_widget.with_size(size),
            ..self
        }
    }

    open spec fn with_color(self, color: Color) -> ImageWidget {
        ImageWidget {
            invalidated: true,
            base_widget: self.base_widget.with_color(color),
            ..self
        }
    }

    open spec fn with_invalidated(self, state: bool) -> ImageWidget {
        ImageWidget { invalidated: state, ..self }
    }

    open spec fn with_texture(self, texture: TextureStore) -> ImageWidget {
        ImageWidget { texture, ..self }
    }

    open spec fn after_draw(self) -> ImageWidget {
        if self.invalidated {
            ImageWidget {
                texture: self.texture.after_create(self.size),
                base_widget: self.base_widget.after_draw(),
                invalidated: false,
                ..self
            }
        } else {
            self
        }
    }

    open spec fn draw_plan(&self, slot: TextureSlot) -> Seq<RenderOp> {
        if self.invalidated {
            let child = TextureSlot { widget: slot.widget, layer: (slot.layer + 1) as u32 };
            self.texture.create_ops(self.size, slot)
                + self.base_widget.draw_plan(child)
                + seq![
                    RenderOp {
                        target: RenderTarget::Texture(slot),
                        command: DrawCommand::Blit(child, Rect { x: 0, y: 0, w: self.size.w, h: self.size.h }),
                    },
                    RenderOp {
                        target: RenderTarget::Texture(slot),
                        command: DrawCommand::BlitImage(self.image_name, Rect { x: 0, y: 0, w: self.size.w, h: self.size.h }),
                    },
                ]
        } else {
            Seq::empty()
        }
    }

    open spec fn draw_req(&self, slot: TextureSlot) -> bool {
        self.wf() && slot.layer < u32::MAX
    }

    open spec fn responses(&self, event: PushrodEvent) -> Seq<PushrodEvent> {
        Seq::empty()
    }

    fn get_origin(&self) -> Point {
        self.origin
    }

    fn get_size(&self) -> Size {
        self.size
    }

    fn get_color(&self) -> Color {
        self.base_widget.get_color()
    }

    fn set_origin(&mut self, point: Point) {
        self.origin = point;
    }

    fn set_size(&mut self, size: Size) {
        self.size = size;
        self.base_widget.set_size(size);
        self.invalidated = true;
    }

    fn set_invalidated(&mut self, state: bool) {
        self.invalidated = state;
    }

    fn set_color(&mut self, color: Color) {
        self.base_widget.set_color(color);
        self.invalidated = true;
    }

    fn is_invalidated(&self) -> bool {
        self.invalidated
    }

    fn get_texture(&mut self) -> &mut TextureStore {
        &mut self.texture
    }

    fn handle_event(&self, event: &PushrodEvent) -> Vec<PushrodEvent> {
        Vec::new()
    }

    fn draw(&mut self, slot: TextureSlot) -> (r: (Option<TextureRef>, Vec<RenderOp>)) {
        let mut ops: Vec<RenderOp> = Vec::new();
        if self.invalidated {
            let created = self.texture.create_or_resize_texture(self.size);
            if created {
                ops.push(op_on(slot, DrawCommand::CreateTexture(self.size)));
            }
            let child = TextureSlot { widget: slot.widget, layer: slot.layer + 1 };
            let (_, mut base_ops) = self.base_widget.draw(child);
            ops.append(&mut base_ops);
            ops.push(op_on(slot, DrawCommand::Blit(child, rect(0, 0, self.size.w, self.size.h))));
            ops.push(op_on(slot, DrawCommand::BlitImage(
                self.image_name.clone(),
                rect(0, 0, self.size.w, self.size.h),
            )));
            self.invalidated = false;
            proof {
                assert(ops@ =~= old(self).draw_plan(slot));
            }
        }
        let r = self.texture.get_optional_ref(slot);
        (r, ops)
    }
}

} // verus!
