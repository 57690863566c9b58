//! The simplest drawable widget: a solid fill.
//!
//! A `BaseWidget` draws a background and fills it with its colour.  It is
//! also the canvas other widgets embed and paint over.

use vstd::prelude::*;
use crate::event::PushrodEvent;
use crate::geometry::{Point, Size};
use crate::render::{Color, DrawCommand, RenderOp, TextureRef, TextureSlot, op_on};
use crate::texture::TextureStore;
use crate::widget::Widget;

verus! {

/// A solid-filled widget: origin, size, fill colour, invalidation flag and
/// the texture store it renders into.
#[derive(Clone, Debug, PartialEq, Eq, Structural)]
pub struct BaseWidget {
    /// Upper left-hand corner, relative to the enclosing window.
    pub origin: Point,
    /// Extent in pixels.
    pub size: Size,
    /// Fill colour.
    pub base_color: Color,
    /// Whether the widget must be redrawn.
    pub invalidated: bool,
    /// The texture the widget renders into.
    pub texture: TextureStore,
}

impl BaseWidget {
    /// Creates a new `BaseWidget` given its point of origin and its size.
    /// It starts invalidated, with a transparent white fill.
    pub fn new(origin: Point, size: Size) -> (r: BaseWidget)
        ensures
            r == (BaseWidget {
                origin,
                size,
                base_color: Color { r: 255u8, g: 255u8, b: 255u8, a: 0u8 },
                invalidated: true,
                texture: TextureStore { allocated: false, size: Size { w: 0, h: 0 }, invalidated: false },
            }),
    {
        BaseWidget {
            origin,
            size,
            base_color: Color::rgba(255, 255, 255, 0),
            invalidated: true,
            texture: TextureStore::new(),
        }
    }
}

impl Widget for BaseWidget {
    open spec fn origin_spec(&self) -> Point {
        self.origin
    }

    open spec fn size_spec(&self) -> Size {
        self.size
    }

    open spec fn color_spec(&self) -> Color {
        self.base_color
    }

    open spec fn invalidated_spec(&self) -> bool {
        self.invalidated
    }

    open spec fn texture_spec(&self) -> TextureStore {
        self.texture
    }

    open spec fn embedded_sizes(&self) -> Seq<Size> {
        Seq::empty()
    }

    open spec fn wf(&self) -> bool {
        true
    }

    open spec fn accepts_size(&self, size: Size) -> bool {
        true
    }

    open spec fn with_origin(self, point: Point) -> BaseWidget {
        BaseWidget { origin: point, ..self }
    }

    open spec fn with_size(self, size: Size) -> BaseWidget {
        BaseWidget { size, invalidated: true, ..self }
    }

    open spec fn with_color(self, color: Color) -> BaseWidget {
        BaseWidget { base_color: color, invalidated: true, ..self }
    }

    open spec fn with_invalidated(self, state: bool) -> BaseWidget {
        BaseWidget { invalidated: state, ..self }
    }

    open spec fn with_texture(self, texture: TextureStore) -> BaseWidget {
        BaseWidget { texture, ..self }
    }

    open spec fn after_draw(self) -> BaseWidget {
        if self.invalidated {
            BaseWidget { texture: self.texture.after_create(self.size), invalidated: false, ..self }
        } else {
            self
        }
    }

    open spec fn draw_plan(&self, slot: TextureSlot) -> Seq<RenderOp> {
        if self.invalidated {
            self.texture.create_ops(self.size, slot) + seq![
                RenderOp {
                    target: crate::render::RenderTarget::Texture(slot),
                    command: DrawCommand::SetDrawColor(self.base_color),
                },
                RenderOp {
                    target: crate::render::RenderTarget::Texture(slot),
                    command: DrawCommand::Clear,
                },
            ]
        } else {
            Seq::empty()
        }
    }

    open spec fn draw_req(&self, slot: TextureSlot) -> bool {
        self.wf()
    }

    open spec fn responses(&self, event: PushrodEvent) -> Seq<PushrodEvent> {
        Seq::empty()
    }

    fn get_origin(&self) -> Point {
        self.origin
    }

    fn get_size(&self) -> Size {
        self.size
    }

    fn get_color(&self) -> Color {
        self.base_color
    }

    fn set_origin(&mut self, point: Point) {
        self.origin = point;
    }

    fn set_size(&mut self, size: Size) {
        self.size = size;
        self.invalidated = true;
    }

    fn set_invalidated(&mut self, state: bool) {
        self.invalidated = state;
    }

    fn set_color(&mut self, color: Color) {
        self.base_color = color;
        self.invalidated = true;
    }

    fn is_invalidated(&self) -> bool {
        self.invalidated
    }

    fn get_texture(&mut self) -> &mut TextureStore {
        &mut self.texture
    }

    fn handle_event(&self, event: &PushrodEvent) -> Vec<PushrodEvent> {
        Vec::new()
    }

    fn draw(&mut self, slot: TextureSlot) -> (r: (Option<TextureRef>, Vec<RenderOp>)) {
        let mut ops: Vec<RenderOp> = Vec::new();
        if self.invalidated {
            let created = self.texture.create_or_resize_texture(self.size);
            if created {
                ops.push(op_on(slot, DrawCommand::CreateTexture(self.size)));
            }
            ops.push(op_on(slot, DrawCommand::SetDrawColor(self.base_color)));
            ops.push(op_on(slot, DrawCommand::Clear));
            self.invalidated = false;
            proof {
                assert(ops@ =~= old(self).draw_plan(slot));
            }
        }
        let r = self.texture.get_optional_ref(slot);
        (r, ops)
    }
}

} // verus!
