//! A widget that draws a border around a solid fill.
//!
//! A `BoxWidget` embeds a [`BaseWidget`] for its background and strokes a
//! border of a given width and colour on top: one concentric unfilled
//! rectangle per pixel of border width.

use vstd::prelude::*;
use crate::base_widget::BaseWidget;
use crate::event::PushrodEvent;
use crate::geometry::{Point, Rect, Size, rect};
use crate::render::{Color, DrawCommand, RenderOp, RenderTarget, TextureRef, TextureSlot, op_on};
use crate::texture::TextureStore;
use crate::widget::Widget;

verus! {

/// The `i`-th concentric border rectangle: inset by `i` pixels on every
/// side, so both dimensions shrink by `2 * i`.
pub open spec fn outline_op(slot: TextureSlot, size: Size, i: int) -> RenderOp {
    RenderOp {
        target: RenderTarget::Texture(slot),
        command: DrawCommand::Outline(Rect {
            x: i as i32,
            y: i as i32,
            w: (size.w - 2 * i) as u32,
            h: (size.h - 2 * i) as u32,
        }),
    }
}

/// The ops that stroke a border of width `width` in `color` on the texture
/// in `slot`: the draw colour, then one concentric rectangle per inset
/// `0 .. width - 1`.  A zero-width border draws nothing.
pub open spec fn border_ops(slot: TextureSlot, color: Color, size: Size, width: u8) -> Seq<RenderOp> {
    if width == 0 {
        Seq::empty()
    } else {
        seq![
            RenderOp { target: RenderTarget::Texture(slot), command: DrawCommand::SetDrawColor(color) },
        ] + Seq::new(width as nat, |i: int| outline_op(slot, size, i))
    }
}

/// A border of width `n` is drawn as exactly `n` concentric unfilled
/// rectangles, at insets `0 .. n - 1`; the rectangle at inset `i` starts
/// at `(i, i)` and shrinks both dimensions by `2 * i`.  A width of zero
/// draws no border at all.
pub proof fn lemma_border_rectangles(slot: TextureSlot, color: Color, size: Size, width: u8)
    ensures
        width == 0 ==> border_ops(slot, color, size, width).len() == 0,
        width > 0 ==> border_ops(slot, color, size, width).len() == 1 + width,
        width > 0 ==> border_ops(slot, color, size, width)[0] == (RenderOp {
            target: RenderTarget::Texture(slot),
            command: DrawCommand::SetDrawColor(color),
        }),
        forall|i: int|
            0 <= i < width ==> #[trigger] border_ops(slot, color, size, width)[i + 1] == (RenderOp {
                target: RenderTarget::Texture(slot),
                command: DrawCommand::Outline(Rect {
                    x: i as i32,
                    y: i as i32,
                    w: (size.w - 2 * i) as u32,
                    h: (size.h - 2 * i) as u32,
                }),
            }),
{
}

/// Appends [`border_ops`] to `ops`: the executable border stroke shared by
/// the widgets that draw one.
pub fn push_border(ops: &mut Vec<RenderOp>, slot: TextureSlot, color: Color, size: Size, width: u8)
    requires
        2 * width <= size.w,
        2 * width <= size.h,
    ensures
        final(ops)@ == old(ops)@ + border_ops(slot, color, size, width),
{
    if width > 0 {
        ops.push(op_on(slot, DrawCommand::SetDrawColor(color)));
        let mut i: u32 = 0;
        while i < width as u32
            invariant
                i <= width,
                2 * width <= size.w,
                2 * width <= size.h,
                ops@ == old(ops)@ + seq![
                    RenderOp { target: RenderTarget::Texture(slot), command: DrawCommand::SetDrawColor(color) },
                ] + Seq::new(i as nat, |j: int| outline_op(slot, size, j)),
            decreases width - i,
        {
            let w: u32 = size.w - 2 * i;
            let h: u32 = size.h - 2 * i;
            ops.push(op_on(slot, DrawCommand::Outline(rect(i as i32, i as i32, w, h))));
            i = i + 1;
            proof {
                assert(ops@ =~= old(ops)@ + seq![
                    RenderOp { target: RenderTarget::Texture(slot), command: DrawCommand::SetDrawColor(color) },
                ] + Seq::new(i as nat, |j: int| outline_op(slot, size, j)));
            }
        }
        proof {
            assert(ops@ =~= old(ops)@ + border_ops(slot, color, size, width));
        }
    } else {
        proof {
            assert(ops@ =~= old(ops)@ + border_ops(slot, color, size, width));
        }
    }
}

/// A bordered widget: a [`BaseWidget`] background plus a border of a given
/// width and colour.
#[derive(Clone, Debug, PartialEq, Eq, Structural)]
pub struct BoxWidget {
    /// Upper left-hand corner, relative to the enclosing window.
    pub origin: Point,
    /// Extent in pixels.
    pub size: Size,
    /// Whether the widget must be redrawn.
    pub invalidated: bool,
    /// The texture the widget renders into.
    pub texture: TextureStore,
    /// The embedded background.
    pub base_widget: BaseWidget,
    /// Colour of the border strokes.
    pub border_color: Color,
    /// Width of the border in pixels; 0 draws no border.
    pub border_width: u8,
}

impl BoxWidget {
    /// Creates a new `BoxWidget` from its point of origin, size, border
    /// colour, and border width.  A border of width 0 is not drawn.  The
    /// border must fit: twice the width may not exceed either dimension.
    pub fn new(origin: Point, size: Size, border_color: Color, border_width: u8) -> (r: BoxWidget)
        requires
            2 * border_width <= size.w,
            2 * border_width <= size.h,
        ensures
            r == (BoxWidget {
                origin,
                size,
                invalidated: true,
                texture: TextureStore { allocated: false, size: Size { w: 0, h: 0 }, invalidated: false },
                base_widget: BaseWidget {
                    origin: Point { x: 0, y: 0 },
                    size,
                    base_color: Color { r: 255u8, g: 255u8, b: 255u8, a: 0u8 },
                    invalidated: true,
                    texture: TextureStore { allocated: false, size: Size { w: 0, h: 0 }, invalidated: false },
                },
                border_color,
                border_width,
            }),
            r.wf(),
    {
        BoxWidget {
            origin,
            size,
            invalidated: true,
            texture: TextureStore::new(),
            base_widget: BaseWidget::new(crate::geometry::origin_point(), size),
            border_color,
            border_width,
        }
    }

    /// Sets the border width in pixels, invalidating the widget.  The new
    /// border must fit inside the current size.
    pub fn set_border_width(&mut self, width: u8)
        requires
            2 * width <= old(self).size.w,
            2 * width <= old(self).size.h,
        ensures
            *final(self) == (BoxWidget { border_width: width, invalidated: true, ..*old(self) }),
            old(self).wf() ==> final(self).wf(),
    {
        self.border_width = width;
        self.invalidated = true;
    }

    /// Sets the border colour, invalidating the widget.
    pub fn set_border_color(&mut self, color: Color)
        ensures
            *final(self) == (BoxWidget { border_color: color, invalidated: true, ..*old(self) }),
            old(self).wf() ==> final(self).wf(),
    {
        self.border_color = color;
        self.invalidated = true;
    }

    /// Retrieves the border width in pixels.
    pub fn get_border_width(&self) -> (r: u8)
        ensures
            r == self.border_width,
    {
        self.border_width
    }

    /// Retrieves the border colour.
    pub fn get_border_color(&self) -> (r: Color)
        ensures
            r == self.border_color,
    {
        self.border_color
    }
}

impl Widget for BoxWidget {
    open spec fn origin_spec(&self) -> Point {
        self.origin
    }

    open spec fn size_spec(&self) -> Size {
        self.size
    }

    open spec fn color_spec(&self) -> Color {
        self.base_widget.base_color
    }

    open spec fn invalidated_spec(&self) -> bool {
        self.invalidated
    }

    open spec fn texture_spec(&self) -> TextureStore {
        self.texture
    }

    open spec fn embedded_sizes(&self) -> Seq<Size> {
        seq![self.base_widget.size]
    }

    open spec fn wf(&self) -> bool {
        &&& 2 * self.border_width <= self.size.w
        &&& 2 * self.border_width <= self.size.h
        &&& (self.base_widget.invalidated || self.base_widget.texture.allocated)
    }

    open spec fn accepts_size(&self, size: Size) -> bool {
        &&& 2 * self.border_width <= size.w
        &&& 2 * self.border_width <= size.h
    }

    open spec fn with_origin(self, point: Point) -> BoxWidget {
        BoxWidget { origin: point, ..self }
    }

    open spec fn with_size(self, size: Size) -> BoxWidget {
        BoxWidget {
            size,
            invalidated: true,
            base_widget: self.base_widget.with_size(size),
            ..self
        }
    }

    open spec fn with_color(self, color: Color) -> BoxWidget {
        BoxWidget {
            invalidated: true,
            base_widget: self.base_widget.with_color(color),
            ..self
        }
    }

    open spec fn with_invalidated(self, state: bool) -> BoxWidget {
        BoxWidget { invalidated: state, ..self }
    }

    open spec fn with_texture(self, texture: TextureStore) -> BoxWidget {
        BoxWidget { texture, ..self }
    }

    open spec fn after_draw(self) -> BoxWidget {
        if self.invalidated {
            BoxWidget {
                texture: self.texture.after_create(self.size),
                base_widget: self.base_widget.after_draw(),
                invalidated: false,
                ..self
            }
        } else {
            self
        }
    }

    open spec fn draw_plan(&self, slot: TextureSlot) -> Seq<RenderOp> {
        if self.invalidated {
            let child = TextureSlot { widget: slot.widget, layer: (slot.layer + 1) as u32 };
            self.texture.create_ops(self.size, slot)
                + self.base_widget.draw_plan(child)
                + seq![
                    RenderOp {
                        target: RenderTarget::Texture(slot),
                        command: DrawCommand::Blit(child, Rect { x: 0, y: 0, w: self.size.w, h: self.size.h }),
                    },
                ]
                + border_ops(slot, self.border_color, self.size, self.border_width)
        } else {
            Seq::empty()
        }
    }

    open spec fn draw_req(&self, slot: TextureSlot) -> bool {
        self.wf() && slot.layer < u32::MAX
    }

    open spec fn responses(&self, event: PushrodEvent) -> Seq<PushrodEvent> {
        Seq::empty()
    }

    fn get_origin(&self) -> Point {
        self.origin
    }

    fn get_size(&self) -> Size {
        self.size
    }

    fn get_color(&self) -> Color {
        self.base_widget.get_color()
    }

    fn set_origin(&mut self, point: Point) {
        self.origin = point;
    }

    fn set_size(&mut self, size: Size) {
        self.size = size;
        self.base_widget.set_size(size);
        self.invalidated = true;
    }

    fn set_invalidated(&mut self, state: bool) {
        self.invalidated = state;
    }

    fn set_color(&mut self, color: Color) {
        self.base_widget.set_color(color);
        self.invalidated = true;
    }

    fn is_invalidated(&self) -> bool {
        self.invalidated
    }

    fn get_texture(&mut self) -> &mut TextureStore {
        &mut self.texture
    }

    fn handle_event(&self, event: &PushrodEvent) -> Vec<PushrodEvent> {
        Vec::new()
    }

    fn draw(&mut self, slot: TextureSlot) -> (r: (Option<TextureRef>, Vec<RenderOp>)) {
        let mut ops: Vec<RenderOp> = Vec::new();
        if self.invalidated {
            let created = self.texture.create_or_resize_texture(self.size);
            if created {
                ops.push(op_on(slot, DrawCommand::CreateTexture(self.size)));
            }
            let child = TextureSlot { widget: slot.widget, layer: slot.layer + 1 };
            let (_, mut base_ops) = self.base_widget.draw(child);
            ops.append(&mut base_ops);
            ops.push(op_on(slot, DrawCommand::Blit(child, rect(0, 0, self.size.w, self.size.h))));
            push_border(&mut ops, slot, self.border_color, self.size, self.border_width);
            self.invalidated = false;
            proof {
                assert(ops@ =~= old(self).draw_plan(slot));
            }
        }
        let r = self.texture.get_optional_ref(slot);
        (r, ops)
    }
}

} // verus!
