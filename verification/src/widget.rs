//! The widget capability and the closed set of system widgets.
//!
//! Every drawable, interactive element implements [`Widget`]: it has an
//! origin, a size, a primary colour, an invalidation flag, a texture store,
//! an event handler and a draw operation.  The contracts are stated over
//! spec-level accessors and transformers that each implementation defines
//! for its own representation, so a caller that knows the concrete widget
//! type knows exactly what each operation did.

use vstd::prelude::*;
use crate::base_widget::BaseWidget;
use crate::box_widget::BoxWidget;
use crate::button_widget::ButtonWidget;
use crate::event::PushrodEvent;
use crate::geometry::{Point, Size};
use crate::image_widget::ImageWidget;
use crate::render::{Color, RenderOp, TextureRef, TextureSlot};
use crate::text_widget::TextWidget;
use crate::texture::TextureStore;

verus! {

/// A drawable, interactive object that is presented in a window.
pub trait Widget: Sized {
    /// The origin (upper left-hand corner) the widget reports.
    spec fn origin_spec(&self) -> Point;

    /// The size the widget reports.
    spec fn size_spec(&self) -> Size;

    /// The widget's primary (fill) colour.
    spec fn color_spec(&self) -> Color;

    /// Whether the widget must be redrawn before the next composite.
    spec fn invalidated_spec(&self) -> bool;

    /// The widget's texture store.
    spec fn texture_spec(&self) -> TextureStore;

    /// The sizes reported by the widget's embedded sub-widgets.
    spec fn embedded_sizes(&self) -> Seq<Size>;

    /// Structural well-formedness: borders and insets fit inside the size.
    spec fn wf(&self) -> bool;

    /// The sizes `set_size` accepts: those that keep the widget
    /// well-formed.
    spec fn accepts_size(&self, size: Size) -> bool;

    /// The widget with its origin replaced.
    spec fn with_origin(self, point: Point) -> Self;

    /// The widget after `set_size`: resized, invalidated, and with the
    /// size propagated to its embedded sub-widgets.
    spec fn with_size(self, size: Size) -> Self;

    /// The widget after `set_color`: recoloured and invalidated.
    spec fn with_color(self, color: Color) -> Self;

    /// The widget with its invalidation flag replaced.
    spec fn with_invalidated(self, state: bool) -> Self;

    /// The widget with its texture store replaced.
    spec fn with_texture(self, texture: TextureStore) -> Self;

    /// The widget after a draw: its textures (and those of its embedded
    /// sub-widgets) allocated at the current sizes, and its invalidation
    /// flag — with those of its embedded sub-widgets — cleared.  Identity
    /// when the widget is not invalidated.
    spec fn after_draw(self) -> Self;

    /// The ops a draw into `slot` hands the host.  Empty when the widget
    /// is not invalidated.
    spec fn draw_plan(&self, slot: TextureSlot) -> Seq<RenderOp>;

    /// What a draw into `slot` needs: a well-formed widget and enough
    /// layer headroom for the textures of embedded sub-widgets.
    spec fn draw_req(&self, slot: TextureSlot) -> bool;

    /// The events the widget generates in response to a delivered event.
    spec fn responses(&self, event: PushrodEvent) -> Seq<PushrodEvent>;

    /// Returns the origin of the widget.
    fn get_origin(&self) -> (r: Point)
        ensures
            r == self.origin_spec(),
    ;

    /// Returns the size of the widget.
    fn get_size(&self) -> (r: Size)
        ensures
            r == self.size_spec(),
    ;

    /// Returns the primary colour of the widget.
    fn get_color(&self) -> (r: Color)
        ensures
            r == self.color_spec(),
    ;

    /// Sets the origin of the widget.  Moving a widget does not invalidate
    /// it: its texture is composited at the new position unchanged.
    fn set_origin(&mut self, point: Point)
        ensures
            *final(self) == (*old(self)).with_origin(point),
            final(self).origin_spec() == point,
            old(self).wf() ==> final(self).wf(),
    ;

    /// Sets the size of the widget, invalidating it and propagating the
    /// size to every embedded sub-widget.
    fn set_size(&mut self, size: Size)
        requires
            old(self).accepts_size(size),
        ensures
            *final(self) == (*old(self)).with_size(size),
            final(self).size_spec() == size,
            final(self).invalidated_spec(),
            forall|i: int|
                0 <= i < final(self).embedded_sizes().len()
                    ==> final(self).embedded_sizes()[i] == size,
            old(self).wf() ==> final(self).wf(),
    ;

    /// Sets the invalidation flag of the widget.
    fn set_invalidated(&mut self, state: bool)
        ensures
            *final(self) == (*old(self)).with_invalidated(state),
            final(self).invalidated_spec() == state,
            old(self).wf() ==> final(self).wf(),
    ;

    /// Sets the primary colour of the widget, invalidating it.
    fn set_color(&mut self, color: Color)
        ensures
            *final(self) == (*old(self)).with_color(color),
            final(self).color_spec() == color,
            final(self).invalidated_spec(),
            old(self).wf() ==> final(self).wf(),
    ;

    /// Returns whether the widget must be redrawn.
    fn is_invalidated(&self) -> (r: bool)
        ensures
            r == self.invalidated_spec(),
    ;

    /// Exclusive access to the widget's texture store.
    fn get_texture(&mut self) -> (r: &mut TextureStore)
        ensures
            *r == old(self).texture_spec(),
            *final(self) == (*old(self)).with_texture(*final(r)),
    ;

    /// Handles a delivered event and returns the events generated in
    /// response, in order.
    fn handle_event(&self, event: &PushrodEvent) -> (r: Vec<PushrodEvent>)
        ensures
            r@ == self.responses(*event),
    ;

    /// Draws the widget into `slot`.
    ///
    /// When the widget is invalidated, this produces the host ops that
    /// rebuild its texture — allocate if needed, render the embedded
    /// sub-widgets, then layer this widget's own marks on top — leaves the
    /// texture store allocated at the widget's size, and clears the
    /// invalidation flag, its own and (through their draws) those of its
    /// embedded sub-widgets.  When it is not invalidated, nothing is
    /// produced and nothing changes: the previously produced texture
    /// reference is returned as it is.
    fn draw(&mut self, slot: TextureSlot) -> (r: (Option<TextureRef>, Vec<RenderOp>))
        requires
            old(self).draw_req(slot),
        ensures
            *final(self) == (*old(self)).after_draw(),
            r.1@ == old(self).draw_plan(slot),
            r.0 == final(self).texture_spec().ref_for(slot),
            !old(self).invalidated_spec() ==> *final(self) == *old(self) && r.1@.len() == 0,
            old(self).invalidated_spec() ==> final(self).texture_spec().allocated
                && final(self).texture_spec().size == old(self).size_spec(),
            old(self).invalidated_spec() ==> !final(self).invalidated_spec(),
            final(self).origin_spec() == old(self).origin_spec(),
            final(self).size_spec() == old(self).size_spec(),
            old(self).wf() ==> final(self).wf(),
    ;
}

/// The closed set of widget kinds the cache dispatches on.
///
/// Hit testing and the draw loop match on this enum exhaustively, so a new
/// widget kind cannot be forgotten in a dispatch switch.  The set is
/// closed on purpose: the cache's contracts rest on each kind's own spec
/// functions — what its draw plan is, what events it generates — and a
/// type-erased widget behind a trait object could carry none of that, so
/// every guarantee below this enum would stop at it.  A user-defined
/// widget becomes a further arm here, bringing its `Widget` impl and
/// thereby its contracts with it.
#[derive(Clone, Debug)]
pub enum SystemWidget {
    /// A [`BaseWidget`], the simplest drawing widget: a solid fill.
    Base(BaseWidget),
    /// A [`BoxWidget`]: a fill with a border of a given width and colour.
    Box(BoxWidget),
    /// A [`ButtonWidget`]: an interactive bordered box with a text label.
    Button(ButtonWidget),
    /// An [`ImageWidget`]: a fill with an image blitted over it.
    Image(ImageWidget),
    /// A [`TextWidget`]: a fill with a justified text message over it.
    Text(TextWidget),
}

impl Widget for SystemWidget {
    open spec fn origin_spec(&self) -> Point {
        match self {
            SystemWidget::Base(w) => w.origin_spec(),
            SystemWidget::Box(w) => w.origin_spec(),
            SystemWidget::Button(w) => w.origin_spec(),
            SystemWidget::Image(w) => w.origin_spec(),
            SystemWidget::Text(w) => w.origin_spec(),
        }
    }

    open spec fn size_spec(&self) -> Size {
        match self {
            SystemWidget::Base(w) => w.size_spec(),
            SystemWidget::Box(w) => w.size_spec(),
            SystemWidget::Button(w) => w.size_spec(),
            SystemWidget::Image(w) => w.size_spec(),
            SystemWidget::Text(w) => w.size_spec(),
        }
    }

    open spec fn color_spec(&self) -> Color {
        match self {
            SystemWidget::Base(w) => w.color_spec(),
            SystemWidget::Box(w) => w.color_spec(),
            SystemWidget::Button(w) => w.color_spec(),
            SystemWidget::Image(w) => w.color_spec(),
            SystemWidget::Text(w) => w.color_spec(),
        }
    }

    open spec fn invalidated_spec(&self) -> bool {
        match self {
            SystemWidget::Base(w) => w.invalidated_spec(),
            SystemWidget::Box(w) => w.invalidated_spec(),
            SystemWidget::Button(w) => w.invalidated_spec(),
            SystemWidget::Image(w) => w.invalidated_spec(),
            SystemWidget::Text(w) => w.invalidated_spec(),
        }
    }

    open spec fn texture_spec(&self) -> TextureStore {
        match self {
            SystemWidget::Base(w) => w.texture_spec(),
            SystemWidget::Box(w) => w.texture_spec(),
            SystemWidget::Button(w) => w.texture_spec(),
            SystemWidget::Image(w) => w.texture_spec(),
            SystemWidget::Text(w) => w.texture_spec(),
        }
    }

    open spec fn embedded_sizes(&self) -> Seq<Size> {
        match self {
            SystemWidget::Base(w) => w.embedded_sizes(),
            SystemWidget::Box(w) => w.embedded_sizes(),
            SystemWidget::Button(w) => w.embedded_sizes(),
            SystemWidget::Image(w) => w.embedded_sizes(),
            SystemWidget::Text(w) => w.embedded_sizes(),
        }
    }

    open spec fn wf(&self) -> bool {
        match self {
            SystemWidget::Base(w) => w.wf(),
            SystemWidget::Box(w) => w.wf(),
            SystemWidget::Button(w) => w.wf(),
            SystemWidget::Image(w) => w.wf(),
            SystemWidget::Text(w) => w.wf(),
        }
    }

    open spec fn accepts_size(&self, size: Size) -> bool {
        match self {
            SystemWidget::Base(w) => w.accepts_size(size),
            SystemWidget::Box(w) => w.accepts_size(size),
            SystemWidget::Button(w) => w.accepts_size(size),
            SystemWidget::Image(w) => w.accepts_size(size),
            SystemWidget::Text(w) => w.accepts_size(size),
        }
    }

    open spec fn with_origin(self, point: Point) -> SystemWidget {
        match self {
            SystemWidget::Base(w) => SystemWidget::Base(w.with_origin(point)),
            SystemWidget::Box(w) => SystemWidget::Box(w.with_origin(point)),
            SystemWidget::Button(w) => SystemWidget::Button(w.with_origin(point)),
            SystemWidget::Image(w) => SystemWidget::Image(w.with_origin(point)),
            SystemWidget::Text(w) => SystemWidget::Text(w.with_origin(point)),
        }
    }

    open spec fn with_size(self, size: Size) -> SystemWidget {
        match self {
            SystemWidget::Base(w) => SystemWidget::Base(w.with_size(size)),
            SystemWidget::Box(w) => SystemWidget::Box(w.with_size(size)),
            SystemWidget::Button(w) => SystemWidget::Button(w.with_size(size)),
            SystemWidget::Image(w) => SystemWidget::Image(w.with_size(size)),
            SystemWidget::Text(w) => SystemWidget::Text(w.with_size(size)),
        }
    }

    open spec fn with_color(self, color: Color) -> SystemWidget {
        match self {
            SystemWidget::Base(w) => SystemWidget::Base(w.with_color(color)),
            SystemWidget::Box(w) => SystemWidget::Box(w.with_color(color)),
            SystemWidget::Button(w) => SystemWidget::Button(w.with_color(color)),
            SystemWidget::Image(w) => SystemWidget::Image(w.with_color(color)),
            SystemWidget::Text(w) => SystemWidget::Text(w.with_color(color)),
        }
    }

    open spec fn with_invalidated(self, state: bool) -> SystemWidget {
        match self {
            SystemWidget::Base(w) => SystemWidget::Base(w.with_invalidated(state)),
            SystemWidget::Box(w) => SystemWidget::Box(w.with_invalidated(state)),
            SystemWidget::Button(w) => SystemWidget::Button(w.with_invalidated(state)),
            SystemWidget::Image(w) => SystemWidget::Image(w.with_invalidated(state)),
            SystemWidget::Text(w) => SystemWidget::Text(w.with_invalidated(state)),
        }
    }

    open spec fn with_texture(self, texture: TextureStore) -> SystemWidget {
        match self {
            SystemWidget::Base(w) => SystemWidget::Base(w.with_texture(texture)),
            SystemWidget::Box(w) => SystemWidget::Box(w.with_texture(texture)),
            SystemWidget::Button(w) => SystemWidget::Button(w.with_texture(texture)),
            SystemWidget::Image(w) => SystemWidget::Image(w.with_texture(texture)),
            SystemWidget::Text(w) => SystemWidget::Text(w.with_texture(texture)),
        }
    }

    open spec fn after_draw(self) -> SystemWidget {
        match self {
            SystemWidget::Base(w) => SystemWidget::Base(w.after_draw()),
            SystemWidget::Box(w) => SystemWidget::Box(w.after_draw()),
            SystemWidget::Button(w) => SystemWidget::Button(w.after_draw()),
            SystemWidget::Image(w) => SystemWidget::Image(w.after_draw()),
            SystemWidget::Text(w) => SystemWidget::Text(w.after_draw()),
        }
    }

    open spec fn draw_plan(&self, slot: TextureSlot) -> Seq<RenderOp> {
        match self {
            SystemWidget::Base(w) => w.draw_plan(slot),
            SystemWidget::Box(w) => w.draw_plan(slot),
            SystemWidget::Button(w) => w.draw_plan(slot),
            SystemWidget::Image(w) => w.draw_plan(slot),
            SystemWidget::Text(w) => w.draw_plan(slot),
        }
    }

    open spec fn draw_req(&self, slot: TextureSlot) -> bool {
        match self {
            SystemWidget::Base(w) => w.draw_req(slot),
            SystemWidget::Box(w) => w.draw_req(slot),
            SystemWidget::Button(w) => w.draw_req(slot),
            SystemWidget::Image(w) => w.draw_req(slot),
            SystemWidget::Text(w) => w.draw_req(slot),
        }
    }

    open spec fn responses(&self, event: PushrodEvent) -> Seq<PushrodEvent> {
        match self {
            SystemWidget::Base(w) => w.responses(event),
            SystemWidget::Box(w) => w.responses(event),
            SystemWidget::Button(w) => w.responses(event),
            SystemWidget::Image(w) => w.responses(event),
            SystemWidget::Text(w) => w.responses(event),
        }
    }

    fn get_origin(&self) -> Point {
        match self {
            SystemWidget::Base(w) => w.get_origin(),
            SystemWidget::Box(w) => w.get_origin(),
            SystemWidget::Button(w) => w.get_origin(),
            SystemWidget::Image(w) => w.get_origin(),
            SystemWidget::Text(w) => w.get_origin(),
        }
    }

    fn get_size(&self) -> Size {
        match self {
            SystemWidget::Base(w) => w.get_size(),
            SystemWidget::Box(w) => w.get_size(),
            SystemWidget::Button(w) => w.get_size(),
            SystemWidget::Image(w) => w.get_size(),
            SystemWidget::Text(w) => w.get_size(),
        }
    }

    fn get_color(&self) -> Color {
        match self {
            SystemWidget::Base(w) => w.get_color(),
            SystemWidget::Box(w) => w.get_color(),
            SystemWidget::Button(w) => w.get_color(),
            SystemWidget::Image(w) => w.get_color(),
            SystemWidget::Text(w) => w.get_color(),
        }
    }

    fn set_origin(&mut self, point: Point) {
        match self {
            SystemWidget::Base(w) => w.set_origin(point),
            SystemWidget::Box(w) => w.set_origin(point),
            SystemWidget::Button(w) => w.set_origin(point),
            SystemWidget::Image(w) => w.set_origin(point),
            SystemWidget::Text(w) => w.set_origin(point),
        }
    }

    fn set_size(&mut self, size: Size) {
        match self {
            SystemWidget::Base(w) => w.set_size(size),
            SystemWidget::Box(w) => w.set_size(size),
            SystemWidget::Button(w) => w.set_size(size),
            SystemWidget::Image(w) => w.set_size(size),
            SystemWidget::Text(w) => w.set_size(size),
        }
    }

    fn set_invalidated(&mut self, state: bool) {
        match self {
            SystemWidget::Base(w) => w.set_invalidated(state),
            SystemWidget::Box(w) => w.set_invalidated(state),
            SystemWidget::Button(w) => w.set_invalidated(state),
            SystemWidget::Image(w) => w.set_invalidated(state),
            SystemWidget::Text(w) => w.set_invalidated(state),
        }
    }

    fn set_color(&mut self, color: Color) {
        match self {
            SystemWidget::Base(w) => w.set_color(color),
            SystemWidget::Box(w) => w.set_color(color),
            SystemWidget::Button(w) => w.set_color(color),
            SystemWidget::Image(w) => w.set_color(color),
            SystemWidget::Text(w) => w.set_color(color),
        }
    }

    fn is_invalidated(&self) -> bool {
        match self {
            SystemWidget::Base(w) => w.is_invalidated(),
            SystemWidget::Box(w) => w.is_invalidated(),
            SystemWidget::Button(w) => w.is_invalidated(),
            SystemWidget::Image(w) => w.is_invalidated(),
            SystemWidget::Text(w) => w.is_invalidated(),
        }
    }

    fn get_texture(&mut self) -> &mut TextureStore {
        match self {
            SystemWidget::Base(w) => w.get_texture(),
            SystemWidget::Box(w) => w.get_texture(),
            SystemWidget::Button(w) => w.get_texture(),
            SystemWidget::Image(w) => w.get_texture(),
            SystemWidget::Text(w) => w.get_texture(),
        }
    }

    fn handle_event(&self, event: &PushrodEvent) -> Vec<PushrodEvent> {
        match self {
            SystemWidget::Base(w) => w.handle_event(event),
            SystemWidget::Box(w) => w.handle_event(event),
            SystemWidget::Button(w) => w.handle_event(event),
            SystemWidget::Image(w) => w.handle_event(event),
            SystemWidget::Text(w) => w.handle_event(event),
        }
    }

    fn draw(&mut self, slot: TextureSlot) -> (Option<TextureRef>, Vec<RenderOp>) {
        match self {
            SystemWidget::Base(w) => w.draw(slot),
            SystemWidget::Box(w) => w.draw(slot),
            SystemWidget::Button(w) => w.draw(slot),
            SystemWidget::Image(w) => w.draw(slot),
            SystemWidget::Text(w) => w.draw(slot),
        }
    }
}

} // verus!
