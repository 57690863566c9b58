//! The rendering vocabulary shared by widgets, the cache and the host.
//!
//! Widgets do not touch a canvas directly.  A widget's `draw` produces a
//! sequence of [`RenderOp`] values — create a texture, set a draw colour,
//! clear, outline a rectangle, blit one texture into another — and the host
//! application replays that sequence against its GPU canvas.  Each widget
//! texture is named by a [`TextureSlot`], so the plan can refer to a
//! sub-widget's texture before the host has materialised it.

use vstd::prelude::*;
use crate::geometry::{Rect, Size};

verus! {

/// An RGBA colour, eight bits per channel.
#[derive(Copy, Clone, Debug, PartialEq, Eq, Structural)]
pub struct Color {
    /// Red channel.
    pub r: u8,
    /// Green channel.
    pub g: u8,
    /// Blue channel.
    pub b: u8,
    /// Alpha channel; 255 is fully opaque.
    pub a: u8,
}

impl Color {
    /// Creates a fully opaque colour.
    pub fn rgb(r: u8, g: u8, b: u8) -> (c: Color)
        ensures
            c == (Color { r, g, b, a: 255u8 }),
    {
        Color { r, g, b, a: 255 }
    }

    /// Creates a colour with an explicit alpha channel.
    pub fn rgba(r: u8, g: u8, b: u8, a: u8) -> (c: Color)
        ensures
            c == (Color { r, g, b, a }),
    {
        Color { r, g, b, a }
    }
}

/// Names one texture owned by one widget.
///
/// The widget at cache index `i` renders into the slot `(i, 0)`; the
/// textures of its embedded sub-widgets use the following layers of the
/// same widget index.
#[derive(Copy, Clone, Debug, PartialEq, Eq, Structural)]
pub struct TextureSlot {
    /// Index of the owning widget in the cache.
    pub widget: u32,
    /// Which of the widget's textures: 0 is the widget's own surface.
    pub layer: u32,
}

impl TextureSlot {
    /// Creates a slot name from a widget index and a layer.
    pub fn new(widget: u32, layer: u32) -> (r: TextureSlot)
        ensures
            r == (TextureSlot { widget, layer }),
    {
        TextureSlot { widget, layer }
    }
}

/// A reference to a texture that has been allocated, ready to composite.
#[derive(Copy, Clone, Debug, PartialEq, Eq, Structural)]
pub struct TextureRef {
    /// The slot the texture lives in.
    pub slot: TextureSlot,
    /// The size it was allocated at.
    pub size: Size,
}

/// Where a draw command is applied.
#[derive(Copy, Clone, Debug, PartialEq, Eq, Structural)]
pub enum RenderTarget {
    /// The window canvas itself.
    Window,
    /// The texture held in the named slot.
    Texture(TextureSlot),
}

/// A request to rasterise a line of text and blit it into the target.
///
/// The host's font service renders `text` wrapped at `wrap_width` pixels
/// and places the resulting bitmap top-aligned, at the horizontal offset
/// that [`crate::text_widget::text_offset`] computes from `justify`,
/// `widget_width` and the realised text width.
#[derive(Clone, Debug, PartialEq)]
pub struct TextRequest {
    /// Path or name of the font to load.
    pub font_name: String,
    /// Point size to render at.
    pub font_size: u16,
    /// Style to apply to the font.
    pub font_style: FontStyle,
    /// Colour of the rendered glyphs.
    pub color: Color,
    /// The text to render.
    pub text: String,
    /// Maximum width in pixels before the text wraps.
    pub wrap_width: u32,
    /// How the rendered block is justified inside the widget.
    pub justify: crate::text_widget::TextJustify,
    /// Width of the widget the text is placed in.
    pub widget_width: u32,
}

/// The style a font is rendered with.
#[derive(Copy, Clone, Debug, PartialEq, Eq, Structural)]
pub struct FontStyle {
    /// Bold glyphs.
    pub bold: bool,
    /// Italic glyphs.
    pub italic: bool,
    /// Underlined text.
    pub underline: bool,
    /// Struck-through text.
    pub strikethrough: bool,
}

impl FontStyle {
    /// The plain style: no bold, italics, underline or strikethrough.
    pub fn normal() -> (r: FontStyle)
        ensures
            r == (FontStyle { bold: false, italic: false, underline: false, strikethrough: false }),
    {
        FontStyle { bold: false, italic: false, underline: false, strikethrough: false }
    }
}

/// One drawing command for the host to execute.
#[derive(Clone, Debug, PartialEq)]
pub enum DrawCommand {
    /// Allocate (or reallocate at a new size) the target's texture.
    CreateTexture(Size),
    /// Set the colour used by following `Clear` and `Outline` commands.
    SetDrawColor(Color),
    /// Fill the whole target with the current draw colour.
    Clear,
    /// Draw an unfilled rectangle with the current draw colour.
    Outline(Rect),
    /// Copy the texture in the named slot into the target rectangle.
    Blit(TextureSlot, Rect),
    /// Rasterise text and blit it into the target (see [`TextRequest`]).
    BlitText(TextRequest),
    /// Load the named image and blit it into the target rectangle.
    BlitImage(String, Rect),
}

/// A [`DrawCommand`] together with the target it applies to.
#[derive(Clone, Debug, PartialEq)]
pub struct RenderOp {
    /// The canvas or texture the command draws on.
    pub target: RenderTarget,
    /// The command itself.
    pub command: DrawCommand,
}

/// Builds an op against the texture in `slot`.
pub fn op_on(slot: TextureSlot, command: DrawCommand) -> (r: RenderOp)
    ensures
        r == (RenderOp { target: RenderTarget::Texture(slot), command }),
{
    RenderOp { target: RenderTarget::Texture(slot), command }
}

/// Builds an op against the window canvas.
pub fn op_on_window(command: DrawCommand) -> (r: RenderOp)
    ensures
        r == (RenderOp { target: RenderTarget::Window, command }),
{
    RenderOp { target: RenderTarget::Window, command }
}

} // verus!
