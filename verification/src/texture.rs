//! Per-widget texture bookkeeping.
//!
//! A [`TextureStore`] tracks the one GPU texture a widget draws into: whether
//! it has been allocated yet, the size it was allocated at, and a staleness
//! flag.  The texture's pixels live with the host; the store only decides
//! when the host must (re)allocate, which happens exactly when a draw is
//! requested and no texture exists or the requested size differs.

use vstd::prelude::*;
use crate::geometry::Size;
use crate::render::{TextureRef, TextureSlot};

verus! {

/// Allocation and staleness state of one widget texture.
#[derive(Copy, Clone, Debug, PartialEq, Eq, Structural)]
pub struct TextureStore {
    /// Whether the host has been asked to allocate the texture.
    pub allocated: bool,
    /// The size the texture was last allocated at.
    pub size: Size,
    /// Whether the texture's contents are stale.
    pub invalidated: bool,
}

impl TextureStore {
    /// True when a request for a texture of size `size` must allocate:
    /// either no texture exists yet or the held size differs.
    pub open spec fn needs_create(&self, size: Size) -> bool {
        !self.allocated || self.size != size
    }

    /// The reference handed out for this store's texture in `slot`, if the
    /// texture has been allocated.
    pub open spec fn ref_for(&self, slot: TextureSlot) -> Option<TextureRef> {
        if self.allocated {
            Some(TextureRef { slot, size: self.size })
        } else {
            None
        }
    }

    /// The store after a request for a texture of size `size`: untouched if
    /// the right texture already exists, else allocated at `size` and marked
    /// invalidated.
    pub open spec fn after_create(self, size: Size) -> TextureStore {
        if self.needs_create(size) {
            TextureStore { allocated: true, size, invalidated: true }
        } else {
            self
        }
    }

    /// The allocation ops a request for a texture of size `size` asks of
    /// the host: one `CreateTexture`, or nothing if the right texture
    /// already exists.
    pub open spec fn create_ops(self, size: Size, slot: TextureSlot) -> Seq<crate::render::RenderOp> {
        if self.needs_create(size) {
            seq![
                crate::render::RenderOp {
                    target: crate::render::RenderTarget::Texture(slot),
                    command: crate::render::DrawCommand::CreateTexture(size),
                },
            ]
        } else {
            Seq::empty()
        }
    }

    /// A store that has not allocated anything yet.
    pub fn new() -> (r: TextureStore)
        ensures
            r == (TextureStore { allocated: false, size: Size { w: 0, h: 0 }, invalidated: false }),
    {
        TextureStore { allocated: false, size: Size { w: 0, h: 0 }, invalidated: false }
    }

    /// Records that the texture is allocated at `size`, if it was not
    /// already.  Returns whether the host must allocate a new texture; a
    /// fresh allocation marks the store invalidated, and a request for the
    /// size already held changes nothing.
    pub fn create_or_resize_texture(&mut self, size: Size) -> (created: bool)
        ensures
            created == old(self).needs_create(size),
            created ==> *final(self) == (TextureStore { allocated: true, size, invalidated: true }),
            !created ==> *final(self) == *old(self),
    {
        if !self.allocated || self.size.w != size.w || self.size.h != size.h {
            self.allocated = true;
            self.size = size;
            self.invalidated = true;
            true
        } else {
            false
        }
    }

    /// The reference for this store's texture in `slot`.  The texture must
    /// have been allocated first by `create_or_resize_texture`.
    pub fn get_mut_ref(&self, slot: TextureSlot) -> (r: TextureRef)
        requires
            self.allocated,
        ensures
            Some(r) == self.ref_for(slot),
    {
        TextureRef { slot, size: self.size }
    }

    /// The reference for this store's texture in `slot`, or `None` if the
    /// texture has never been allocated.
    pub fn get_optional_ref(&self, slot: TextureSlot) -> (r: Option<TextureRef>)
        ensures
            r == self.ref_for(slot),
    {
        if self.allocated {
            Some(TextureRef { slot, size: self.size })
        } else {
            None
        }
    }

    /// Whether the texture's contents are stale.
    pub fn is_invalidated(&self) -> (r: bool)
        ensures
            r == self.invalidated,
    {
        self.invalidated
    }

    /// Sets the staleness flag.
    pub fn set_invalidated(&mut self, state: bool)
        ensures
            *final(self) == (TextureStore { invalidated: state, ..*old(self) }),
    {
        self.invalidated = state;
    }
}

impl Default for TextureStore {
    /// Same as [`TextureStore::new`]: nothing allocated yet.
    fn default() -> (r: TextureStore)
        ensures
            r == (TextureStore { allocated: false, size: Size { w: 0, h: 0 }, invalidated: false }),
    {
        TextureStore::new()
    }
}

} // verus!
