//! Geometry and texture-store behaviour.

use pushrod::geometry::{Point, Rect, Size, make_rect, origin_point, point, rect, size};
use pushrod::render::TextureSlot;
use pushrod::texture::TextureStore;

#[test]
fn point_and_size_constructors() {
    let p = point(3, -4);
    assert_eq!(p.x, 3);
    assert_eq!(p.y, -4);
    let p2 = Point::new(7, 8);
    assert_eq!(p2.x, 7);
    assert_eq!(p2.y, 8);
    let s = size(800, 600);
    assert_eq!(s.w, 800);
    assert_eq!(s.h, 600);
    let s2 = Size::new(1, 2);
    assert_eq!(s2.w, 1);
    assert_eq!(s2.h, 2);
    let o = origin_point();
    assert_eq!(o.x, 0);
    assert_eq!(o.y, 0);
}

#[test]
fn memory_size_is_four_bytes_per_pixel() {
    assert_eq!(size(800, 600).get_memory_size(), 800 * 600 * 4);
    assert_eq!(size(0, 600).get_memory_size(), 0);
    assert_eq!(size(1, 1).get_memory_size(), 4);
}

#[test]
fn memory_size_at_the_largest_representable_surface() {
    // 16384 x 16384 x 4 bytes is exactly 2^30: the largest power-of-two
    // square surface whose footprint still fits the result type.
    assert_eq!(size(16384, 16384).get_memory_size(), 1 << 30);
}

#[test]
fn rect_constructors() {
    let r = make_rect(point(10, 20), size(30, 40));
    assert_eq!(r, Rect { x: 10, y: 20, w: 30, h: 40 });
    let r2 = rect(-5, 6, 7, 8);
    assert_eq!(r2, Rect { x: -5, y: 6, w: 7, h: 8 });
}

#[test]
fn texture_store_allocates_once_per_size() {
    let mut store = TextureStore::default();
    let slot = TextureSlot::new(4, 0);
    assert!(store.get_optional_ref(slot).is_none());
    assert!(!store.is_invalidated());

    // First request allocates and invalidates.
    assert!(store.create_or_resize_texture(size(10, 10)));
    assert!(store.is_invalidated());
    let r = store.get_optional_ref(slot).unwrap();
    assert_eq!(r.slot, slot);
    assert_eq!(r.size, size(10, 10));

    // Same size again: no reallocation, invalidation flag untouched.
    store.set_invalidated(false);
    assert!(!store.create_or_resize_texture(size(10, 10)));
    assert!(!store.is_invalidated());

    // A different size reallocates and invalidates again.
    assert!(store.create_or_resize_texture(size(20, 10)));
    assert!(store.is_invalidated());
    assert_eq!(store.get_mut_ref(slot).size, size(20, 10));
}
