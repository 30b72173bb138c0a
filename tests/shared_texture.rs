use std::cell::Cell;
use vrmp::shared_texture::{SharedTexture, DESTROY_AFTER_NUM_FRAMES};

fn image_named(name: &str) -> String {
    name.to_string()
}

#[test]
fn last_resize_request_wins() {
    let mut t = SharedTexture::create(image_named("first"), 512, 512);
    t.request_resize(800, 600);
    t.request_resize(1920, 1080);
    assert_eq!(t.pending_resize(), Some((1920, 1080)));
    // unchanged and zero-sided requests change nothing
    t.request_resize(512, 512);
    t.request_resize(0, 1080);
    t.request_resize(1280, 0);
    assert_eq!(t.pending_resize(), Some((1920, 1080)));
    t.resize_maybe(|w, h| format!("{}x{}", w, h));
    assert_eq!(t.width(), 1920);
    assert_eq!(t.height(), 1080);
    assert_eq!(t.image(), "1920x1080");
}

#[test]
fn request_for_current_size_is_no_op() {
    let mut t = SharedTexture::create(image_named("a"), 512, 512);
    t.request_resize(512, 512);
    assert_eq!(t.pending_resize(), None);
    t.request_resize(0, 0);
    assert_eq!(t.pending_resize(), None);
}

#[test]
fn resize_without_request_does_nothing() {
    let mut t = SharedTexture::create(image_named("a"), 512, 512);
    let called = Cell::new(false);
    t.resize_maybe(|_, _| {
        called.set(true);
        image_named("b")
    });
    assert!(!called.get());
    assert_eq!(t.image(), "a");
    assert!(t.after_vk().is_empty());
}

#[test]
fn resize_scenario_1920_by_1080() {
    let mut t = SharedTexture::create(image_named("512x512"), 512, 512);
    t.draw_gl(|| true);
    assert!(t.is_ready());
    t.request_resize(1920, 1080);
    t.resize_maybe(|w, h| format!("{}x{}", w, h));
    assert_eq!((t.width(), t.height()), (1920, 1080));
    assert!(!t.is_ready());
    assert_eq!(t.pending_resize(), None);
    // the replaced image is retired, not destroyed: it goes only after the grace period
    let mut destroyed = Vec::new();
    for _ in 0..DESTROY_AFTER_NUM_FRAMES {
        destroyed.extend(t.after_vk());
    }
    assert!(destroyed.is_empty());
    assert_eq!(t.after_vk(), vec!["512x512".to_string()]);
    // a resize leaves no wait pending for the new image
    assert!(!t.before_vk());
}

#[test]
fn retired_image_lives_sixty_frames() {
    let mut t = SharedTexture::create(image_named("old"), 512, 512);
    t.request_resize(640, 480);
    t.resize_maybe(|_, _| image_named("new"));
    for call in 1..=60 {
        let gone = t.after_vk();
        assert!(gone.is_empty(), "destroyed early at call {}", call);
    }
    let gone = t.after_vk();
    assert_eq!(gone, vec!["old".to_string()]);
    for _ in 0..5 {
        assert!(t.after_vk().is_empty());
    }
}

#[test]
fn two_retired_images_age_separately() {
    let mut t = SharedTexture::create(image_named("a"), 512, 512);
    t.request_resize(640, 480);
    t.resize_maybe(|_, _| image_named("b"));
    for _ in 0..10 {
        assert!(t.after_vk().is_empty());
    }
    t.request_resize(800, 600);
    t.resize_maybe(|_, _| image_named("c"));
    for _ in 0..50 {
        assert!(t.after_vk().is_empty());
    }
    assert_eq!(t.after_vk(), vec!["a".to_string()]);
    for _ in 0..9 {
        assert!(t.after_vk().is_empty());
    }
    assert_eq!(t.after_vk(), vec!["b".to_string()]);
    assert_eq!(t.shutdown(), "c");
}

#[test]
fn wait_happens_once_per_production() {
    let mut t = SharedTexture::create(image_named("a"), 256, 256);
    assert!(!t.before_vk());
    t.draw_gl(|| false);
    t.draw_gl(|| true);
    assert!(t.before_vk());
    assert!(t.after_vk().is_empty());
    // no production since: no further wait, tick after tick
    for _ in 0..3 {
        assert!(!t.before_vk());
        assert!(t.after_vk().is_empty());
    }
    assert!(t.is_ready());
}

#[test]
fn idle_decoder_keeps_ready_state() {
    for start_ready in [false, true] {
        let mut t = SharedTexture::create(image_named("a"), 256, 256);
        if start_ready {
            t.draw_gl(|| true);
        }
        let calls = Cell::new(0u32);
        for _ in 0..5 {
            t.before_vk();
            t.after_vk();
            t.draw_gl(|| {
                calls.set(calls.get() + 1);
                false
            });
            assert_eq!(t.is_ready(), start_ready);
        }
        assert_eq!(calls.get(), 5);
    }
}
