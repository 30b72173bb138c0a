use std::cell::Cell;
use vrmp::action::{Action, ActionBin, Effect, ViewFlags};
use vrmp::bits::{iter_bit_spans, mark_chunk};
use vrmp::button::Button;
use vrmp::clock::FrameClock;
use vrmp::config::{default_show_hidden_files, default_show_video_files_only, ConfigSyncer};
use vrmp::enums::{eye_layout, flip_eyes, Mode};
use vrmp::video_files::is_video_extension;
use vrmp::extensions::{add_if_doesnt_exist, split_extension_list, ExtensionCache};
use vrmp::eyes::{submit_eye_steps, supersampled, Eye, EyeStep};
use vrmp::file_key::{load_file_hash, load_file_size_and_hash};
use vrmp::gl_texture::ImageTransitionDir;
use vrmp::hex::hex_digit;

#[test]
fn bit_spans_of_runs() {
    assert_eq!(iter_bit_spans(0, 0), vec![]);
    assert_eq!(iter_bit_spans(0b1110_0110, 0), vec![(1, 3), (5, 8)]);
    assert_eq!(iter_bit_spans(u64::MAX, u64::MAX), vec![(0, 128)]);
    // a run across the two words
    assert_eq!(iter_bit_spans(1u64 << 63, 1), vec![(63, 65)]);
    assert_eq!(iter_bit_spans(0, 1u64 << 63), vec![(127, 128)]);
}

#[test]
fn marking_chunks() {
    let (a, b) = mark_chunk(0, 0, 5);
    assert_eq!((a, b), (1 << 5, 0));
    let (a, b) = mark_chunk(a, b, 64);
    assert_eq!((a, b), (1 << 5, 1));
    let (a, b) = mark_chunk(a, b, 200);
    assert_eq!((a, b), (1 << 5, 1 | (1 << 63)));
    assert_eq!(iter_bit_spans(a, b), vec![(5, 6), (64, 65), (127, 128)]);
}

#[test]
fn hex_digits() {
    assert_eq!(hex_digit(b'0'), 0);
    assert_eq!(hex_digit(b'9'), 9);
    assert_eq!(hex_digit(b'a'), 10);
    assert_eq!(hex_digit(b'f'), 15);
    assert_eq!(hex_digit(b'g'), 0);
    assert_eq!(hex_digit(b'F'), 0);
}

#[test]
fn mailbox_keeps_last_action() {
    let mut bin = ActionBin::create();
    assert!(bin.dispatch().is_none());
    bin.put(Action::ToggleUI);
    bin.put(Action::Quit);
    assert!(matches!(bin.dispatch(), Some(Action::Quit)));
    assert!(bin.dispatch().is_none());
}

fn flags() -> ViewFlags {
    ViewFlags {
        is_running: true,
        is_gui: false,
        move_forward: true,
        move_backward: false,
        move_left: true,
        move_right: false,
    }
}

#[test]
fn dispatching_actions() {
    let mut f = flags();
    assert!(f.dispatch_action(Action::NoOp).is_none());
    assert!(matches!(f.dispatch_action(Action::ToggleUI), Some(Effect::ResetUiOrigin)));
    assert!(f.is_gui && !f.move_forward && !f.move_left);
    assert!(f.dispatch_action(Action::ToggleUI).is_none());
    assert!(!f.is_gui);
    assert!(matches!(f.dispatch_action(Action::ResetWorldOrigin), Some(Effect::ResetWorldOrigin)));
    match f.dispatch_action(Action::Command(vec!["cycle".to_string(), "pause".to_string()])) {
        Some(Effect::Command(c)) => assert_eq!(c, vec!["cycle", "pause"]),
        _ => panic!("expected a command"),
    }
    assert!(f.is_running);
    assert!(f.dispatch_action(Action::Quit).is_none());
    assert!(!f.is_running);
}

#[test]
fn flipping_eyes() {
    assert!(flip_eyes(Mode::LeftRight) == Mode::RightLeft);
    assert!(flip_eyes(Mode::RightLeft) == Mode::LeftRight);
    assert!(flip_eyes(Mode::TopBottom) == Mode::BottomTop);
    assert!(flip_eyes(Mode::BottomTop) == Mode::TopBottom);
    assert!(flip_eyes(Mode::Mono) == Mode::Mono);
}

#[test]
fn button_remembers_press_within_frame() {
    let mut b = Button::new();
    assert!(!b.get());
    b.set(true);
    b.set(false);
    assert!(b.get());
    assert!(!b.state);
}

#[test]
fn splitting_extension_lists() {
    let parts = split_extension_list(&b"VK_KHR_a VK_KHR_b".to_vec());
    assert_eq!(parts, vec![b"VK_KHR_a".to_vec(), b"VK_KHR_b".to_vec()]);
    assert_eq!(split_extension_list(&vec![]), vec![Vec::<u8>::new()]);
    assert_eq!(split_extension_list(&b"a  b".to_vec()), vec![b"a".to_vec(), vec![], b"b".to_vec()]);
}

#[test]
fn extension_cache_asks_once() {
    let mut c = ExtensionCache::new();
    let asked = Cell::new(0);
    for _ in 0..3 {
        c.fill_if_empty(|| {
            asked.set(asked.get() + 1);
            b"VK_one VK_two\0".to_vec()
        });
    }
    assert_eq!(asked.get(), 1);
    assert_eq!(c.names(), &vec![b"VK_one".to_vec(), b"VK_two".to_vec()]);
}

#[test]
fn clock_fires_updates() {
    let mut c = FrameClock::new();
    c.update_delta(200_000_000);
    assert!(!c.is_fast_update && !c.is_per_sec_update);
    c.update_delta(100_000_000);
    assert!(c.is_fast_update);
    assert_eq!(c.delta_accum_fast, 50_000_000);
    c.end_frame();
    c.update_delta(800_000_000);
    assert!(c.is_per_sec_update);
    assert_eq!(c.runtime_secs, 1);
    assert_eq!(c.delta_accum_secs, 100_000_000);
    // exactly a period does not fire yet
    let mut d = FrameClock::new();
    d.update_delta(1_000_000_000);
    assert!(!d.is_per_sec_update);
    assert!(d.is_fast_update);
    d.update_delta(u64::MAX);
    assert_eq!(d.delta_accum_secs, u64::MAX - 1_000_000_000);
}

#[test]
fn file_key_hashes_read_prefix() {
    let buf = vec![1u8, 2, 3, 0, 0, 0];
    let expected = fxhash::hash64(&vec![1u8, 2, 3]);
    assert_eq!(load_file_hash(buf.clone(), 3), expected);
    assert_eq!(load_file_size_and_hash(4096, buf.clone(), 3), (4096, expected));
    assert_ne!(load_file_hash(buf.clone(), 3), load_file_hash(buf, 6));
    assert_eq!(load_file_hash(vec![], 0), fxhash::hash64(&Vec::<u8>::new()));
}

#[test]
fn eye_images() {
    assert_eq!(supersampled((1512, 1680)), (3024, 3360));
    let steps = submit_eye_steps();
    assert_eq!(steps.len(), 6);
    assert!(steps[0] == EyeStep::ToTransfer(Eye::Left));
    assert!(steps[3] == EyeStep::Submit(Eye::Right));
    assert!(steps[5] == EyeStep::ToAttachment(Eye::Right));
    assert_eq!(ImageTransitionDir::AToB.order(1, 2), (1, 2));
    assert_eq!(ImageTransitionDir::BToA.order(1, 2), (2, 1));
}

#[test]
fn settings_saved_only_when_touched() {
    assert!(default_show_video_files_only());
    assert!(!default_show_hidden_files());
    let mut c = ConfigSyncer::new(5u32);
    let saves = Cell::new(0);
    assert!(!c.save_maybe(|_| saves.set(saves.get() + 1)));
    *c.get_mut() = 7;
    assert!(c.save_maybe(|v| {
        assert_eq!(*v, 7);
        saves.set(saves.get() + 1)
    }));
    assert!(!c.save_maybe(|_| saves.set(saves.get() + 1)));
    assert_eq!(saves.get(), 1);
    assert_eq!(*c.get(), 7);
}

#[test]
fn adding_missing_extensions() {
    let mut v = vec![b"a".to_vec(), b"b".to_vec()];
    add_if_doesnt_exist(&mut v, vec![b"b".to_vec(), b"c".to_vec(), b"c".to_vec(), b"ab".to_vec()]);
    assert_eq!(v, vec![b"a".to_vec(), b"b".to_vec(), b"c".to_vec(), b"ab".to_vec()]);
    add_if_doesnt_exist(&mut v, vec![]);
    assert_eq!(v.len(), 4);
}

#[test]
fn video_extensions_ignore_case() {
    assert!(is_video_extension(Some("mkv")));
    assert!(is_video_extension(Some("MKV")));
    assert!(is_video_extension(Some("WebM")));
    assert!(is_video_extension(Some("qt")));
    assert!(!is_video_extension(Some("txt")));
    assert!(!is_video_extension(Some("mkvv")));
    assert!(!is_video_extension(Some("")));
    assert!(!is_video_extension(None));
}

#[test]
fn eye_layouts() {
    assert_eq!(eye_layout(Mode::Mono, 1), (1, 0));
    assert_eq!(eye_layout(Mode::LeftRight, 0), (0, 1));
    assert_eq!(eye_layout(Mode::RightLeft, 0), (1, 1));
    assert_eq!(eye_layout(Mode::RightLeft, 1), (0, 1));
    assert_eq!(eye_layout(Mode::TopBottom, 1), (1, 2));
    assert_eq!(eye_layout(Mode::BottomTop, 0), (1, 2));
}
