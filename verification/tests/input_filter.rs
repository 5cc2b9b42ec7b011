use corefw::launchpad_pro_mk3::input_filter::{M0InputFilter, PAD_PRESS_THRESHOLD, PAD_RELEASE_THRESHOLD};

#[test]
fn accepts_only_fresh_forward_counters() {
    let mut filter = M0InputFilter::new();

    assert!(filter.accept_frame(41));
    assert!(!filter.accept_frame(41));
    assert!(!filter.accept_frame(40));
    assert!(filter.accept_frame(42));
    assert!(!filter.accept_frame(42u16.wrapping_add(0x8000)));
}

#[test]
fn accepts_counter_wrap_and_reset() {
    let mut filter = M0InputFilter::new();

    assert!(filter.accept_frame(0xffff));
    assert!(filter.accept_frame(0));
    assert!(filter.accept_frame(3));
    filter.reset_stream();
    assert!(filter.accept_frame(0));
}

#[test]
fn presses_immediately_and_releases_after_three_low_frames() {
    let mut filter = M0InputFilter::new();
    let mut pressed = false;

    pressed = filter.pad_state(0, pressed, PAD_PRESS_THRESHOLD);
    assert!(pressed);
    pressed = filter.pad_state(0, pressed, PAD_RELEASE_THRESHOLD);
    assert!(pressed);
    pressed = filter.pad_state(0, pressed, PAD_RELEASE_THRESHOLD);
    assert!(pressed);
    pressed = filter.pad_state(0, pressed, PAD_RELEASE_THRESHOLD);
    assert!(!pressed);
    assert!(!filter.pad_state(0, pressed, PAD_RELEASE_THRESHOLD));
}

#[test]
fn hysteresis_sample_resets_release_confirmation() {
    let mut filter = M0InputFilter::new();
    let mut pressed = filter.pad_state(7, false, PAD_PRESS_THRESHOLD);

    pressed = filter.pad_state(7, pressed, PAD_RELEASE_THRESHOLD);
    assert!(pressed);
    pressed = filter.pad_state(7, pressed, PAD_RELEASE_THRESHOLD + 1);
    assert!(pressed);
    pressed = filter.pad_state(7, pressed, PAD_RELEASE_THRESHOLD);
    assert!(pressed);
    pressed = filter.pad_state(7, pressed, PAD_RELEASE_THRESHOLD);
    assert!(pressed);
    pressed = filter.pad_state(7, pressed, PAD_RELEASE_THRESHOLD);
    assert!(!pressed);
}

#[test]
fn duplicate_frames_do_not_advance_release_confirmation() {
    let mut filter = M0InputFilter::new();
    let mut pressed = filter.pad_state(12, false, PAD_PRESS_THRESHOLD);

    for counter in [10, 10, 11, 11] {
        if filter.accept_frame(counter) {
            pressed = filter.pad_state(12, pressed, PAD_RELEASE_THRESHOLD);
        }
        assert!(pressed);
    }

    assert!(filter.accept_frame(12));
    pressed = filter.pad_state(12, pressed, PAD_RELEASE_THRESHOLD);
    assert!(!pressed);
}

#[test]
fn stream_reset_discards_partial_release() {
    let mut filter = M0InputFilter::new();
    let mut pressed = filter.pad_state(63, false, PAD_PRESS_THRESHOLD);

    pressed = filter.pad_state(63, pressed, PAD_RELEASE_THRESHOLD);
    assert!(pressed);
    filter.reset_stream();
    pressed = filter.pad_state(63, pressed, PAD_RELEASE_THRESHOLD);
    assert!(pressed);
    pressed = filter.pad_state(63, pressed, PAD_RELEASE_THRESHOLD);
    assert!(pressed);
    pressed = filter.pad_state(63, pressed, PAD_RELEASE_THRESHOLD);
    assert!(!pressed);
}
