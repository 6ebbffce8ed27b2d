use freddy_title::warning::WARNING_FADE_US;
use freddy_title::warning::WARNING_HOLD_US;
use freddy_title::warning::WarningPhase;
use freddy_title::warning::WarningScreen;

#[test]
fn shipped_durations() {
    assert_eq!(WARNING_HOLD_US, 2_000_000);
    assert_eq!(WARNING_FADE_US, 1_100_000);
}

#[test]
fn full_sequence_without_input() {
    // Hold 2.0 s, fade 1.1 s, ticked in tenths of a second with no input:
    // the fade starts at the 2.0 s mark, opacity never goes back up from
    // there, and the screen is done, at opacity exactly zero, at the 3.1 s
    // mark -- with the transition issued exactly once.
    let mut w = WarningScreen::new(WARNING_HOLD_US, WARNING_FADE_US);
    let dt = 100_000;
    let mut transitions = 0;
    let mut done_at_step = 0;
    let mut last_opacity = w.opacity_remaining_us();
    for step in 1..=40 {
        let entered_done = w.tick(dt);
        if step < 20 {
            assert_eq!(w.phase(), WarningPhase::Holding);
        }
        if step == 20 {
            // The hold finishes here; the fade has not started ticking.
            assert_eq!(w.phase(), WarningPhase::FadingOut);
            assert_eq!(w.opacity_remaining_us(), WARNING_FADE_US);
        }
        if step >= 20 {
            let opacity = w.opacity_remaining_us();
            assert!(opacity <= last_opacity);
            last_opacity = opacity;
        }
        if entered_done {
            transitions += 1;
            done_at_step = step;
        }
    }
    assert_eq!(transitions, 1);
    assert_eq!(done_at_step, 31);
    assert_eq!(w.phase(), WarningPhase::Done);
    assert_eq!(w.opacity_remaining_us(), 0);
    assert!(!w.skipped());
}

#[test]
fn opacity_is_full_while_holding() {
    let mut w = WarningScreen::new(WARNING_HOLD_US, WARNING_FADE_US);
    assert_eq!(w.opacity_remaining_us(), w.fade_duration_us());
    w.tick(500_000);
    assert_eq!(w.phase(), WarningPhase::Holding);
    assert_eq!(w.opacity_remaining_us(), w.fade_duration_us());
}

#[test]
fn confirm_before_hold_finishes_pauses_without_reset() {
    let mut w = WarningScreen::new(WARNING_HOLD_US, WARNING_FADE_US);
    w.tick(700_000);
    assert_eq!(w.hold_elapsed_us(), 700_000);
    let entered_done = w.on_confirm();
    assert!(!entered_done);
    assert_eq!(w.phase(), WarningPhase::Holding);
    assert!(w.hold_paused());
    assert!(w.skipped());
    // Elapsed time survives the pause, and further ticks change nothing.
    assert_eq!(w.hold_elapsed_us(), 700_000);
    w.tick(5_000_000);
    assert_eq!(w.phase(), WarningPhase::Holding);
    assert_eq!(w.hold_elapsed_us(), 700_000);
}

#[test]
fn confirm_after_hold_finishes_skips_to_done() {
    let mut w = WarningScreen::new(WARNING_HOLD_US, WARNING_FADE_US);
    w.tick(2_000_000);
    assert_eq!(w.phase(), WarningPhase::FadingOut);
    w.tick(300_000);
    let entered_done = w.on_confirm();
    assert!(entered_done);
    assert_eq!(w.phase(), WarningPhase::Done);
    assert!(w.skipped());
    // No second transition afterwards.
    assert!(!w.tick(100_000));
    assert!(!w.on_confirm());
}

#[test]
fn fade_opacity_is_linear_in_elapsed_fade_time() {
    let mut w = WarningScreen::new(2_000_000, 1_000_000);
    w.tick(2_000_000);
    assert_eq!(w.phase(), WarningPhase::FadingOut);
    w.tick(250_000);
    assert_eq!(w.opacity_remaining_us(), 750_000);
    w.tick(250_000);
    assert_eq!(w.opacity_remaining_us(), 500_000);
    w.tick(500_000);
    assert_eq!(w.opacity_remaining_us(), 0);
    assert_eq!(w.phase(), WarningPhase::Done);
}
