use freddy_title::effects::FrameRng;
use freddy_title::menu::ArrowLocation;
use freddy_title::progress::Config;
use freddy_title::progress::Freddy;
use freddy_title::title::BLIP_FRAME_COUNT;
use freddy_title::title::FrameInput;
use freddy_title::title::FREDDY_FRAME_COUNT;
use freddy_title::title::STATIC_FRAME_COUNT;
use freddy_title::title::STATIC_FRAME_PERIOD_US;
use freddy_title::title::TitleScreen;

fn config(level: u8, beatgame: bool, beat6: bool, beat7: bool) -> Config {
    let c = Config::new(Freddy::new(level, beatgame, beat6, beat7));
    assert!(c.is_valid());
    c
}

fn no_input() -> FrameInput {
    FrameInput { up_pressed: false, down_pressed: false, hovered: None }
}

#[test]
fn entering_reads_the_save_once() {
    let cfg = config(3, true, false, false);
    let t = TitleScreen::enter(&cfg, FrameRng::from_seed(1));
    assert_eq!(t.cursor, ArrowLocation::Continue);
    assert_eq!(t.night_frame, 3);
    assert!(t.night_visible);
    assert_eq!(t.static_sprite.frame_count, STATIC_FRAME_COUNT);
    assert_eq!(t.freddy_sprite.frame_count, FREDDY_FRAME_COUNT);
    assert_eq!(t.blip_sprite.frame_count, BLIP_FRAME_COUNT);
}

#[test]
fn fresh_save_starts_on_new_game() {
    let cfg = config(1, false, false, false);
    let t = TitleScreen::enter(&cfg, FrameRng::from_seed(1));
    assert_eq!(t.cursor, ArrowLocation::NewGame);
    assert!(!t.night_visible);
}

#[test]
fn night_visibility_tracks_cursor_every_frame() {
    let cfg = config(5, true, true, false);
    let mut t = TitleScreen::enter(&cfg, FrameRng::from_seed(1));
    assert_eq!(t.cursor, ArrowLocation::Continue);
    assert!(t.night_visible);

    let mut input = no_input();
    input.down_pressed = true;
    t.frame(&cfg, input, 1000);
    assert_eq!(t.cursor, ArrowLocation::SThNight);
    assert!(!t.night_visible);

    let mut input = no_input();
    input.up_pressed = true;
    t.frame(&cfg, input, 1000);
    assert_eq!(t.cursor, ArrowLocation::Continue);
    assert!(t.night_visible);
}

#[test]
fn hover_applies_before_keys_within_a_frame() {
    // Hover lands on 6th Night first, then the Up key steps from there to
    // Continue, all inside one frame.
    let cfg = config(6, true, false, false);
    let mut t = TitleScreen::enter(&cfg, FrameRng::from_seed(1));
    let input = FrameInput {
        up_pressed: true,
        down_pressed: false,
        hovered: Some(ArrowLocation::SThNight),
    };
    t.frame(&cfg, input, 1000);
    assert_eq!(t.cursor, ArrowLocation::Continue);
}

#[test]
fn hovering_locked_entry_leaves_frame_cursor_alone() {
    let cfg = config(1, false, false, false);
    let mut t = TitleScreen::enter(&cfg, FrameRng::from_seed(1));
    let input = FrameInput {
        up_pressed: false,
        down_pressed: false,
        hovered: Some(ArrowLocation::CustomNight),
    };
    t.frame(&cfg, input, 1000);
    assert_eq!(t.cursor, ArrowLocation::NewGame);
}

#[test]
fn effects_advance_with_the_frame() {
    let cfg = config(2, false, false, false);
    let mut t = TitleScreen::enter(&cfg, FrameRng::from_seed(5));
    // One full static period: the static sheet steps off frame zero.
    t.frame(&cfg, no_input(), STATIC_FRAME_PERIOD_US);
    assert_eq!(t.static_sprite.index, 1);
    // Short of a second period, it stays.
    t.frame(&cfg, no_input(), 100);
    assert_eq!(t.static_sprite.index, 1);
}

#[test]
fn night_frame_is_not_recomputed_by_frames() {
    let cfg = config(4, true, false, false);
    let mut t = TitleScreen::enter(&cfg, FrameRng::from_seed(5));
    for _ in 0..10 {
        t.frame(&cfg, no_input(), 16_000);
    }
    assert_eq!(t.night_frame, 4);
}
