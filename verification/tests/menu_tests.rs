use freddy_title::GameState;
use freddy_title::escape_exits;
use freddy_title::menu::ArrowLocation;
use freddy_title::menu::indicator_visible;
use freddy_title::menu::initial_cursor;
use freddy_title::menu::night_display_visible;
use freddy_title::menu::night_frame;
use freddy_title::menu::on_click;
use freddy_title::menu::on_hover;
use freddy_title::menu::on_key_down;
use freddy_title::menu::on_key_up;
use freddy_title::menu::unlocked;
use freddy_title::progress::Config;
use freddy_title::progress::Freddy;

fn config(level: u8, beatgame: bool, beat6: bool, beat7: bool) -> Config {
    let c = Config::new(Freddy::new(level, beatgame, beat6, beat7));
    assert!(c.is_valid());
    c
}

const ALL_ENTRIES: [ArrowLocation; 4] = [
    ArrowLocation::NewGame,
    ArrowLocation::Continue,
    ArrowLocation::SThNight,
    ArrowLocation::CustomNight,
];

// The four reachable progress states: nothing beaten, the main game
// beaten, the sixth night beaten, and the seventh night beaten as well.
fn all_progress_states() -> Vec<Config> {
    vec![
        config(1, false, false, false),
        config(6, true, false, false),
        config(7, true, true, false),
        config(7, true, true, true),
    ]
}

#[test]
fn unlock_table() {
    let none = config(1, false, false, false);
    let main_beaten = config(6, true, false, false);
    let sixth_beaten = config(7, true, true, false);

    assert!(unlocked(ArrowLocation::NewGame, &none));
    assert!(unlocked(ArrowLocation::Continue, &none));
    assert!(!unlocked(ArrowLocation::SThNight, &none));
    assert!(!unlocked(ArrowLocation::CustomNight, &none));

    assert!(unlocked(ArrowLocation::SThNight, &main_beaten));
    assert!(!unlocked(ArrowLocation::CustomNight, &main_beaten));

    assert!(unlocked(ArrowLocation::SThNight, &sixth_beaten));
    assert!(unlocked(ArrowLocation::CustomNight, &sixth_beaten));
}

#[test]
fn down_then_up_returns_for_every_progress_state() {
    for cfg in all_progress_states() {
        for entry in ALL_ENTRIES {
            if unlocked(entry, &cfg) {
                let down = on_key_down(entry, &cfg);
                assert!(unlocked(down, &cfg));
                assert_eq!(on_key_up(down, &cfg), entry);
            }
        }
    }
}

#[test]
fn up_then_down_returns_for_every_progress_state() {
    for cfg in all_progress_states() {
        for entry in ALL_ENTRIES {
            if unlocked(entry, &cfg) {
                let up = on_key_up(entry, &cfg);
                assert!(unlocked(up, &cfg));
                assert_eq!(on_key_down(up, &cfg), entry);
            }
        }
    }
}

#[test]
fn fresh_save_up_wraps_to_continue_and_back() {
    // With nothing beaten, Up from New Game wraps to Continue (the
    // bottom-most unlocked entry), and Down from there comes back.
    let cfg = config(1, false, false, false);
    let up = on_key_up(ArrowLocation::NewGame, &cfg);
    assert_eq!(up, ArrowLocation::Continue);
    assert_eq!(on_key_down(up, &cfg), ArrowLocation::NewGame);
}

#[test]
fn continue_steps_to_sixth_night_when_unlocked() {
    // With only the main game beaten, moving down the list from Continue
    // lands on 6th Night; Custom Night stays out of reach because it is
    // locked, so moving down again wraps to the top.
    let cfg = config(6, true, false, false);
    let down = on_key_down(ArrowLocation::Continue, &cfg);
    assert_eq!(down, ArrowLocation::SThNight);
    assert_eq!(on_key_down(down, &cfg), ArrowLocation::NewGame);
}

#[test]
fn up_from_new_game_lands_on_highest_unlocked() {
    assert_eq!(
        on_key_up(ArrowLocation::NewGame, &config(6, true, false, false)),
        ArrowLocation::SThNight
    );
    assert_eq!(
        on_key_up(ArrowLocation::NewGame, &config(7, true, true, false)),
        ArrowLocation::CustomNight
    );
    assert_eq!(
        on_key_up(ArrowLocation::NewGame, &config(7, true, true, true)),
        ArrowLocation::CustomNight
    );
}

#[test]
fn up_from_continue_goes_to_new_game() {
    for cfg in all_progress_states() {
        assert_eq!(on_key_up(ArrowLocation::Continue, &cfg), ArrowLocation::NewGame);
    }
}

#[test]
fn hovering_locked_entry_changes_nothing() {
    let cfg = config(1, false, false, false);
    let cursor = on_hover(ArrowLocation::NewGame, ArrowLocation::CustomNight, &cfg);
    assert_eq!(cursor, ArrowLocation::NewGame);
    let cursor = on_hover(ArrowLocation::NewGame, ArrowLocation::SThNight, &cfg);
    assert_eq!(cursor, ArrowLocation::NewGame);
}

#[test]
fn hovering_unlocked_entry_selects_it() {
    let cfg = config(6, true, false, false);
    let cursor = on_hover(ArrowLocation::NewGame, ArrowLocation::SThNight, &cfg);
    assert_eq!(cursor, ArrowLocation::SThNight);
    let cursor = on_hover(cursor, ArrowLocation::Continue, &cfg);
    assert_eq!(cursor, ArrowLocation::Continue);
}

#[test]
fn night_display_visible_iff_continue() {
    for entry in ALL_ENTRIES {
        assert_eq!(night_display_visible(entry), entry == ArrowLocation::Continue);
    }
}

#[test]
fn indicator_visible_iff_cursor_on_entry() {
    for cursor in ALL_ENTRIES {
        for entry in ALL_ENTRIES {
            assert_eq!(indicator_visible(cursor, entry), cursor == entry);
        }
    }
}

#[test]
fn initial_cursor_follows_saved_level() {
    assert_eq!(initial_cursor(&config(1, false, false, false)), ArrowLocation::NewGame);
    assert_eq!(initial_cursor(&config(2, false, false, false)), ArrowLocation::Continue);
    assert_eq!(initial_cursor(&config(6, true, false, false)), ArrowLocation::Continue);
}

#[test]
fn night_frame_is_saved_level() {
    assert_eq!(night_frame(&config(1, false, false, false)), 1);
    assert_eq!(night_frame(&config(5, false, false, false)), 5);
    assert_eq!(night_frame(&config(7, true, true, true)), 7);
}

#[test]
fn click_is_not_wired() {
    let cfg = config(6, true, false, false);
    for entry in ALL_ENTRIES {
        assert_eq!(on_click(entry, &cfg), None);
    }
}

#[test]
fn escape_swallowed_on_cutscene_screens() {
    assert!(!escape_exits(&GameState::CreepyStart));
    assert!(!escape_exits(&GameState::CreepyEnd));
    assert!(!escape_exits(&GameState::Ad));
    assert!(!escape_exits(&GameState::WhatDay));
    assert!(!escape_exits(&GameState::Wait));
    assert!(escape_exits(&GameState::Title));
    assert!(escape_exits(&GameState::Frame17));
    assert!(escape_exits(&GameState::GameOver));
}
