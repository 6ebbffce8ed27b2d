use freddy_title::progress::Config;
use freddy_title::progress::Freddy;

#[test]
fn default_save_is_night_one_nothing_beaten() {
    let c = Config::default();
    assert!(c.is_valid());
    assert_eq!(c.level(), 1);
    assert!(!c.beatgame());
    assert!(!c.beat_six());
    assert!(!c.beat_seven());
}

#[test]
fn accessors_read_back_the_record() {
    let c = Config::new(Freddy::new(6, true, false, false));
    assert!(c.is_valid());
    assert_eq!(c.level(), 6);
    assert!(c.beatgame());
    assert!(!c.beat_six());
    assert!(!c.beat_seven());
}

#[test]
fn setters_update_one_field_each() {
    let mut c = Config::default();
    c.set_level(4);
    assert_eq!(c.level(), 4);
    assert!(!c.beatgame());
    c.set_beatgame(true);
    assert!(c.beatgame());
    assert_eq!(c.level(), 4);
    c.set_beat_six(true);
    assert!(c.beat_six());
    c.set_beat_seven(true);
    assert!(c.beat_seven());
    assert!(c.is_valid());
}

#[test]
fn level_zero_is_invalid() {
    let c = Config::new(Freddy::new(0, false, false, false));
    assert!(!c.is_valid());
}

#[test]
fn sixth_night_without_main_game_is_invalid() {
    let c = Config::new(Freddy::new(3, false, true, false));
    assert!(!c.is_valid());
}

#[test]
fn seventh_night_without_sixth_is_invalid() {
    let c = Config::new(Freddy::new(7, true, false, true));
    assert!(!c.is_valid());
}

#[test]
fn cumulative_progress_is_valid() {
    assert!(Config::new(Freddy::new(1, false, false, false)).is_valid());
    assert!(Config::new(Freddy::new(6, true, false, false)).is_valid());
    assert!(Config::new(Freddy::new(7, true, true, false)).is_valid());
    assert!(Config::new(Freddy::new(7, true, true, true)).is_valid());
}
