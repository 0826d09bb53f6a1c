use screeps_bot::extensions::random::{seed_from_game_time, ScreepsRng};
use screeps_bot::extensions::uuid::UuidScreeps;
use screeps_bot::logging::{get_level_colour, ConsoleLogger, Level, LevelFilter};

#[test]
fn level_colours() {
    assert_eq!(get_level_colour(Level::Error), "#FF0000");
    assert_eq!(get_level_colour(Level::Warn), "#FFFF00");
    assert_eq!(get_level_colour(Level::Info), "#005fff");
    assert_eq!(get_level_colour(Level::Debug), "#00FFFF");
    assert_eq!(get_level_colour(Level::Trace), "#FFFFFF");
}

#[test]
fn log_line_layout() {
    let logger = ConsoleLogger::new(LevelFilter::Trace);
    assert_eq!(logger.level(), LevelFilter::Trace);
    let line = logger.render(Level::Info, "bot", Some("src/lib.rs"), Some(42), Some("screeps_bot"), "hello");
    assert_eq!(
        line,
        "<span style=\"color:#005fff;\">[INFO] </span><span>bot       : </span><span>[src/lib.rs:42] </span><span>[screeps_bot] </span><span>hello</span>"
    );
    let bare = logger.render(Level::Error, "a_long_target_name", None, None, None, "x");
    assert_eq!(
        bare,
        "<span style=\"color:#FF0000;\">[ERROR] </span><span>a_long_target_name: </span><span>[<unknown>] </span><span>[<unknown>] </span><span>x</span>"
    );
    let located = logger.render(Level::Warn, "t", None, Some(7), None, "");
    assert!(located.contains("<span>[<unknown>:7] </span>"));
    assert!(located.contains("[WARN] "));
}

#[test]
fn level_filter_comparison() {
    let trace = ConsoleLogger::new(LevelFilter::Trace);
    assert!(trace.enabled(Level::Trace));
    assert!(!trace.enabled(Level::Error));
    let off = ConsoleLogger::new(LevelFilter::Off);
    assert!(off.enabled(Level::Error));
}

#[test]
fn seed_mixes_time_and_cpu() {
    assert_eq!(seed_from_game_time(5, 3), 5 ^ (3u64 << 32));
    assert_eq!(seed_from_game_time(u32::MAX, 0), u32::MAX as u64);
    let rng = <rand_xorshift::XorShiftRng as ScreepsRng>::from_game_time(1, 2);
    let expected = <rand_xorshift::XorShiftRng as rand::SeedableRng>::seed_from_u64(1 ^ (2u64 << 32));
    assert!(rng == expected);
    let other = <rand_xorshift::XorShiftRng as ScreepsRng>::from_game_time(1, 3);
    assert!(rng != other);
    let cpu_only = <rand_xorshift::XorShiftRng as rand::SeedableRng>::seed_from_u64(2u64 << 32);
    assert!(rng != cpu_only);
}

#[test]
fn uuid_v4_bits_are_set() {
    let id = <u128 as UuidScreeps>::new_screeps_v4([0u8; 16]);
    assert_eq!(id, 0x0000_0000_0000_4000_8000_0000_0000_0000u128);
    let all = <u128 as UuidScreeps>::new_screeps_v4([0xffu8; 16]);
    assert_eq!(all, 0xffff_ffff_ffff_4fff_bfff_ffff_ffff_ffffu128);
}
