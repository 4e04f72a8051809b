use screenlapse::naming::{
    combined_filename, day_glob_pattern, file_matches_day, per_display_filename, video_filename,
    Date, Timestamp,
};
use screenlapse::tools::{muxer_args, recompress_args};

fn sample_timestamp() -> Timestamp {
    Timestamp {
        date: Date { year: 2024, month: 3, day: 1 },
        hour: 12,
        minute: 34,
        second: 56,
    }
}

#[test]
fn combined_filename_format() {
    let name = combined_filename("screen", &sample_timestamp());
    assert_eq!(name, "screen_20240301_123456.png");
}

#[test]
fn per_display_filename_carries_width() {
    let name = per_display_filename("screen", &sample_timestamp(), 1920);
    assert_eq!(name, "screen_20240301_123456_1920.png");
}

#[test]
fn filename_zero_pads_every_field() {
    let t = Timestamp {
        date: Date { year: 987, month: 1, day: 2 },
        hour: 3,
        minute: 4,
        second: 5,
    };
    assert_eq!(combined_filename("s", &t), "s_09870102_030405.png");
}

#[test]
fn day_glob_format() {
    let d = Date { year: 2024, month: 3, day: 1 };
    assert_eq!(day_glob_pattern("screen", &d), "screen_20240301*.png");
}

#[test]
fn video_filename_format() {
    let d = Date { year: 2024, month: 3, day: 1 };
    assert_eq!(video_filename("screen", &d), "screen_20240301.mp4");
}

#[test]
fn day_glob_matches_that_days_artifacts() {
    let d = Date { year: 2024, month: 3, day: 1 };
    assert!(file_matches_day("screen_20240301_080000.png", "screen", &d));
    assert!(file_matches_day("screen_20240301_120000.png", "screen", &d));
    assert!(file_matches_day("screen_20240301_235959_1920.png", "screen", &d));
    // Other day, other prefix, other extension, or too short: not matched.
    assert!(!file_matches_day("screen_20240302_080000.png", "screen", &d));
    assert!(!file_matches_day("other_20240301_080000.png", "screen", &d));
    assert!(!file_matches_day("screen_20240301_080000.mp4", "screen", &d));
    assert!(!file_matches_day("screen_20240301", "screen", &d));
}

#[test]
fn recompressor_command_line() {
    let args = recompress_args("shot.png");
    assert_eq!(
        args,
        vec!["--force", "--skip-if-larger", "--quality", "40-60", "--output", "shot.png",
            "shot.png"]
    );
}

#[test]
fn muxer_command_line_for_a_day() {
    // Three artifacts of the day are selected by the glob the muxer gets;
    // a neighbouring day's artifact is not.
    let d = Date { year: 2024, month: 3, day: 1 };
    let day_files =
        ["screen_20240301_080000.png", "screen_20240301_120000.png", "screen_20240301_160000.png"];
    for f in day_files {
        assert!(file_matches_day(f, "screen", &d));
    }
    assert!(!file_matches_day("screen_20240229_120000.png", "screen", &d));

    let args = muxer_args("shots", "screen", &d);
    assert_eq!(args.len(), 11);
    assert_eq!(args[0], "-framerate");
    assert_eq!(args[1], "2");
    assert_eq!(args[2], "-pattern_type");
    assert_eq!(args[3], "glob");
    assert_eq!(args[4], "-i");
    assert_eq!(args[5], "shots/screen_20240301*.png");
    assert_eq!(args[6], "-c:v");
    assert_eq!(args[7], "libx265");
    assert_eq!(args[8], "-pix_fmt");
    assert_eq!(args[9], "yuv420p");
    assert_eq!(args[10], "shots/screen_20240301.mp4");
}
