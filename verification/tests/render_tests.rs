use nexish::render::format_age;
use nexish::render::pad_count;
use nexish::render::render_long_entry;
use nexish::render::render_short_entry;
use nexish::text::u64_to_string;

#[test]
fn decimal_rendering_is_exact() {
    assert_eq!(u64_to_string(0), "0");
    assert_eq!(u64_to_string(7), "7");
    assert_eq!(u64_to_string(10), "10");
    assert_eq!(u64_to_string(105), "105");
    assert_eq!(u64_to_string(18446744073709551615), "18446744073709551615");
}

#[test]
fn ages_under_a_minute_are_just_now() {
    assert_eq!(format_age(0), "just now ");
    assert_eq!(format_age(59), "just now ");
}

#[test]
fn ages_under_an_hour_are_minutes() {
    assert_eq!(format_age(60), "1 min ago ");
    assert_eq!(format_age(119), "1 min ago ");
    assert_eq!(format_age(3599), "59 min ago ");
}

#[test]
fn ages_under_a_day_are_hours() {
    assert_eq!(format_age(3600), "1 hrs ago ");
    assert_eq!(format_age(86399), "23 hrs ago ");
}

#[test]
fn older_ages_are_days() {
    assert_eq!(format_age(86400), "1 days ago ");
    assert_eq!(format_age(259200), "3 days ago ");
}

#[test]
fn sizes_align_right_in_five_columns() {
    assert_eq!(pad_count(0), "    0");
    assert_eq!(pad_count(42), "   42");
    assert_eq!(pad_count(4096), " 4096");
    assert_eq!(pad_count(12345), "12345");
    assert_eq!(pad_count(123456), "123456");
}

#[test]
fn short_entries_are_followed_by_two_spaces() {
    assert_eq!(render_short_entry("a.txt"), "a.txt  ");
}

#[test]
fn long_entry_line_is_assembled_field_by_field() {
    assert_eq!(
        render_long_entry("drwxr-xr-x", 2, "root", "root", 4096, 30, "src"),
        "drwxr-xr-x 2 root root  4096 just now src  "
    );
    assert_eq!(
        render_long_entry("-rw-r--r--", 1, "alice", "users", 123456, 7200, "notes.txt"),
        "-rw-r--r-- 1 alice users 123456 2 hrs ago notes.txt  "
    );
}
