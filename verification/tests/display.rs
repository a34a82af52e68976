use copyfile::errors::TransferError;
use copyfile::paths::{concatenate_path, get_file_name};
use copyfile::probe::{file_exists, is_directory};
use copyfile::progress::column_of;
use copyfile::term::{glyph, render_glyph, ruler_line, scale_line, size_divisor, size_unit};

#[test]
fn column_mapping_is_exact() {
    assert_eq!(column_of(0, 10_000), 0);
    assert_eq!(column_of(1, 10_000), 0);
    assert_eq!(column_of(50, 100), 50);
    assert_eq!(column_of(9_999, 10_000), 99);
    assert_eq!(column_of(10_000, 10_000), 100);
    assert_eq!(column_of(1, 3), 33);
    assert_eq!(column_of(0, 0), 100);
    assert_eq!(column_of(u64::MAX, u64::MAX), 100);
}

#[test]
fn glyph_follows_style() {
    assert_eq!(glyph(true), "#");
    assert_eq!(glyph(false), "\u{2592}");
}

#[test]
fn glyphs_are_painted_cyan() {
    assert_eq!(render_glyph(true, false), "\u{1b}[36m#\u{1b}[0m");
    assert_eq!(render_glyph(false, false), "\u{1b}[36m\u{2592}\u{1b}[0m");
}

#[test]
fn resumed_glyphs_are_painted_dimmed() {
    assert_eq!(render_glyph(true, true), "\u{1b}[2;36m#\u{1b}[0m");
    assert_eq!(render_glyph(false, true), "\u{1b}[2;36m\u{2592}\u{1b}[0m");
}

#[test]
fn scale_header_is_painted_yellow() {
    assert_eq!(
        scale_line(),
        "\u{1b}[33m0        10        20        30        40        50        60        70        80        90       100\u{1b}[0m"
    );
}

#[test]
fn ascii_ruler_is_painted_yellow() {
    assert_eq!(
        ruler_line(true),
        "\u{1b}[33m|--------|---------|---------|---------|---------|---------|---------|---------|---------|---------|\u{1b}[0m"
    );
}

#[test]
fn box_ruler_is_painted_yellow() {
    let line = ruler_line(false);
    assert!(line.starts_with("\u{1b}[33m\u{2523}"));
    assert!(line.ends_with("\u{252b}\u{1b}[0m"));
    assert_eq!(line.chars().count(), 100 + 5 + 4);
}

#[test]
fn size_units_step_at_powers_of_1024() {
    assert_eq!(size_unit(0), "bytes");
    assert_eq!(size_unit(1_023), "bytes");
    assert_eq!(size_unit(1_024), "Kb");
    assert_eq!(size_unit(1_048_575), "Kb");
    assert_eq!(size_unit(1_048_576), "Mb");
    assert_eq!(size_unit(1 << 30), "Gb");
    assert_eq!(size_unit(1 << 40), "Tb");
}

#[test]
fn size_divisor_matches_unit() {
    assert_eq!(size_divisor(512), 1);
    assert_eq!(size_divisor(2_048), 1_024);
    assert_eq!(size_divisor(5 << 20), 1 << 20);
    assert_eq!(size_divisor(5 << 30), 1 << 30);
    assert_eq!(size_divisor(5 << 40), 1 << 40);
}

#[test]
fn file_name_extraction() {
    assert_eq!(get_file_name("/tmp/archive.tar").unwrap(), "archive.tar");
    assert_eq!(get_file_name("plain.txt").unwrap(), "plain.txt");
    assert_eq!(get_file_name("./plain.txt").unwrap(), "plain.txt");
    assert_eq!(get_file_name("a/.hidden").unwrap(), ".hidden");
    assert_eq!(get_file_name("/").unwrap_err(), TransferError::InvalidPath);
    assert_eq!(get_file_name("").unwrap_err(), TransferError::InvalidPath);
}

#[test]
fn file_name_skips_dot_components() {
    assert_eq!(get_file_name("dir/.").unwrap(), "dir");
    assert_eq!(get_file_name("dir/./").unwrap(), "dir");
    assert_eq!(get_file_name("dir/././").unwrap(), "dir");
    assert_eq!(get_file_name(".").unwrap_err(), TransferError::InvalidPath);
    assert_eq!(get_file_name("./").unwrap_err(), TransferError::InvalidPath);
    assert_eq!(get_file_name("/.").unwrap_err(), TransferError::InvalidPath);
    assert_eq!(get_file_name("a/..").unwrap_err(), TransferError::InvalidPath);
    assert_eq!(get_file_name("..").unwrap_err(), TransferError::InvalidPath);
}

#[test]
fn path_concatenation() {
    assert_eq!(concatenate_path("/tmp", "a.txt"), "/tmp/a.txt");
    assert_eq!(concatenate_path("dir", "f"), "dir/f");
}

#[test]
fn probes_answer_about_missing_paths() {
    assert!(!file_exists("/no/such/path/for/this/test"));
    assert!(!is_directory("/no/such/path/for/this/test"));
}
