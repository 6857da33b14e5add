use mj_tui::decimal::{decimal_text, signed_text};
use mj_tui::widgets::{counted, format_resource_bytes, height_of_lines, popup_height};

#[test]
fn counted_agrees_the_noun_with_the_count() {
    assert_eq!(counted(0_usize, "entry", "entries"), "0 entries");
    assert_eq!(counted(1_usize, "entry", "entries"), "1 entry");
    assert_eq!(counted(2_i64, "command", "commands"), "2 commands");
}

#[test]
fn counts_keep_their_sign_and_size() {
    assert_eq!(counted(-1_i64, "file", "files"), "-1 files");
    assert_eq!(counted(u64::MAX, "byte", "bytes"), "18446744073709551615 bytes");
    assert_eq!(counted(1_u64, "byte", "bytes"), "1 byte");
}

#[test]
fn decimal_text_reads_back() {
    for n in [0, 7, 10, 99, 100, 65_535, u128::from(u64::MAX), u128::MAX] {
        assert_eq!(decimal_text(n), format!("{n}"));
        assert_eq!(decimal_text(n).parse::<u128>(), Ok(n));
    }
    for n in [0, -1, 41, i64::MAX, i64::MIN] {
        assert_eq!(signed_text(n), format!("{n}"));
    }
}

#[test]
fn popups_grow_with_their_lines() {
    assert_eq!(height_of_lines(0, 10), 10);
    assert_eq!(height_of_lines(3, 10), 10);
    assert_eq!(height_of_lines(17, 10), 17);
    assert_eq!(height_of_lines(usize::MAX, 10), u16::MAX);
}

#[test]
fn resource_sizes_read_in_the_unit_that_fits() {
    let gib = 1024_u64 * 1024 * 1024;
    assert_eq!(format_resource_bytes(0), "0B");
    assert_eq!(format_resource_bytes(1023), "1023B");
    assert_eq!(format_resource_bytes(1024), "1.0K");
    assert_eq!(format_resource_bytes(1024 + 256), "1.2K");
    assert_eq!(format_resource_bytes(1024 + 768), "1.8K");
    assert_eq!(format_resource_bytes(2_621_440), "2.5M");
    assert_eq!(format_resource_bytes(32 * gib), "32.0G");
    assert_eq!(format_resource_bytes(3 * 1024 * gib / 2), "1.5T");
}

#[test]
fn resource_sizes_agree_with_double_precision() {
    let mut bytes: u64 = 1;
    let mut sizes = vec![u64::MAX, u64::MAX - 1, (1 << 53) + 1, (1 << 63) + 3 * (1 << 38)];
    for _ in 0..3000 {
        bytes = bytes.wrapping_mul(6_364_136_223_846_793_005).wrapping_add(1_442_695_040_888_963_407);
        sizes.push(bytes >> (bytes % 63));
        sizes.push((bytes >> (bytes % 63)) & !0x3f);
    }
    for size in sizes {
        let scaled = |unit: i32| size as f64 / 1024_f64.powi(unit);
        let expected = if size < 1024 {
            format!("{size}B")
        } else if size < 1024 * 1024 {
            format!("{:.1}K", scaled(1))
        } else if size < 1024 * 1024 * 1024 {
            format!("{:.1}M", scaled(2))
        } else if size < 1024_u64.pow(4) {
            format!("{:.1}G", scaled(3))
        } else {
            format!("{:.1}T", scaled(4))
        };
        assert_eq!(format_resource_bytes(size), expected, "{size}");
    }
}

#[test]
fn popups_keep_wrapped_lines_visible() {
    let text = "Hello World";
    assert_eq!(popup_height(text, false, 22, 1), 1);
    assert_eq!(popup_height(text, false, 12, 1), 2);
    assert_eq!(popup_height(text, false, 12, 9), 9);
    assert_eq!(popup_height("one\ntwo\nthree", false, 40, 1), 3);
    assert_eq!(popup_height(text, false, 1, 4), 4);
    assert_eq!(popup_height("ab cd", true, 4, 1), 2);
}

#[test]
fn a_short_text_is_measured_at_any_width() {
    assert_eq!(popup_height("one\ntwo\nthree", false, u16::MAX, 1), 3);
    assert_eq!(popup_height("alpha beta", true, u16::MAX, 1), 1);
}
