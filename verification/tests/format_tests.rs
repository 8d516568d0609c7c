use status_bar::units::{decimal_string, format_bytes};
use status_bar::widget::{default_format, MemorySnapshot};

#[test]
fn decimal_rendering() {
    assert_eq!(decimal_string(0), "0");
    assert_eq!(decimal_string(7), "7");
    assert_eq!(decimal_string(10), "10");
    assert_eq!(decimal_string(90530), "90530");
    assert_eq!(decimal_string(u64::MAX), "18446744073709551615");
}

#[test]
fn bytes_under_one_kilobyte_stay_in_bytes() {
    assert_eq!(format_bytes(0), "0.0 B");
    assert_eq!(format_bytes(1), "1.0 B");
    assert_eq!(format_bytes(512), "512.0 B");
    assert_eq!(format_bytes(1023), "1023.0 B");
}

#[test]
fn unit_steps_are_binary() {
    assert_eq!(format_bytes(1024), "1.0 KB");
    assert_eq!(format_bytes(1536), "1.5 KB");
    assert_eq!(format_bytes(1024 * 1024), "1.0 MB");
    assert_eq!(format_bytes(1024 * 1024 * 1024), "1.0 GB");
    assert_eq!(format_bytes(1024u64 * 1024 * 1024 * 1024), "1.0 TB");
    assert_eq!(format_bytes(1024u64 * 1024 * 1024 * 1024 * 1024), "1.0 PB");
    assert_eq!(
        format_bytes(1024u64 * 1024 * 1024 * 1024 * 1024 * 1024),
        "1.0 EB"
    );
    assert_eq!(format_bytes(u64::MAX), "16.0 EB");
}

#[test]
fn fractional_values_round_to_one_decimal() {
    // 1.25 GiB sits on a tie between 1.2 and 1.3; ties round upward.
    assert_eq!(format_bytes(1_342_177_280), "1.3 GB");
    // 1.125 KiB is 11.25 tenths of a KB, rounding down to 1.1 KB.
    assert_eq!(format_bytes(1152), "1.1 KB");
    // Just under the next unit: 1 MiB - 1 rounds up to 1024.0 KB.
    assert_eq!(format_bytes(1024 * 1024 - 1), "1024.0 KB");
}

#[test]
fn used_slot_carries_the_free_counter() {
    // The value before the slash is the free-memory counter, not
    // total minus free (which here would be 3.0 KB).
    let snapshot = MemorySnapshot {
        total_memory: 4096,
        free_memory: 1024,
        total_swap: 0,
        free_swap: 0,
    };
    assert_eq!(default_format(&snapshot), "(1.0 KB/4.0 KB)");
}

#[test]
fn unit_adjustment_two_gib_of_eight() {
    let snapshot = MemorySnapshot {
        total_memory: 8_589_934_592,
        free_memory: 2_147_483_648,
        total_swap: 0,
        free_swap: 0,
    };
    assert_eq!(default_format(&snapshot), "(2.0 GB/8.0 GB)");
}
