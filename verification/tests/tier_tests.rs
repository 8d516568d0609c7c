use status_bar::tier::{tier_of, Tier};
use status_bar::widget::{dual_metric_format, MemorySnapshot};

#[test]
fn thresholds_on_the_primary_metric() {
    assert_eq!(tier_of(49, 100), Tier::Normal);
    assert_eq!(tier_of(50, 100), Tier::Warning);
    assert_eq!(tier_of(79, 100), Tier::Warning);
    assert_eq!(tier_of(80, 100), Tier::Critical);
    assert_eq!(tier_of(100, 100), Tier::Critical);
    assert_eq!(tier_of(0, 100), Tier::Normal);
}

#[test]
fn thresholds_are_exact_fractions_at_odd_totals() {
    // Four fifths of 99 is 79.2: 78 and 79 sit below it, 80 above.
    assert_eq!(tier_of(78, 99), Tier::Warning);
    assert_eq!(tier_of(79, 99), Tier::Warning);
    assert_eq!(tier_of(80, 99), Tier::Critical);
    // Half of 101 is 50.5: 50 sits below it, 51 at or above.
    assert_eq!(tier_of(50, 101), Tier::Normal);
    assert_eq!(tier_of(51, 101), Tier::Warning);
    // Four fifths of 101 is 80.8: 80 below, 81 above.
    assert_eq!(tier_of(80, 101), Tier::Warning);
    assert_eq!(tier_of(81, 101), Tier::Critical);
    // A tiny total is not misclassified: nothing used of 2 is normal,
    // half of it warning, all of it critical.
    assert_eq!(tier_of(0, 2), Tier::Normal);
    assert_eq!(tier_of(1, 2), Tier::Warning);
    assert_eq!(tier_of(2, 2), Tier::Critical);
    // The comparisons are widened, so the largest counters cannot overflow.
    assert_eq!(tier_of(u64::MAX, u64::MAX), Tier::Critical);
    assert_eq!(tier_of(u64::MAX / 2, u64::MAX), Tier::Normal);
}

#[test]
fn zero_total_resolves_to_normal() {
    assert_eq!(tier_of(0, 0), Tier::Normal);
    assert_eq!(tier_of(5, 0), Tier::Normal);
    assert_eq!(tier_of(u64::MAX, 0), Tier::Normal);
}

#[test]
fn swap_tier_is_independent_of_memory_tier() {
    // Memory at a quarter of its total is normal while swap, fully used,
    // is critical: each metric is classified against its own total.
    let snapshot = MemorySnapshot {
        total_memory: 8_589_934_592,
        free_memory: 2_147_483_648,
        total_swap: 1_073_741_824,
        free_swap: 1_073_741_824,
    };
    let line = dual_metric_format(&snapshot);
    assert_eq!(
        line,
        "<span foreground=\"#808080\">[</span>\u{1f9e0} <span foreground=\"#ffffff\">2.0 GB</span>\
         /8.0 GB<span foreground=\"#808080\">]</span> <span foreground=\"#808080\">[</span>\u{1f4be} \
         <span foreground=\"#ff0000\">1.0 GB</span>/1.0 GB<span foreground=\"#808080\">]</span>"
    );

    // The mirrored case: memory critical, swap normal.
    let mirrored = MemorySnapshot {
        total_memory: 1_073_741_824,
        free_memory: 1_073_741_824,
        total_swap: 8_589_934_592,
        free_swap: 2_147_483_648,
    };
    let line = dual_metric_format(&mirrored);
    assert!(line.contains("<span foreground=\"#ff0000\">1.0 GB</span>"));
    assert!(line.contains("<span foreground=\"#ffffff\">2.0 GB</span>"));
}

#[test]
fn dual_format_with_zero_totals_stays_normal() {
    let snapshot = MemorySnapshot {
        total_memory: 0,
        free_memory: 0,
        total_swap: 0,
        free_swap: 0,
    };
    let line = dual_metric_format(&snapshot);
    assert!(line.contains("<span foreground=\"#ffffff\">0.0 B</span>/0.0 B"));
    assert!(!line.contains("#ffff00"));
    assert!(!line.contains("#ff0000"));
}

#[test]
fn warning_tier_colours_the_used_value_yellow() {
    // Memory at exactly half its total is the warning tier.
    let snapshot = MemorySnapshot {
        total_memory: 8_589_934_592,
        free_memory: 4_294_967_296,
        total_swap: 100,
        free_swap: 49,
    };
    let line = dual_metric_format(&snapshot);
    assert!(line.contains("<span foreground=\"#ffff00\">4.0 GB</span>/8.0 GB"));
    assert!(line.contains("<span foreground=\"#ffffff\">49.0 B</span>/100.0 B"));
}
