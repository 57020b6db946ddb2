use acta::level::Level;
use acta::logger::{gate_allows, resolve_level_gate};
use acta::time::{days_in_month_of, leap_year, Timestamp};

const ALL_LEVELS: [Level; 6] = [
    Level::Trace,
    Level::Debug,
    Level::Info,
    Level::Warning,
    Level::Error,
    Level::Fatal,
];

#[test]
fn severity_is_totally_ordered() {
    for (i, a) in ALL_LEVELS.iter().enumerate() {
        for (j, b) in ALL_LEVELS.iter().enumerate() {
            assert_eq!(a.le(b), i <= j);
            assert_eq!(a.ge(b), i >= j);
            assert_eq!(a.severity() == b.severity(), i == j);
        }
    }
}

#[test]
fn labels_are_fixed_width() {
    for level in ALL_LEVELS.iter() {
        assert_eq!(level.label_text().chars().count(), 5);
    }
    assert_eq!(Level::Info.label_text(), "Info ");
    assert_eq!(Level::Warning.label_text(), "Warn ");
    assert_eq!(Level::Error.label_text(), "Error");
}

#[test]
fn color_tags_are_escape_sequences() {
    for level in ALL_LEVELS.iter() {
        let tag = level.color_text();
        assert!(tag.starts_with("\u{1b}["));
        assert!(tag.ends_with('m'));
    }
    assert_eq!(acta::level::color_reset_text(), "\u{1b}[0m");
}

#[test]
fn gate_resolution_prefers_most_verbose() {
    assert_eq!(
        resolve_level_gate(true, true, true, true, true, true),
        Some(Level::Trace)
    );
    assert_eq!(
        resolve_level_gate(false, false, true, true, false, false),
        Some(Level::Info)
    );
    assert_eq!(
        resolve_level_gate(false, false, false, false, false, true),
        Some(Level::Fatal)
    );
    assert_eq!(resolve_level_gate(false, false, false, false, false, false), None);
}

#[test]
fn disabled_gate_passes_nothing() {
    for level in ALL_LEVELS.iter() {
        assert!(!gate_allows(None, *level));
    }
    assert!(gate_allows(Some(Level::Warning), Level::Error));
    assert!(gate_allows(Some(Level::Warning), Level::Warning));
    assert!(!gate_allows(Some(Level::Warning), Level::Info));
}

#[test]
fn leap_years_and_month_lengths() {
    assert!(leap_year(2024));
    assert!(!leap_year(2023));
    assert!(!leap_year(1900));
    assert!(leap_year(2000));
    assert_eq!(days_in_month_of(2024, 2), 29);
    assert_eq!(days_in_month_of(2023, 2), 28);
    assert_eq!(days_in_month_of(2024, 4), 30);
    assert_eq!(days_in_month_of(2024, 12), 31);
    assert_eq!(days_in_month_of(2024, 0), 0);
}

#[test]
fn timestamp_validity() {
    let good = Timestamp {
        year: 2024,
        month: 2,
        day: 29,
        hour: 23,
        minute: 59,
        second: 59,
        nanosecond: 1_500_000_000,
    };
    assert!(good.is_valid());
    let bad_day = Timestamp { day: 30, ..good };
    assert!(!bad_day.is_valid());
    let bad_leap = Timestamp {
        second: 58,
        nanosecond: 1_500_000_000,
        ..good
    };
    assert!(!bad_leap.is_valid());
}
