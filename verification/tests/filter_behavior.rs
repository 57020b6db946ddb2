use acta::filters::{empty, join_filters, level_max, level_min, level_range, target, Filter};
use acta::level::Level;
use acta::record::Metadata;

const ALL_LEVELS: [Level; 6] = [
    Level::Trace,
    Level::Debug,
    Level::Info,
    Level::Warning,
    Level::Error,
    Level::Fatal,
];

fn meta(level: Level) -> Metadata {
    Metadata::new(level, String::from("app::main"))
}

#[test]
fn empty_accepts_everything() {
    let f = empty();
    for level in ALL_LEVELS.iter() {
        assert!(f.apply(&meta(*level)));
    }
}

#[test]
fn level_bounds() {
    let at_least = level_min(Level::Warning);
    let at_most = level_max(Level::Info);
    for (i, level) in ALL_LEVELS.iter().enumerate() {
        assert_eq!(at_least.apply(&meta(*level)), i >= 3);
        assert_eq!(at_most.apply(&meta(*level)), i <= 2);
    }
}

#[test]
fn range_accepts_inside_inclusive() {
    let f = level_range(Level::Debug, Level::Error);
    for (i, level) in ALL_LEVELS.iter().enumerate() {
        assert_eq!(f.apply(&meta(*level)), (1..=4).contains(&i));
    }
}

#[test]
fn crossed_range_rejects_every_level() {
    let f = level_range(Level::Error, Level::Debug);
    for level in ALL_LEVELS.iter() {
        assert!(!f.apply(&meta(*level)));
    }
}

#[test]
fn target_matches_exactly() {
    let f = target(String::from("app::main"));
    assert!(f.apply(&meta(Level::Info)));
    assert!(!f.apply(&Metadata::new(Level::Info, String::from("app::other"))));
    assert!(!f.apply(&Metadata::new(Level::Info, String::from("app::mai"))));
}

#[test]
fn join_of_none_behaves_as_empty() {
    let joined = join_filters(Vec::new());
    let accept_all = empty();
    for level in ALL_LEVELS.iter() {
        let m = meta(*level);
        assert_eq!(joined.apply(&m), accept_all.apply(&m));
        assert!(joined.apply(&m));
    }
}

#[test]
fn join_is_logical_and() {
    let parts: Vec<Filter> = vec![
        level_min(Level::Info),
        level_max(Level::Error),
        target(String::from("app::main")),
    ];
    let joined = join_filters(vec![
        level_min(Level::Info),
        level_max(Level::Error),
        target(String::from("app::main")),
    ]);
    for level in ALL_LEVELS.iter() {
        for name in ["app::main", "elsewhere"] {
            let m = Metadata::new(*level, String::from(name));
            let each = parts.iter().all(|f| f.apply(&m));
            assert_eq!(joined.apply(&m), each);
        }
    }
}

#[test]
fn join_nests() {
    let inner = join_filters(vec![level_min(Level::Debug), level_max(Level::Warning)]);
    let outer = join_filters(vec![inner, target(String::from("app::main"))]);
    assert!(outer.apply(&meta(Level::Info)));
    assert!(!outer.apply(&meta(Level::Error)));
    assert!(!outer.apply(&Metadata::new(Level::Info, String::from("x"))));
}
