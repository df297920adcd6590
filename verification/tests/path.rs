use journal::date::Date;
use journal::path::decimal_text;
use journal::path::make_path;
use journal::path::path_below;
use journal::path::resolve;
use journal::path::JournalPath;

#[test]
fn resolve_alice_on_the_seventh_of_march() {
    let path = resolve("/home/alice", "alice", Date { year: 2024, month: 3, day: 7 }, false);
    assert_eq!(
        path,
        JournalPath {
            home: "/home/alice".to_string(),
            store: ".journals".to_string(),
            user: "alice".to_string(),
            year: "2024".to_string(),
            month: "3".to_string(),
            file: "7.json".to_string(),
            ensure_dir: false,
        }
    );
}

#[test]
fn resolve_gives_the_same_path_whatever_the_flag_and_the_order_of_calls() {
    let date = Date { year: 2024, month: 3, day: 7 };
    let first = resolve("/home/alice", "alice", date, true);
    let other = resolve("/home/bob", "bob", Date { year: 1999, month: 12, day: 31 }, false);
    let second = resolve("/home/alice", "alice", date, false);
    let third = resolve("/home/alice", "alice", date, true);
    assert!(first.ensure_dir);
    assert!(!second.ensure_dir);
    assert_eq!(first, third);
    assert_eq!(
        (&first.home, &first.store, &first.user, &first.year, &first.month, &first.file),
        (&second.home, &second.store, &second.user, &second.year, &second.month, &second.file)
    );
    assert_eq!(other.user, "bob");
    assert_eq!(other.year, "1999");
    assert_eq!(other.month, "12");
    assert_eq!(other.file, "31.json");
}

#[test]
fn resolve_pads_nothing_and_checks_nothing() {
    let path = resolve("", "../x", Date { year: -44, month: 0, day: 100 }, true);
    assert_eq!(path.home, "");
    assert_eq!(path.store, ".journals");
    assert_eq!(path.user, "../x");
    assert_eq!(path.year, "-44");
    assert_eq!(path.month, "0");
    assert_eq!(path.file, "100.json");
    let path = resolve("/h", "u", Date { year: i32::MIN, month: u32::MAX, day: u32::MAX }, false);
    assert_eq!(path.year, "-2147483648");
    assert_eq!(path.month, "4294967295");
    assert_eq!(path.file, "4294967295.json");
}

#[test]
fn decimal_text_writes_numbers_as_std_does() {
    assert_eq!(decimal_text(0), "0");
    assert_eq!(decimal_text(7), "7");
    assert_eq!(decimal_text(10), "10");
    assert_eq!(decimal_text(2024), "2024");
    assert_eq!(decimal_text(-1), "-1");
    assert_eq!(decimal_text(-120), "-120");
    assert_eq!(decimal_text(1234567890), "1234567890");
    assert_eq!(decimal_text(i64::MAX), "9223372036854775807");
    assert_eq!(decimal_text(i64::MIN), "-9223372036854775808");
    for n in -1100i64..1100 {
        assert_eq!(decimal_text(n), n.to_string());
    }
}

#[test]
fn make_path_stands_below_the_home_directory() {
    let date = Date { year: 2024, month: 3, day: 7 };
    let from_environment = make_path("alice", date, true);
    let again = make_path("alice", date, false);
    match (from_environment, again) {
        (Some(path), Some(second)) => {
            assert_eq!(path, resolve(&path.home, "alice", date, true));
            assert_eq!(second, resolve(&path.home, "alice", date, false));
        }
        (None, None) => {}
        _ => panic!("the home directory came and went"),
    }
}

#[test]
fn path_below_a_home_directory_is_the_resolved_path() {
    let date = Date { year: 2024, month: 3, day: 7 };
    assert_eq!(
        path_below(Some("/home/alice".to_string()), "alice", date, true),
        Some(resolve("/home/alice", "alice", date, true))
    );
    assert_eq!(
        path_below(Some(String::new()), "bob", date, false),
        Some(JournalPath {
            home: String::new(),
            store: ".journals".to_string(),
            user: "bob".to_string(),
            year: "2024".to_string(),
            month: "3".to_string(),
            file: "7.json".to_string(),
            ensure_dir: false,
        })
    );
}

#[test]
fn path_below_no_home_directory_is_none() {
    let date = Date { year: 2024, month: 3, day: 7 };
    assert_eq!(path_below(None, "alice", date, true), None);
    assert_eq!(path_below(None, "", date, false), None);
}
