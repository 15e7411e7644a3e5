use harvest::json::Number;
use harvest::model::{
    is_iso_date, Client, Project, ProjectAssignment, ProjectPage, Task, TaskAssignment, TimeEntry,
    User,
};
use harvest::text::{decimal_string, push_decimal};

fn double(x: f64) -> Number {
    Number::Real(x.to_bits())
}

#[test]
fn decimal_of_zero_is_one_digit() {
    assert_eq!(decimal_string(0), "0");
}

#[test]
fn decimal_has_no_padding_and_no_sign() {
    assert_eq!(decimal_string(7), "7");
    assert_eq!(decimal_string(10), "10");
    assert_eq!(decimal_string(1905), "1905");
    assert_eq!(decimal_string(4294967295), "4294967295");
}

#[test]
fn decimal_agrees_with_the_standard_rendering() {
    for n in [0u32, 1, 9, 10, 11, 99, 100, 101, 12345, 1_000_000, u32::MAX - 1, u32::MAX] {
        assert_eq!(decimal_string(n), n.to_string());
    }
}

#[test]
fn push_decimal_appends() {
    let mut s = String::from("page=");
    push_decimal(&mut s, 42);
    assert_eq!(s, "page=42");
}

#[test]
fn positive_follows_the_comparison_of_floats() {
    let samples = [
        0.0f64,
        -0.0,
        1.0,
        -1.0,
        0.25,
        1.5,
        f64::MIN_POSITIVE,
        f64::from_bits(1),
        f64::MAX,
        f64::MIN,
        f64::INFINITY,
        f64::NEG_INFINITY,
        f64::NAN,
        -f64::NAN,
        f64::from_bits(0x7FF0_0000_0000_0001),
        f64::from_bits(0xFFFF_FFFF_FFFF_FFFF),
        f64::from(f32::MIN_POSITIVE),
        f64::from(0.1f32),
    ];
    for x in samples {
        assert_eq!(double(x).is_positive(), x > 0.0, "{:?}", x);
        assert_eq!(double(x).is_non_negative(), x >= 0.0, "{:?}", x);
    }
}

#[test]
fn whole_numbers_are_positive_from_one_on() {
    assert!(!Number::Whole(0).is_positive());
    assert!(Number::Whole(1).is_positive());
    assert!(Number::Whole(u64::MAX).is_positive());
    assert!(Number::Whole(0).is_non_negative());
}

#[test]
fn numbers_below_zero_are_neither() {
    assert!(!Number::Negative(-1).is_positive());
    assert!(!Number::Negative(-1).is_non_negative());
    assert!(!Number::Negative(i64::MIN).is_non_negative());
}

#[test]
fn iso_date_takes_the_shape_only() {
    assert!(is_iso_date("2024-02-29"));
    assert!(is_iso_date("0000-00-00"));
    assert!(is_iso_date("9999-99-99"));
}

#[test]
fn iso_date_refuses_other_shapes() {
    assert!(!is_iso_date(""));
    assert!(!is_iso_date("2024-2-29"));
    assert!(!is_iso_date("2024/02/29"));
    assert!(!is_iso_date("2024-02-29 "));
    assert!(!is_iso_date("20240229"));
    assert!(!is_iso_date("2024-02-2x"));
    assert!(!is_iso_date("x024-02-29"));
    assert!(!is_iso_date("2024-02_29"));
    assert!(!is_iso_date("٢٠٢٤-٠٢-٢٩"));
}

fn project(id: u32) -> Project {
    Project { id, name: String::from("Site"), client: None }
}

#[test]
fn identifiers_must_be_above_zero() {
    assert!(Client { id: 1, name: String::new() }.is_well_formed());
    assert!(!Client { id: 0, name: String::from("Acme") }.is_well_formed());
    assert!(project(3).is_well_formed());
    assert!(!project(0).is_well_formed());
    assert!(Task { id: 9, name: String::new() }.is_well_formed());
    assert!(!Task { id: 0, name: String::new() }.is_well_formed());
    assert!(User { id: 1 }.is_well_formed());
    assert!(!User { id: 0 }.is_well_formed());
}

#[test]
fn assignments_are_as_good_as_their_parts() {
    assert!(ProjectAssignment { id: 0, project: project(1) }.is_well_formed());
    assert!(!ProjectAssignment { id: 5, project: project(0) }.is_well_formed());
    let task = |id| Task { id, name: String::from("Dev") };
    assert!(TaskAssignment { id: 1, project: project(1), task: task(2) }.is_well_formed());
    assert!(!TaskAssignment { id: 1, project: project(0), task: task(2) }.is_well_formed());
    assert!(!TaskAssignment { id: 1, project: project(1), task: task(0) }.is_well_formed());
}

fn entry_with(hours: Number, date: &str) -> TimeEntry {
    TimeEntry {
        id: 1,
        project: project(1),
        client: Client { id: 1, name: String::from("Acme") },
        hours,
        user: User { id: 1 },
        spent_date: String::from(date),
        task: Task { id: 1, name: String::from("Dev") },
        notes: None,
        is_running: false,
    }
}

#[test]
fn time_entry_needs_hours_from_zero_and_a_date() {
    assert!(entry_with(double(0.0), "2024-01-31").is_well_formed());
    assert!(entry_with(double(7.5), "2024-01-31").is_well_formed());
    assert!(entry_with(Number::Whole(8), "2024-01-31").is_well_formed());
    assert!(!entry_with(double(-0.5), "2024-01-31").is_well_formed());
    assert!(!entry_with(double(f64::NAN), "2024-01-31").is_well_formed());
    assert!(!entry_with(double(1.0), "31.01.2024").is_well_formed());
}

#[test]
fn page_bounds() {
    let page = |count: usize, per_page, total_pages, page| ProjectPage {
        projects: (0..count).map(|i| project(i as u32 + 1)).collect(),
        per_page,
        total_pages,
        total_entries: count as u32,
        page,
    };
    assert!(page(2, 2, 1, 1).is_well_formed());
    assert!(page(0, 100, 1, 1).is_well_formed());
    assert!(!page(3, 2, 1, 1).is_well_formed());
    assert!(!page(1, 2, 1, 2).is_well_formed());
}
