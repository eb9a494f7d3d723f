use romodoro::dates::PixelDate;
use romodoro::graph::{DataPoint, Graph, PixelaColors};
use romodoro::pixela_user::PixelaUser;
use romodoro::progress::Progress;
use romodoro::stateful_list::StatefulList;
use romodoro::subjects::{Subject, SubjectDataType, SubjectUnit};
use romodoro::text::{parse_u64, u64_to_string};

fn day(d: u8) -> PixelDate {
    PixelDate { year: 2024, month: 5, day: d, hour: 0, minute: 0 }
}

fn a_subject() -> Subject {
    Subject::try_new(
        String::from("gid"),
        String::from("https://pixe.la/v1/users/u/graphs/gid"),
        String::from("Focus"),
        SubjectDataType::Int,
        SubjectUnit::Minutes,
        PixelaColors::Momiji,
    )
    .unwrap()
}

#[test]
fn numbers_round_trip_through_text() {
    assert_eq!(u64_to_string(0), "0");
    assert_eq!(u64_to_string(42), "42");
    assert_eq!(u64_to_string(10_500), "10500");
    assert_eq!(parse_u64("42"), Some(42));
    assert_eq!(parse_u64("0"), Some(0));
    assert_eq!(parse_u64(""), None);
    assert_eq!(parse_u64("4x2"), None);
    assert_eq!(parse_u64("18446744073709551615"), Some(u64::MAX));
    assert_eq!(parse_u64("18446744073709551616"), None);
}

#[test]
fn stateful_list_selection() {
    let mut list: StatefulList<u32> = StatefulList::new(vec![10, 20, 30]);
    assert_eq!(list.selected(), None);
    list.select_next();
    assert_eq!(list.selected(), Some(0));
    list.select_next();
    assert_eq!(list.selected(), Some(1));
    list.select_previous();
    assert_eq!(list.selected(), Some(0));
    list.select(Some(5));
    list.refresh_state();
    assert_eq!(list.selected(), Some(2));
    let taken = list.take_items();
    assert_eq!(taken, vec![10, 20, 30]);
    assert!(list.is_empty());
    list.refresh_state();
    assert_eq!(list.selected(), None);
    list.push(7);
    assert_eq!(list.items(), &vec![7]);
    let removed = list.remove_item(0);
    assert_eq!(removed, 7);
}

#[test]
fn pixela_user_validation() {
    let user = PixelaUser::new(String::from("alice"), String::from("SECRET-REDACTED"));
    assert!(user.validate_not_empty());
    assert_eq!(user.username(), "alice");
    assert!(user.subjects().is_empty());
    let empty = PixelaUser::new(String::new(), String::from("t"));
    assert!(!empty.validate_not_empty());
}

#[test]
fn graph_fills_every_day_of_the_window() {
    let subject = a_subject();
    let points = vec![
        DataPoint::new(day(3), Progress::Int(120)),
        DataPoint::new(day(1), Progress::Int(60)),
    ];
    let mut graph = Graph::new(points, subject);
    let today = day(5);
    graph.fill_empty_days(&today);
    let data = graph.data();
    assert_eq!(data.len(), 30);
    // The window ends today and holds one entry per day, oldest first.
    assert_eq!(data[29].date(), day(5));
    assert_eq!(data[27].date(), day(3));
    assert_eq!(*data[27].quantity(), Progress::Int(120));
    assert_eq!(*data[25].quantity(), Progress::Int(60));
    assert_eq!(*data[29].quantity(), Progress::Int(0));
    // Quantities in whole graph units, and the largest of the month.
    assert_eq!(graph.get_max_quantity(), 2);
    let labels = graph.get_labels();
    assert_eq!(labels[29], "05");
    let series = graph.datapoints_into_u64();
    assert_eq!(series[27], (27, 2));
}
