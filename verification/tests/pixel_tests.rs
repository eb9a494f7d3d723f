use romodoro::dates::PixelDate;
use romodoro::error::StatsError;
use romodoro::graph::PixelaColors;
use romodoro::pixel::{check_if_quantity_is_big_enough, ComplexPixel, IsRounded, Pixel};
use romodoro::pixela_client::PixelaClient;
use romodoro::pixela_user::PixelaUser;
use romodoro::progress::{Progress, TimeUnit};
use romodoro::subjects::{Subject, SubjectDataType, SubjectUnit};

fn subject(name: &str, data_type: SubjectDataType, unit: SubjectUnit) -> Subject {
    Subject::try_new(
        String::from("gid"),
        String::from("https://pixe.la/v1/users/u/graphs/gid"),
        String::from(name),
        data_type,
        unit,
        PixelaColors::Shibafu,
    )
    .expect("a valid subject")
}

fn noon(day: u8) -> PixelDate {
    PixelDate { year: 2024, month: 5, day, hour: 12, minute: 30 }
}

#[test]
fn minutes_graph_accepts_one_minute() {
    let px = ComplexPixel::new(
        Progress::Int(1),
        subject("s", SubjectDataType::Int, SubjectUnit::Minutes),
        noon(1),
    );
    assert!(check_if_quantity_is_big_enough(&px).is_ok());
}

#[test]
fn hours_int_graph_rejects_under_an_hour() {
    let px = ComplexPixel::new(
        Progress::Int(59),
        subject("s", SubjectDataType::Int, SubjectUnit::Hours),
        noon(1),
    );
    assert_eq!(
        check_if_quantity_is_big_enough(&px),
        Err(StatsError::QuantityIsNotBigEnough)
    );
    let px = ComplexPixel::new(
        Progress::Int(60),
        subject("s", SubjectDataType::Int, SubjectUnit::Hours),
        noon(1),
    );
    assert!(check_if_quantity_is_big_enough(&px).is_ok());
}

#[test]
fn hours_float_graph_rejects_under_a_quarter_hour() {
    // 0.24 hours is too little, 0.25 hours passes.
    let px = ComplexPixel::new(
        Progress::Float(24),
        subject("s", SubjectDataType::Float, SubjectUnit::Hours),
        noon(1),
    );
    assert_eq!(
        check_if_quantity_is_big_enough(&px),
        Err(StatsError::QuantityIsNotBigEnough)
    );
    let px = ComplexPixel::new(
        Progress::Float(25),
        subject("s", SubjectDataType::Float, SubjectUnit::Hours),
        noon(1),
    );
    assert!(check_if_quantity_is_big_enough(&px).is_ok());
}

#[test]
fn sendable_string_spells_each_representation() {
    let minutes = ComplexPixel::new(
        Progress::Int(20),
        subject("s", SubjectDataType::Int, SubjectUnit::Minutes),
        noon(1),
    );
    assert_eq!(minutes.sendable_string(), "20");
    let hours = ComplexPixel::new(
        Progress::Int(150),
        subject("s", SubjectDataType::Int, SubjectUnit::Hours),
        noon(1),
    );
    assert_eq!(hours.sendable_string(), "2");
    let fractional = ComplexPixel::new(
        Progress::Float(150),
        subject("s", SubjectDataType::Float, SubjectUnit::Hours),
        noon(1),
    );
    assert_eq!(fractional.sendable_string(), "1.50");
}

#[test]
fn date_formats() {
    let px = ComplexPixel::new(
        Progress::Int(5),
        subject("s", SubjectDataType::Int, SubjectUnit::Minutes),
        noon(3),
    );
    assert_eq!(px.date_pixela_formatted(), "20240503");
    assert_eq!(noon(3).format_display(), "2024/05/03 12:30");
    let day = px.date_no_time();
    assert_eq!(day.hour, 0);
    assert_eq!(day.minute, 0);
    assert_eq!(day.day, 3);
}

#[test]
fn aggregation_tags_once() {
    let mut px = ComplexPixel::new(
        Progress::Int(5),
        subject("Deep Work", SubjectDataType::Int, SubjectUnit::Minutes),
        noon(1),
    );
    px.into_aggregate();
    assert_eq!(px.subject().graph_name(), "(Aggregated) Deep Work");
    px.into_aggregate();
    assert_eq!(px.subject().graph_name(), "(Aggregated) Deep Work");
}

#[test]
fn remote_quantity_increments_progress() {
    let mut px = ComplexPixel::new(
        Progress::Int(5),
        subject("s", SubjectDataType::Int, SubjectUnit::Minutes),
        noon(1),
    );
    px.increment_self_quantity("37").unwrap();
    assert_eq!(*px.progress(), Progress::Int(42));
    let err = px.increment_self_quantity("not a number").unwrap_err();
    match err {
        romodoro::error::Error::PixelaResponseError(
            romodoro::error::PixelaResponseError::FatalError(msg, code),
        ) => {
            assert_eq!(msg, "Failed parsing");
            assert_eq!(code, 400);
        }
        other => panic!("expected a fatal parse error, got {:?}", other),
    }
}

#[test]
fn rounding_marks_fractional_hours_only() {
    let exact = ComplexPixel::new(
        Progress::Float(200),
        subject("s", SubjectDataType::Float, SubjectUnit::Hours),
        noon(1),
    );
    assert_eq!(exact.is_rounded(), IsRounded::No);
    let lossy = ComplexPixel::new(
        Progress::Float(250),
        subject("s", SubjectDataType::Float, SubjectUnit::Hours),
        noon(1),
    );
    assert_eq!(lossy.is_rounded(), IsRounded::Yes);
    let plain = Pixel::Simple(romodoro::pixel::SimplePixel::new(3, String::from("x")));
    assert_eq!(plain.check_if_value_rounded(), IsRounded::No);
}

#[test]
fn progress_conversions() {
    assert_eq!(Progress::new_minutes(TimeUnit::Seconds(1200)), Progress::Int(20));
    assert_eq!(Progress::new_minutes(TimeUnit::Hours(150)), Progress::Int(90));
    assert_eq!(Progress::new_minutes(TimeUnit::Minutes(7)), Progress::Int(7));
    assert_eq!(TimeUnit::round_hours(81), 1);
    assert_eq!(TimeUnit::round_hours(80), 0);
    assert_eq!(TimeUnit::round_hours(181), 2);
    assert_eq!(TimeUnit::round_hours(180), 1);
    let mut p = Progress::Int(10);
    p.increment(5);
    assert_eq!(p, Progress::Int(15));
    p.divide(4);
    assert_eq!(p, Progress::Int(3));
    assert_eq!(Progress::Float(150).minute_value(), 90);
    assert_eq!(Progress::Int(90).centihour_value(), 150);
}

#[test]
fn upload_requests_exist_only_above_the_threshold() {
    let small = ComplexPixel::new(
        Progress::Int(30),
        subject("s", SubjectDataType::Int, SubjectUnit::Hours),
        noon(1),
    );
    assert!(matches!(
        romodoro::pixel::prepare_upload(&small),
        Err(StatsError::QuantityIsNotBigEnough)
    ));
    let enough = ComplexPixel::new(
        Progress::Int(90),
        subject("s", SubjectDataType::Int, SubjectUnit::Hours),
        noon(1),
    );
    let request = romodoro::pixel::prepare_upload(&enough).unwrap();
    assert_eq!(request.url, "https://pixe.la/v1/users/u/graphs/gid");
    assert_eq!(request.date, "20240501");
    assert_eq!(request.quantity, "1");
}

#[test]
fn push_candidate_rules() {
    let user = PixelaUser::new(String::from("u"), String::from("t"));
    let s = subject("s", SubjectDataType::Int, SubjectUnit::Minutes);
    let pixels = vec![
        Pixel::Simple(romodoro::pixel::SimplePixel::new(2, String::from("d"))),
        Pixel::Complex(ComplexPixel::new(Progress::Int(10), s, noon(1))),
    ];
    let mut client = PixelaClient::new(user, pixels);
    // Nothing highlighted: nothing to push.
    assert!(matches!(client.push_candidate(), Ok(None)));
    // A highlighted local-only record is refused.
    client.pixels.select(Some(0));
    assert!(matches!(
        client.push_candidate(),
        Err(romodoro::error::Error::StatsError(StatsError::WrongPixelData))
    ));
    // A highlighted uploadable record is handed out with its index.
    client.pixels.select(Some(1));
    let (index, candidate) = client.push_candidate().unwrap().unwrap();
    assert_eq!(index, 1);
    assert_eq!(*candidate.progress(), Progress::Int(10));
    client.confirm_pushed(index);
    assert_eq!(client.pixels.len(), 1);
}

#[test]
fn combine_merges_same_day_same_subject() {
    let s = subject("Deep Work", SubjectDataType::Int, SubjectUnit::Minutes);
    let batch = vec![
        Pixel::Complex(ComplexPixel::new(Progress::Int(10), s.clone(), noon(1))),
        Pixel::Complex(ComplexPixel::new(Progress::Int(15), s.clone(), noon(1))),
        Pixel::Complex(ComplexPixel::new(Progress::Int(7), s.clone(), noon(2))),
    ];
    let combined = PixelaClient::combine_similiar_pixels(batch);
    assert_eq!(combined.len(), 2);
    match &combined[0] {
        Pixel::Complex(c) => {
            assert_eq!(*c.progress(), Progress::Int(25));
            assert_eq!(c.subject().graph_name(), "(Aggregated) Deep Work");
            assert_eq!(c.date().day, 1);
            assert_eq!(c.date().hour, 0);
        }
        Pixel::Simple(_) => panic!("combined records are complex"),
    }
    match &combined[1] {
        Pixel::Complex(c) => {
            assert_eq!(*c.progress(), Progress::Int(7));
            // A bucket fed by one record keeps its name untouched.
            assert_eq!(c.subject().graph_name(), "Deep Work");
        }
        Pixel::Simple(_) => panic!("combined records are complex"),
    }
}

#[test]
fn combine_is_idempotent_and_conserves_the_sum() {
    let s = subject("Focus", SubjectDataType::Int, SubjectUnit::Minutes);
    let other = subject("Reading", SubjectDataType::Int, SubjectUnit::Minutes);
    let batch = vec![
        Pixel::Complex(ComplexPixel::new(Progress::Int(10), s.clone(), noon(1))),
        Pixel::Complex(ComplexPixel::new(Progress::Int(5), other.clone(), noon(1))),
        Pixel::Complex(ComplexPixel::new(Progress::Int(20), s.clone(), noon(1))),
    ];
    let sum_before: u64 = batch
        .iter()
        .map(|p| match p {
            Pixel::Complex(c) => c.progress().get_as_int(),
            Pixel::Simple(_) => 0,
        })
        .sum();
    let once = PixelaClient::combine_similiar_pixels(batch);
    let sum_once: u64 = once
        .iter()
        .map(|p| match p {
            Pixel::Complex(c) => c.progress().get_as_int(),
            Pixel::Simple(_) => 0,
        })
        .sum();
    assert_eq!(sum_before, sum_once);
    let snapshot: Vec<String> = once
        .iter()
        .map(|p| match p {
            Pixel::Complex(c) => format!(
                "{}|{}|{:?}",
                c.subject().graph_name(),
                c.date_pixela_formatted(),
                c.progress()
            ),
            Pixel::Simple(_) => String::from("simple"),
        })
        .collect();
    let twice = PixelaClient::combine_similiar_pixels(once);
    let snapshot_twice: Vec<String> = twice
        .iter()
        .map(|p| match p {
            Pixel::Complex(c) => format!(
                "{}|{}|{:?}",
                c.subject().graph_name(),
                c.date_pixela_formatted(),
                c.progress()
            ),
            Pixel::Simple(_) => String::from("simple"),
        })
        .collect();
    assert_eq!(snapshot, snapshot_twice);
}

#[test]
fn combine_drops_simple_records() {
    let batch = vec![Pixel::Simple(romodoro::pixel::SimplePixel::new(
        9,
        String::from("2024/05/01 10:00"),
    ))];
    let combined = PixelaClient::combine_similiar_pixels(batch);
    assert!(combined.is_empty());
}

#[test]
fn subject_rules() {
    let bad = Subject::try_new(
        String::from("g"),
        String::new(),
        String::from("n"),
        SubjectDataType::Float,
        SubjectUnit::Minutes,
        PixelaColors::Kuro,
    );
    assert_eq!(bad.unwrap_err(), StatsError::SubjectCreationFailed);
    let dummy = Subject::new_dummy();
    assert!(dummy.is_dummy());
    let named = subject("Deep Work Now", SubjectDataType::Int, SubjectUnit::Minutes);
    assert!(!named.is_dummy());
    assert_eq!(named.shortened_graph_name(), "DWN");
    let spaced = subject("a\u{c}b", SubjectDataType::Int, SubjectUnit::Minutes);
    assert_eq!(spaced.shortened_graph_name(), "ab");
    assert_eq!(named.get_min_increment(), 1);
    assert_eq!(
        subject("x", SubjectDataType::Int, SubjectUnit::Hours).get_min_increment(),
        60
    );
    assert_eq!(
        subject("x", SubjectDataType::Float, SubjectUnit::Hours).get_min_increment(),
        15
    );
    assert_eq!(SubjectUnit::Hours.short_string(), "h");
    assert_eq!(SubjectUnit::Minutes.short_string(), "m");
}

#[test]
fn transform_progress_scales_by_numeric_type() {
    let int_subject = subject("s", SubjectDataType::Int, SubjectUnit::Minutes);
    assert_eq!(int_subject.transform_progress(1200), Progress::Int(20));
    let float_subject = subject("s", SubjectDataType::Float, SubjectUnit::Hours);
    // 1200 seconds is a third of an hour: 0.33 hours in hundredths.
    assert_eq!(float_subject.transform_progress(1200), Progress::Float(33));
}

#[test]
fn client_selection_round_trip() {
    let user = PixelaUser::new(String::from("u"), String::from("t"));
    let s = subject("s", SubjectDataType::Int, SubjectUnit::Minutes);
    let pixels = vec![
        Pixel::Complex(ComplexPixel::new(Progress::Int(10), s.clone(), noon(1))),
        Pixel::Simple(romodoro::pixel::SimplePixel::new(2, String::from("d"))),
        Pixel::Complex(ComplexPixel::new(Progress::Int(20), s.clone(), noon(2))),
    ];
    let mut client = PixelaClient::new(user, pixels);
    assert!(client.pixels_to_send_is_empty());
    client.select_pixel(0);
    client.select_pixel(1); // a simple record cannot be marked
    client.select_pixel(2);
    assert!(client.selected_to_send(0));
    assert!(!client.selected_to_send(1));
    assert!(client.selected_to_send(2));
    client.unselect_pixel(2);
    assert!(!client.selected_to_send(2));
    client.select_pixel(2);
    let taken = client.take_selected_pixels(true);
    // Newest first, and the store keeps the unmarked record.
    assert_eq!(taken.len(), 2);
    match &taken[0] {
        Pixel::Complex(c) => assert_eq!(*c.progress(), Progress::Int(20)),
        Pixel::Simple(_) => panic!("marked records are complex"),
    }
    assert_eq!(client.pixels.len(), 1);
}

#[test]
fn prepare_subjects_drops_invalid_and_derives_urls() {
    let keep = subject("keep", SubjectDataType::Int, SubjectUnit::Minutes);
    // A fractional minutes graph cannot be built through try_new; fetched
    // data could still hold one, so build it by parts.
    let drop_candidate = subject("drop", SubjectDataType::Float, SubjectUnit::Hours);
    let mut dropped = drop_candidate.clone();
    dropped.set_unit(SubjectUnit::Minutes);
    let prepared = PixelaClient::prepare_subjects(vec![keep, dropped], "alice");
    assert_eq!(prepared.len(), 1);
    assert_eq!(prepared[0].graph_name(), "keep");
    assert_eq!(prepared[0].url(), "https://pixe.la/v1/users/alice/graphs/gid");
}
