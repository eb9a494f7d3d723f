use romodoro::dates::PixelDate;
use romodoro::error::{Error, FatalError, PixelaResponseError};
use romodoro::graph::PixelaColors;
use romodoro::pixel::{ComplexPixel, Pixel};
use romodoro::progress::Progress;
use romodoro::subjects::{Subject, SubjectDataType, SubjectUnit};
use romodoro::sync::{classify_response, SendSession, UploadOutcome};

fn minutes_subject(name: &str) -> Subject {
    Subject::try_new(
        String::from("g1"),
        String::from("https://pixe.la/v1/users/u/graphs/g1"),
        String::from(name),
        SubjectDataType::Int,
        SubjectUnit::Minutes,
        PixelaColors::Sora,
    )
    .expect("a minutes graph with whole numbers is valid")
}

fn noon(day: u8) -> PixelDate {
    PixelDate { year: 2024, month: 5, day, hour: 12, minute: 0 }
}

fn record(name: &str, day: u8, minutes: u64) -> ComplexPixel {
    ComplexPixel::new(Progress::Int(minutes), minutes_subject(name), noon(day))
}

#[test]
fn classify_accepts_success_statuses() {
    assert!(classify_response(200, String::new()).is_ok());
    assert!(classify_response(204, String::new()).is_ok());
}

#[test]
fn classify_marks_server_busy_as_retryable() {
    for status in [500u16, 503u16] {
        let err = classify_response(status, String::from("busy")).unwrap_err();
        match err {
            Error::PixelaResponseError(PixelaResponseError::RetryableError(msg, code)) => {
                assert_eq!(msg, "Server is busy");
                assert_eq!(code, status);
            }
            other => panic!("expected a retryable error, got {:?}", other),
        }
    }
}

#[test]
fn classify_marks_rejections_as_fatal_with_body() {
    let err = classify_response(400, String::from("bad token")).unwrap_err();
    match err {
        Error::PixelaResponseError(PixelaResponseError::FatalError(msg, code)) => {
            assert_eq!(msg, "Request denied: bad token");
            assert_eq!(code, 400);
        }
        other => panic!("expected a fatal error, got {:?}", other),
    }
}

#[test]
fn all_fatal_batch_resolves_nothing_and_keeps_every_record() {
    let batch = vec![
        Pixel::Complex(record("a", 1, 10)),
        Pixel::Complex(record("b", 2, 20)),
        Pixel::Complex(record("c", 3, 30)),
    ];
    let mut session = SendSession::new(batch);
    let mut attempts = 0;
    while let Some(pixel) = session.next_pending() {
        attempts += 1;
        session.record_outcome(
            pixel,
            UploadOutcome::Fatal(FatalError::new(String::from("Request denied: no"), 400)),
        );
    }
    assert_eq!(attempts, 3);
    match session.finish() {
        Err(Error::PixelaResponseError(PixelaResponseError::FatalSendingPixelsError {
            errors,
            pixels,
        })) => {
            // The unresolved list is as long as the input; nothing resolved.
            assert_eq!(pixels.len(), 3);
            assert_eq!(errors.len(), 3);
        }
        other => panic!("expected a failed batch, got {:?}", other),
    }
}

#[test]
fn retry_then_success_ends_resolved() {
    let a = record("a", 1, 10);
    let mut session = SendSession::new(vec![Pixel::Complex(a)]);
    // First attempt: the server is busy — the record goes back to the pool.
    let pixel = session.next_pending().expect("one record pending");
    session.record_result(pixel, classify_response(503, String::from("busy")));
    assert!(!session.is_done());
    // Second attempt: confirmed.
    let pixel = session.next_pending().expect("the record came back");
    session.record_result(pixel, classify_response(200, String::new()));
    assert!(session.is_done());
    let resolved = session.finish().expect("no fatal error was booked");
    assert_eq!(resolved.len(), 1);
    match &resolved[0] {
        Pixel::Complex(c) => assert_eq!(*c.progress(), Progress::Int(10)),
        Pixel::Simple(_) => panic!("a complex record was sent"),
    }
}

#[test]
fn mixed_batch_splits_resolved_and_unresolved() {
    let batch = vec![
        Pixel::Complex(record("good", 1, 10)),
        Pixel::Complex(record("bad", 2, 20)),
    ];
    let mut session = SendSession::new(batch);
    while let Some(pixel) = session.next_pending() {
        let fails = pixel.subject().graph_name() == "bad";
        if fails {
            session.record_result(pixel, classify_response(400, String::from("no")));
        } else {
            session.record_result(pixel, classify_response(200, String::new()));
        }
    }
    match session.finish() {
        Err(Error::PixelaResponseError(PixelaResponseError::FatalSendingPixelsError {
            errors,
            pixels,
        })) => {
            assert_eq!(pixels.len(), 1);
            assert_eq!(errors.len(), 1);
            match &pixels[0] {
                Pixel::Complex(c) => assert_eq!(c.subject().graph_name(), "bad"),
                Pixel::Simple(_) => panic!("only complex records were pooled"),
            }
        }
        other => panic!("expected a failed batch, got {:?}", other),
    }
}

#[test]
fn simple_records_never_enter_the_pool() {
    let batch = vec![
        Pixel::Simple(romodoro::pixel::SimplePixel::new(5, String::from("2024/05/01 12:00"))),
        Pixel::Complex(record("a", 1, 10)),
    ];
    let mut session = SendSession::new(batch);
    assert_eq!(session.pending_count(), 1);
}

#[test]
fn other_failures_are_booked_under_the_teapot_status() {
    let a = record("a", 1, 10);
    let mut session = SendSession::new(vec![Pixel::Complex(a)]);
    let pixel = session.next_pending().unwrap();
    session.record_result(pixel, Err(Error::MiscError(String::from("socket closed"))));
    match session.finish() {
        Err(Error::PixelaResponseError(PixelaResponseError::FatalSendingPixelsError {
            errors,
            pixels,
        })) => {
            assert_eq!(pixels.len(), 1);
            assert_eq!(errors[0].code, 418);
            assert_eq!(errors[0].message, "Misc Error: socket closed");
        }
        other => panic!("expected a failed batch, got {:?}", other),
    }
}
