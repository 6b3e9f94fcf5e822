use simple_search::pipeline::classify_capture;
use simple_search::results::FetchOutcome;
use simple_search::results::SearchRecord;

fn record() -> SearchRecord {
    SearchRecord {
        title: "Example".to_string(),
        url: "https://example.com/".to_string(),
        snippet: "an example".to_string(),
    }
}

#[test]
fn a_failed_fetch_is_classified_failed() {
    let outcome = classify_capture(record(), None);
    assert!(matches!(outcome, FetchOutcome::Failed));
}

#[test]
fn a_fetch_with_no_captures_is_classified_empty() {
    let outcome = classify_capture(record(), Some(vec![]));
    assert!(matches!(outcome, FetchOutcome::Empty));
}

#[test]
fn the_first_capture_is_transformed_and_kept_raw() {
    let markup = "<html><head><title>T</title></head>\
                  <body><main><p>Hello world from the page.</p></main></body></html>";
    let outcome = classify_capture(record(), Some(vec![markup.to_string()]));
    match outcome {
        FetchOutcome::Success { record: rec, readable_text, raw_markup } => {
            assert_eq!(rec.title, "Example");
            assert_eq!(raw_markup, markup);
            // The transformation really ran: markup became readable text.
            assert_ne!(readable_text, markup);
            assert!(readable_text.contains("Hello world from the page."));
            assert!(!readable_text.contains("<main>"));
        }
        _ => panic!("expected a successful outcome"),
    }
}

#[test]
fn captures_after_the_first_are_ignored() {
    let first = "<html><body><p>First page body.</p></body></html>";
    let second = "<html><body><p>Second page body.</p></body></html>";
    let outcome = classify_capture(record(), Some(vec![first.to_string(), second.to_string()]));
    match outcome {
        FetchOutcome::Success { raw_markup, readable_text, .. } => {
            assert_eq!(raw_markup, first);
            assert!(!readable_text.contains("Second"));
        }
        _ => panic!("expected a successful outcome"),
    }
}
