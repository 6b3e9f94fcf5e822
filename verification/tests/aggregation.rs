use simple_search::pipeline::provider_pages;
use simple_search::pipeline::take_records;
use simple_search::report::render_summary;
use simple_search::results::aggregate;
use simple_search::results::FetchOutcome;
use simple_search::results::SearchRecord;

fn record(title: &str, url: &str, snippet: &str) -> SearchRecord {
    SearchRecord {
        title: title.to_string(),
        url: url.to_string(),
        snippet: snippet.to_string(),
    }
}

fn success(title: &str, url: &str, readable: &str, markup: &str) -> FetchOutcome {
    FetchOutcome::Success {
        record: record(title, url, "snip"),
        readable_text: readable.to_string(),
        raw_markup: markup.to_string(),
    }
}

#[test]
fn provider_page_arithmetic_rounds_up() {
    assert_eq!(provider_pages(0), 0);
    assert_eq!(provider_pages(1), 1);
    assert_eq!(provider_pages(5), 1);
    assert_eq!(provider_pages(10), 1);
    assert_eq!(provider_pages(11), 2);
    assert_eq!(provider_pages(15), 2);
    assert_eq!(provider_pages(20), 2);
    assert_eq!(provider_pages(21), 3);
}

#[test]
fn short_provider_answer_yields_that_many_records() {
    // Seven records when ten were requested: all seven stay.
    let records: Vec<SearchRecord> = (0..7)
        .map(|i| record(&format!("t{}", i), &format!("u{}", i), "s"))
        .collect();
    let taken = take_records(records, 10);
    assert_eq!(taken.len(), 7);
    assert_eq!(taken[0].title, "t0");
    assert_eq!(taken[6].title, "t6");
}

#[test]
fn long_provider_answer_is_cut_to_the_request() {
    let records: Vec<SearchRecord> = (0..7)
        .map(|i| record(&format!("t{}", i), &format!("u{}", i), "s"))
        .collect();
    let taken = take_records(records, 3);
    assert_eq!(taken.len(), 3);
    assert_eq!(taken[2].title, "t2");
}

#[test]
fn failed_outcomes_are_dropped_and_order_is_kept() {
    let outcomes = vec![
        success("first", "https://a.example", "alpha text", "<p>alpha</p>"),
        FetchOutcome::Failed,
        success("third", "https://c.example", "gamma text", "<p>gamma</p>"),
    ];
    let results = aggregate(outcomes, 100);
    assert_eq!(results.pages.len(), 2);
    assert_eq!(results.pages[0].title, "first");
    assert_eq!(results.pages[1].title, "third");
}

#[test]
fn empty_outcomes_are_dropped() {
    let outcomes = vec![FetchOutcome::Empty, success("only", "https://o.example", "text", "<p>t</p>")];
    let results = aggregate(outcomes, 100);
    assert_eq!(results.pages.len(), 1);
    assert_eq!(results.pages[0].title, "only");
}

#[test]
fn aggregation_truncates_content_and_keeps_markup_raw() {
    let outcomes = vec![success("t", "https://u.example", "hello   world", "<p>hello world</p>")];
    let results = aggregate(outcomes, 5);
    assert_eq!(results.pages[0].content, "hello");
    assert_eq!(results.pages[0].html, "<p>hello world</p>");
    assert_eq!(results.pages[0].url, "https://u.example");
    assert_eq!(results.pages[0].snippet, "snip");
}

#[test]
fn three_records_one_failure_scenario() {
    // Query "rust concurrency", three records, budget 50: the second
    // record's fetch fails, so two pages come back, in rank order, each
    // with at most 50 non-whitespace characters of content.
    let long_text = "Rust concurrency lets many tasks make progress at once without data races. \
                     Ownership and Send and Sync keep sharing sound.";
    let outcomes = vec![
        success("Rust concurrency guide", "https://r0.example", long_text, "<p>r0</p>"),
        FetchOutcome::Failed,
        success("Fearless concurrency", "https://r2.example", "short note", "<p>r2</p>"),
    ];
    let results = aggregate(outcomes, 50);
    assert_eq!(results.pages.len(), 2);
    assert_eq!(results.pages[0].title, "Rust concurrency guide");
    assert_eq!(results.pages[1].title, "Fearless concurrency");
    for page in &results.pages {
        let non_ws = page.content.chars().filter(|c| !c.is_whitespace()).count();
        assert!(non_ws <= 50);
    }
    assert_eq!(results.pages[1].content, "short note");
}

#[test]
fn summary_report_lists_each_page_as_a_tagged_block() {
    let outcomes = vec![success("Title", "https://x.example", "body text", "<p>b</p>")];
    let results = aggregate(outcomes, 100);
    let summary = render_summary(&results);
    let expected = "This is the search results page.\n\n\
                    <page>\n  <title>Title</title>\n  <url>https://x.example</url>\n  \
                    <snippet>snip</snippet>\n  <content>body text</content>\n</page>\n\n";
    assert_eq!(summary, expected);
}

#[test]
fn summary_report_of_an_empty_collection_is_just_the_heading() {
    let results = aggregate(vec![FetchOutcome::Failed], 10);
    assert_eq!(render_summary(&results), "This is the search results page.\n\n");
}
