//! The pipeline's data model: ranked search records, per-task fetch
//! outcomes, and the ordered collection of cleaned result pages, with
//! the order-preserving aggregation that builds it.

use vstd::prelude::*;

use crate::text::trim_content;
use crate::text::trim_spec;

verus! {

/// One ranked record from the search provider: title, result URL and
/// snippet. Its position in the provider's sequence defines its rank.
#[derive(Debug, Clone)]
pub struct SearchRecord {
    pub title: String,
    pub url: String,
    pub snippet: String,
}

/// The mathematical value of a `SearchRecord`.
pub ghost struct RecordModel {
    pub title: Seq<char>,
    pub url: Seq<char>,
    pub snippet: Seq<char>,
}

impl View for SearchRecord {
    type V = RecordModel;

    open spec fn view(&self) -> RecordModel {
        RecordModel { title: self.title@, url: self.url@, snippet: self.snippet@ }
    }
}

/// What one fetch task ended with: cleaned readable text and raw markup
/// for its record, or no content, or a failed fetch.
#[derive(Debug)]
pub enum FetchOutcome {
    Success { record: SearchRecord, readable_text: String, raw_markup: String },
    Empty,
    Failed,
}

/// One entry of the final collection: the record's fields, the readable
/// text truncated to the budget, and the untouched raw markup.
#[derive(Debug, Clone)]
pub struct SearchResultPage {
    pub title: String,
    pub url: String,
    pub snippet: String,
    pub content: String,
    pub html: String,
}

/// The mathematical value of a `SearchResultPage`.
pub ghost struct PageModel {
    pub title: Seq<char>,
    pub url: Seq<char>,
    pub snippet: Seq<char>,
    pub content: Seq<char>,
    pub html: Seq<char>,
}

impl View for SearchResultPage {
    type V = PageModel;

    open spec fn view(&self) -> PageModel {
        PageModel {
            title: self.title@,
            url: self.url@,
            snippet: self.snippet@,
            content: self.content@,
            html: self.html@,
        }
    }
}

/// The ordered collection of result pages, ranked as the records were.
#[derive(Debug)]
pub struct SearchResults {
    pub pages: Vec<SearchResultPage>,
}

impl View for SearchResults {
    type V = Seq<PageModel>;

    open spec fn view(&self) -> Seq<PageModel> {
        self.pages@.map_values(|p: SearchResultPage| p@)
    }
}

/// The page that a successful outcome contributes: the record's fields,
/// the readable text truncated to `max`, the raw markup untouched.
pub open spec fn page_of(
    record: SearchRecord,
    readable_text: String,
    raw_markup: String,
    max: nat,
) -> PageModel {
    PageModel {
        title: record.title@,
        url: record.url@,
        snippet: record.snippet@,
        content: trim_spec(readable_text@, max),
        html: raw_markup@,
    }
}

/// The aggregated collection: successful outcomes contribute one page
/// each, in their original order; empty and failed outcomes are dropped.
pub open spec fn aggregate_spec(outcomes: Seq<FetchOutcome>, max: nat) -> Seq<PageModel>
    decreases outcomes.len(),
{
    if outcomes.len() == 0 {
        Seq::empty()
    } else {
        (match outcomes[0] {
            FetchOutcome::Success { record, readable_text, raw_markup } => seq![
                page_of(record, readable_text, raw_markup, max),
            ],
            _ => Seq::empty(),
        }) + aggregate_spec(outcomes.drop_first(), max)
    }
}

proof fn lemma_aggregate_snoc(outcomes: Seq<FetchOutcome>, x: FetchOutcome, max: nat)
    ensures
        aggregate_spec(outcomes.push(x), max) == aggregate_spec(outcomes, max) + (match x {
            FetchOutcome::Success { record, readable_text, raw_markup } => seq![
                page_of(record, readable_text, raw_markup, max),
            ],
            _ => Seq::empty(),
        }),
    decreases outcomes.len(),
{
    let p = outcomes.push(x);
    let tail = (match x {
        FetchOutcome::Success { record, readable_text, raw_markup } => seq![
            page_of(record, readable_text, raw_markup, max),
        ],
        _ => Seq::<PageModel>::empty(),
    });
    if outcomes.len() == 0 {
        assert(p[0] == x);
        assert(outcomes =~= Seq::<FetchOutcome>::empty());
        assert(p.drop_first() =~= outcomes);
        assert(aggregate_spec(p, max) =~= aggregate_spec(outcomes, max) + tail);
    } else {
        assert(p[0] == outcomes[0]);
        assert(p.drop_first() =~= outcomes.drop_first().push(x));
        lemma_aggregate_snoc(outcomes.drop_first(), x, max);
        assert(aggregate_spec(p, max) =~= aggregate_spec(outcomes, max) + tail);
    }
}

/// Build the final collection from the outcomes, in their original
/// submission order: each success becomes one page, its readable text
/// truncated to `max_chars` non-whitespace characters; empty and failed
/// outcomes are skipped, closing the gaps they leave.
pub fn aggregate(outcomes: Vec<FetchOutcome>, max_chars: usize) -> (r: SearchResults)
    ensures
        r@ == aggregate_spec(outcomes@, max_chars as nat),
{
    let mut pages: Vec<SearchResultPage> = Vec::new();
    let n = outcomes.len();
    proof {
        assert(outcomes@.take(0) =~= Seq::<FetchOutcome>::empty());
    }
    let mut i: usize = 0;
    while i < n
        invariant
            i <= n,
            n == outcomes@.len(),
            pages@.map_values(|p: SearchResultPage| p@) == aggregate_spec(
                outcomes@.take(i as int),
                max_chars as nat,
            ),
        decreases n - i,
    {
        proof {
            assert(outcomes@.take(i + 1) =~= outcomes@.take(i as int).push(outcomes@[i as int]));
            lemma_aggregate_snoc(outcomes@.take(i as int), outcomes@[i as int], max_chars as nat);
        }
        let ghost before = pages@;
        match &outcomes[i] {
            FetchOutcome::Success { record, readable_text, raw_markup } => {
                let page = SearchResultPage {
                    title: record.title.clone(),
                    url: record.url.clone(),
                    snippet: record.snippet.clone(),
                    content: trim_content(readable_text.as_str(), max_chars),
                    html: raw_markup.clone(),
                };
                pages.push(page);
                proof {
                    assert(pages@.map_values(|p: SearchResultPage| p@) =~= before.map_values(
                        |p: SearchResultPage| p@,
                    ) + seq![pages@[pages@.len() - 1]@]);
                }
            },
            _ => {},
        }
        i = i + 1;
    }
    proof {
        assert(outcomes@.take(n as int) =~= outcomes@);
    }
    SearchResults { pages }
}

/// Aggregation keeps the submission order and only closes gaps: with a
/// successful first and third outcome and a failed second, the result is
/// the first record's page and then the third record's page, whatever
/// order the tasks finished in.
pub proof fn lemma_aggregate_order(
    first: FetchOutcome,
    second: FetchOutcome,
    third: FetchOutcome,
    max: nat,
)
    requires
        first is Success,
        !(second is Success),
        third is Success,
    ensures
        aggregate_spec(seq![first, second, third], max) == seq![
            page_of(first->Success_record, first->Success_readable_text, first->Success_raw_markup, max),
            page_of(third->Success_record, third->Success_readable_text, third->Success_raw_markup, max),
        ],
{
    reveal_with_fuel(aggregate_spec, 5);
    let s = seq![first, second, third];
    assert(s.drop_first() =~= seq![second, third]);
    assert(s.drop_first().drop_first() =~= seq![third]);
    assert(s.drop_first().drop_first().drop_first() =~= Seq::<FetchOutcome>::empty());
    assert(aggregate_spec(s, max) =~= seq![
        page_of(first->Success_record, first->Success_readable_text, first->Success_raw_markup, max),
        page_of(third->Success_record, third->Success_readable_text, third->Success_raw_markup, max),
    ]);
}

} // verus!
