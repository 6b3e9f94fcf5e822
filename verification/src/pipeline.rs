//! The pipeline steps around the fetch tasks: how many provider pages a
//! request needs, slicing the provider's records to the requested count,
//! and turning one task's raw captures into a fetch outcome by running
//! the markup-to-readable-text transformation.

use vstd::prelude::*;

use crate::results::FetchOutcome;
use crate::results::SearchRecord;
use spider_transformations::transformation::content;

verus! {

/// How many provider result pages cover `page_count` records, at ten
/// records per provider page: the ceiling of `page_count / 10`.
pub open spec fn provider_pages_spec(page_count: nat) -> nat {
    (page_count + 9) / 10
}

/// Compute the number of provider result pages to request for
/// `page_count` records, ten records per page, rounding up.
pub fn provider_pages(page_count: usize) -> (r: usize)
    ensures
        r == provider_pages_spec(page_count as nat),
{
    if page_count == 0 {
        0
    } else {
        (page_count - 1) / 10 + 1
    }
}

/// Keep the first `page_count` records, or all of them when the provider
/// returned fewer.
pub fn take_records(records: Vec<SearchRecord>, page_count: usize) -> (r: Vec<SearchRecord>)
    ensures
        r@ == records@.take(vstd::math::min(records@.len() as int, page_count as int)),
{
    let mut records = records;
    let ghost before = records@;
    records.truncate(page_count);
    proof {
        if page_count >= before.len() {
            assert(records@ =~= before.take(before.len() as int));
        }
    }
    records
}

/// The readable text that the markup transformation derives from a raw
/// page capture with the given base URL, under the fixed configuration
/// (markdown output, HTML cleaning, main content only). The result
/// depends on the markup and the URL alone.
pub uninterp spec fn readable_of(markup: Seq<char>, url: Seq<char>) -> Seq<char>;

/// Relies on `spider_transformations::transformation::content::transform_content`,
/// configured for markdown output with HTML cleaning and main-content
/// extraction, applied to a page rebuilt from the raw markup and its URL
/// with `spider::page::build`: it computes readable text from the markup
/// and URL alone.
#[verifier::external_body]
fn transform_markup(markup: &str, url: &str) -> (r: String)
    ensures
        r@ == readable_of(markup@, url@),
{
    let mut conf = content::TransformConfig::default();
    conf.return_format = content::ReturnFormat::Markdown;
    conf.clean_html = true;
    conf.main_content = true;
    let mut res = spider::utils::PageResponse::default();
    res.content = Some(markup.as_bytes().to_vec());
    let page = spider::page::build(url, res);
    content::transform_content(&page, &conf, &None, &None, &None)
}

/// What classifying one task's captures yields: a failed fetch gives
/// `Failed`, a fetch with no captures gives `Empty`, and a fetch with at
/// least one capture gives `Success` built from the first capture alone,
/// its markup kept raw and its readable text derived by the
/// transformation.
pub open spec fn classify_spec(
    record: SearchRecord,
    captures: Option<Vec<String>>,
    r: FetchOutcome,
) -> bool {
    match captures {
        None => r is Failed,
        Some(caps) => if caps@.len() == 0 {
            r is Empty
        } else {
            &&& r is Success
            &&& r->Success_record == record
            &&& r->Success_readable_text@ == readable_of(caps@[0]@, record.url@)
            &&& r->Success_raw_markup == caps@[0]
        },
    }
}

/// Turn one fetch task's result into its outcome. `captures` is `None`
/// when the fetch itself failed, and otherwise holds the raw markup of
/// each captured page. Only the first capture is used: it is transformed
/// to readable text against the record's URL, and kept untouched as the
/// raw markup of a `Success`. No captures means `Empty`.
pub fn classify_capture(record: SearchRecord, captures: Option<Vec<String>>) -> (r: FetchOutcome)
    ensures
        classify_spec(record, captures, r),
{
    match captures {
        None => FetchOutcome::Failed,
        Some(caps) => {
            if caps.len() == 0 {
                FetchOutcome::Empty
            } else {
                let readable_text = transform_markup(caps[0].as_str(), record.url.as_str());
                let mut caps = caps;
                let raw_markup = caps.remove(0);
                FetchOutcome::Success { record, readable_text, raw_markup }
            }
        },
    }
}

} // verus!
