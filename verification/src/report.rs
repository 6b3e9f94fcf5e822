//! Rendering a result collection as a tagged plain-text report: one
//! `<page>` block per result page, fields emitted as nested tags.

use vstd::prelude::*;

use crate::results::PageModel;
use crate::results::SearchResults;

verus! {

/// The tagged block that one result page contributes to the report.
pub open spec fn page_block_spec(p: PageModel) -> Seq<char> {
    "<page>\n  <title>"@ + p.title + "</title>\n  <url>"@ + p.url + "</url>\n  <snippet>"@
        + p.snippet + "</snippet>\n  <content>"@ + p.content + "</content>\n</page>\n\n"@
}

/// The concatenated blocks of a sequence of result pages, in order.
pub open spec fn blocks_spec(pages: Seq<PageModel>) -> Seq<char>
    decreases pages.len(),
{
    if pages.len() == 0 {
        Seq::empty()
    } else {
        page_block_spec(pages[0]) + blocks_spec(pages.drop_first())
    }
}

/// The whole report: a fixed heading line, then one block per page.
pub open spec fn summary_spec(pages: Seq<PageModel>) -> Seq<char> {
    "This is the search results page.\n\n"@ + blocks_spec(pages)
}

proof fn lemma_blocks_snoc(pages: Seq<PageModel>, p: PageModel)
    ensures
        blocks_spec(pages.push(p)) == blocks_spec(pages) + page_block_spec(p),
    decreases pages.len(),
{
    let w = pages.push(p);
    if pages.len() == 0 {
        assert(w[0] == p);
        assert(pages =~= Seq::<PageModel>::empty());
        assert(w.drop_first() =~= pages);
        assert(blocks_spec(w) =~= blocks_spec(pages) + page_block_spec(p));
    } else {
        assert(w[0] == pages[0]);
        assert(w.drop_first() =~= pages.drop_first().push(p));
        lemma_blocks_snoc(pages.drop_first(), p);
        assert(blocks_spec(w) =~= blocks_spec(pages) + page_block_spec(p));
    }
}

/// Render the collection as the plain-text report: the heading, then for
/// each page, in collection order, its title, URL, snippet and truncated
/// content as nested tags inside one `<page>` block.
pub fn render_summary(results: &SearchResults) -> (r: String)
    ensures
        r@ == summary_spec(results@),
{
    let mut out = String::new();
    out.append("This is the search results page.\n\n");
    let n = results.pages.len();
    proof {
        assert(results@.take(0) =~= Seq::<PageModel>::empty());
        assert(out@ =~= summary_spec(results@.take(0)));
    }
    let mut i: usize = 0;
    while i < n
        invariant
            i <= n,
            n == results.pages@.len(),
            results@.len() == n,
            out@ == summary_spec(results@.take(i as int)),
        decreases n - i,
    {
        let page = &results.pages[i];
        out.append("<page>\n  <title>");
        out.append(page.title.as_str());
        out.append("</title>\n  <url>");
        out.append(page.url.as_str());
        out.append("</url>\n  <snippet>");
        out.append(page.snippet.as_str());
        out.append("</snippet>\n  <content>");
        out.append(page.content.as_str());
        out.append("</content>\n</page>\n\n");
        proof {
            assert(results@[i as int] == page@);
            assert(results@.take(i + 1) =~= results@.take(i as int).push(page@));
            lemma_blocks_snoc(results@.take(i as int), page@);
            assert(out@ =~= summary_spec(results@.take(i + 1)));
        }
        i = i + 1;
    }
    proof {
        assert(results@.take(n as int) =~= results@);
    }
    out
}

} // verus!
