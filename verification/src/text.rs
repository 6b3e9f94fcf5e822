//! Whitespace-aware character budgets: counting non-whitespace characters
//! and truncating text to a budget while preserving whitespace layout.

use vstd::prelude::*;

verus! {

/// The characters with the Unicode `White_Space` property, the
/// classification that `char::is_whitespace` implements.
pub open spec fn is_whitespace_char(c: char) -> bool {
    ||| c == ' '
    ||| c == '\t'
    ||| c == '\n'
    ||| c == '\u{0B}'
    ||| c == '\u{0C}'
    ||| c == '\r'
    ||| c == '\u{85}'
    ||| c == '\u{A0}'
    ||| c == '\u{1680}'
    ||| c == '\u{2000}'
    ||| c == '\u{2001}'
    ||| c == '\u{2002}'
    ||| c == '\u{2003}'
    ||| c == '\u{2004}'
    ||| c == '\u{2005}'
    ||| c == '\u{2006}'
    ||| c == '\u{2007}'
    ||| c == '\u{2008}'
    ||| c == '\u{2009}'
    ||| c == '\u{200A}'
    ||| c == '\u{2028}'
    ||| c == '\u{2029}'
    ||| c == '\u{202F}'
    ||| c == '\u{205F}'
    ||| c == '\u{3000}'
}

/// Relies on `char::is_whitespace`: true exactly for the characters with
/// the Unicode `White_Space` property, listed in `is_whitespace_char`.
#[verifier::external_body]
fn is_ws(c: char) -> (r: bool)
    ensures
        r == is_whitespace_char(c),
{
    c.is_whitespace()
}

/// How many characters of `s` are not whitespace.
pub open spec fn non_ws_count(s: Seq<char>) -> nat
    decreases s.len(),
{
    if s.len() == 0 {
        0
    } else {
        (if is_whitespace_char(s[0]) {
            0nat
        } else {
            1nat
        }) + non_ws_count(s.drop_first())
    }
}

/// How many leading characters the budget-limited scan keeps: whitespace
/// is always copied, each non-whitespace character spends one unit of the
/// budget, and the scan stops the moment the budget is exhausted.
pub open spec fn cut_len(s: Seq<char>, budget: nat) -> nat
    decreases s.len(),
{
    if budget == 0 || s.len() == 0 {
        0
    } else if is_whitespace_char(s[0]) {
        1 + cut_len(s.drop_first(), budget)
    } else {
        1 + cut_len(s.drop_first(), (budget - 1) as nat)
    }
}

/// What truncation to a budget of `max` non-whitespace characters returns:
/// text already at or under budget comes back unchanged, whitespace and
/// all; anything longer is cut after the non-whitespace character that
/// exhausts the budget.
pub open spec fn trim_spec(s: Seq<char>, max: nat) -> Seq<char> {
    if non_ws_count(s) <= max {
        s
    } else {
        s.take(cut_len(s, max) as int)
    }
}

pub proof fn lemma_cut_len_le_len(s: Seq<char>, budget: nat)
    ensures
        cut_len(s, budget) <= s.len(),
    decreases s.len(),
{
    if budget != 0 && s.len() != 0 {
        if is_whitespace_char(s[0]) {
            lemma_cut_len_le_len(s.drop_first(), budget);
        } else {
            lemma_cut_len_le_len(s.drop_first(), (budget - 1) as nat);
        }
    }
}

/// The scan keeps exactly `budget` non-whitespace characters, or all of
/// them when there are fewer.
pub proof fn lemma_cut_len_count(s: Seq<char>, budget: nat)
    ensures
        non_ws_count(s.take(cut_len(s, budget) as int)) == if non_ws_count(s) <= budget {
            non_ws_count(s)
        } else {
            budget
        },
    decreases s.len(),
{
    lemma_cut_len_le_len(s, budget);
    if budget == 0 || s.len() == 0 {
        assert(s.take(0) =~= Seq::<char>::empty());
    } else {
        let rest = s.drop_first();
        let sub = if is_whitespace_char(s[0]) {
            budget
        } else {
            (budget - 1) as nat
        };
        lemma_cut_len_count(rest, sub);
        lemma_cut_len_le_len(rest, sub);
        let t = s.take(cut_len(s, budget) as int);
        assert(t.len() > 0 && t[0] == s[0]);
        assert(t.drop_first() =~= rest.take(cut_len(rest, sub) as int));
    }
}

/// Truncation never returns more non-whitespace characters than the
/// budget allows, and text already at or under budget is returned
/// exactly as it was.
pub proof fn lemma_trim_budget(s: Seq<char>, max: nat)
    ensures
        non_ws_count(trim_spec(s, max)) <= max,
        non_ws_count(s) <= max ==> trim_spec(s, max) == s,
{
    if non_ws_count(s) > max {
        lemma_cut_len_count(s, max);
    }
}

/// Truncating a second time with the same budget changes nothing.
pub proof fn lemma_trim_idempotent(s: Seq<char>, max: nat)
    ensures
        trim_spec(trim_spec(s, max), max) == trim_spec(s, max),
{
    lemma_trim_budget(s, max);
}

/// Count the non-whitespace characters of `content`.
pub fn count_non_ws(content: &str) -> (r: usize)
    ensures
        r == non_ws_count(content@),
{
    let n = content.unicode_len();
    let mut i: usize = 0;
    let mut count: usize = 0;
    while i < n
        invariant
            i <= n,
            n == content@.len(),
            count == non_ws_count(content@.take(i as int)),
            count <= i,
        decreases n - i,
    {
        let c = content.get_char(i);
        proof {
            lemma_non_ws_count_snoc(content@.take(i as int), c);
            assert(content@.take(i + 1) =~= content@.take(i as int).push(content@[i as int]));
        }
        if !is_ws(c) {
            count = count + 1;
        }
        i = i + 1;
    }
    proof {
        assert(content@.take(n as int) =~= content@);
    }
    count
}

proof fn lemma_non_ws_count_snoc(s: Seq<char>, c: char)
    ensures
        non_ws_count(s.push(c)) == non_ws_count(s) + if is_whitespace_char(c) {
            0nat
        } else {
            1nat
        },
    decreases s.len(),
{
    let p = s.push(c);
    assert(p.len() == s.len() + 1);
    if s.len() == 0 {
        assert(p[0] == c);
        assert(p.drop_first() =~= Seq::<char>::empty());
        assert(non_ws_count(p.drop_first()) == 0);
    } else {
        assert(p[0] == s[0]);
        assert(p.drop_first() =~= s.drop_first().push(c));
        lemma_non_ws_count_snoc(s.drop_first(), c);
    }
}

/// Truncate `content` to at most `max_chars` non-whitespace characters:
/// text already at or under the budget is returned unchanged; longer text
/// is cut right after the non-whitespace character that exhausts the
/// budget, whitespace before the cut kept as it was.
pub fn trim_content(content: &str, max_chars: usize) -> (r: String)
    ensures
        r@ == trim_spec(content@, max_chars as nat),
{
    let total = count_non_ws(content);
    if total <= max_chars {
        return content.to_owned();
    }
    let n = content.unicode_len();
    let ghost s = content@;
    proof {
        assert(s.skip(0) =~= s);
    }
    let mut i: usize = 0;
    let mut used: usize = 0;
    while i < n && used < max_chars
        invariant
            i <= n,
            n == s.len(),
            s == content@,
            used <= max_chars,
            used <= i,
            cut_len(s, max_chars as nat) == i + cut_len(
                s.skip(i as int),
                (max_chars - used) as nat,
            ),
        decreases n - i,
    {
        let c = content.get_char(i);
        proof {
            let tail = s.skip(i as int);
            assert(tail.len() > 0 && tail[0] == s[i as int]);
            assert(tail.drop_first() =~= s.skip(i + 1));
        }
        if !is_ws(c) {
            used = used + 1;
        }
        i = i + 1;
    }
    proof {
        if i == n {
            assert(s.skip(n as int) =~= Seq::<char>::empty());
        }
        assert(cut_len(s, max_chars as nat) == i);
        lemma_cut_len_le_len(s, max_chars as nat);
    }
    content.substring_char(0, i).to_owned()
}

} // verus!
