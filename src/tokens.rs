//! Splitting a command line into tokens, and checking that enough came.

use vstd::prelude::*;
use vstd::string::StrSliceExecFns;

verus! {

/// Whether `c` has Unicode's White_Space property.
pub uninterp spec fn white_space(c: char) -> bool;

/// Relies on `char::is_whitespace`, which tells whether a character has
/// Unicode's White_Space property.
#[verifier::external_body]
fn is_space(c: char) -> (r: bool)
    ensures
        r == white_space(c),
{
    c.is_whitespace()
}

/// The maximal runs of non-whitespace characters of `s`, from left to right.
pub open spec fn words(s: Seq<char>) -> Seq<Seq<char>>
    decreases s.len(),
{
    if s.len() == 0 {
        seq![]
    } else {
        let w = words(s.drop_last());
        let c = s.last();
        if white_space(c) {
            w
        } else if s.len() >= 2 && !white_space(s[s.len() - 2]) {
            w.drop_last().push(w.last().push(c))
        } else {
            w.push(seq![c])
        }
    }
}

/// The characters of each string.
pub open spec fn texts(v: Seq<String>) -> Seq<Seq<char>> {
    v.map_values(|t: String| t@)
}

/// Splits a line into its whitespace-separated tokens; an empty or blank line
/// has none.
pub fn split_words(line: &str) -> (r: Vec<String>)
    ensures
        texts(r@) == words(line@),
{
    let n = line.unicode_len();
    let mut out: Vec<String> = Vec::new();
    let mut i: usize = 0;
    let mut start: usize = 0;
    let mut in_word = false;
    while i < n
        invariant
            n == line@.len(),
            i <= n,
            in_word ==> start < i,
            in_word ==> !white_space(line@[i - 1]),
            in_word ==> texts(out@).push(line@.subrange(start as int, i as int)) == words(
                line@.subrange(0, i as int),
            ),
            !in_word ==> i > 0 ==> white_space(line@[i - 1]),
            !in_word ==> texts(out@) == words(line@.subrange(0, i as int)),
        decreases n - i,
    {
        let c = line.get_char(i);
        let ghost before = line@.subrange(0, i as int);
        let ghost after = line@.subrange(0, i + 1);
        proof {
            assert(after.drop_last() =~= before);
            assert(after.last() == c);
        }
        if is_space(c) {
            if in_word {
                let t = line.substring_char(start, i).to_owned();
                let ghost prev = out@;
                out.push(t);
                proof {
                    assert(texts(out@) =~= texts(prev).push(t@));
                }
                in_word = false;
            }
        } else {
            if in_word {
                proof {
                    assert(line@.subrange(start as int, i + 1) =~= line@.subrange(
                        start as int,
                        i as int,
                    ).push(c));
                }
            } else {
                start = i;
                proof {
                    assert(line@.subrange(start as int, i + 1) =~= seq![c]);
                }
                in_word = true;
            }
        }
        i = i + 1;
    }
    if in_word {
        let t = line.substring_char(start, n).to_owned();
        let ghost prev = out@;
        out.push(t);
        proof {
            assert(texts(out@) =~= texts(prev).push(t@));
        }
    }
    proof {
        assert(line@.subrange(0, n as int) =~= line@);
    }
    out
}

/// Every token is non-empty and holds no whitespace.
pub proof fn lemma_words_are_clean(s: Seq<char>)
    ensures
        forall|i: int|
            0 <= i < words(s).len() ==> {
                &&& #[trigger] words(s)[i].len() > 0
                &&& forall|j: int| 0 <= j < words(s)[i].len() ==> !white_space(words(s)[i][j])
            },
    decreases s.len(),
{
    if s.len() > 0 {
        let w = words(s.drop_last());
        lemma_words_are_clean(s.drop_last());
        let c = s.last();
        if white_space(c) {
        } else if s.len() >= 2 && !white_space(s[s.len() - 2]) {
            lemma_words_end_with_last(s.drop_last());
            let v = w.drop_last().push(w.last().push(c));
            assert forall|i: int| 0 <= i < v.len() implies {
                &&& #[trigger] v[i].len() > 0
                &&& forall|j: int| 0 <= j < v[i].len() ==> !white_space(v[i][j])
            } by {
                if i < v.len() - 1 {
                    assert(v[i] == w[i]);
                } else {
                    assert(v[i] == w[w.len() - 1].push(c));
                }
            }
        } else {
            let v = w.push(seq![c]);
            assert forall|i: int| 0 <= i < v.len() implies {
                &&& #[trigger] v[i].len() > 0
                &&& forall|j: int| 0 <= j < v[i].len() ==> !white_space(v[i][j])
            } by {
                if i < v.len() - 1 {
                    assert(v[i] == w[i]);
                }
            }
        }
    }
}

/// A line that ends in a non-whitespace character has at least one token.
proof fn lemma_words_end_with_last(s: Seq<char>)
    requires
        s.len() > 0,
        !white_space(s.last()),
    ensures
        words(s).len() > 0,
    decreases s.len(),
{
}

} // verus!
