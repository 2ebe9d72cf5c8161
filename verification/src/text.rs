//! Text operations of the standard library that the library relies on, with
//! what they compute stated over character sequences.

use vstd::prelude::*;
use vstd::std_specs::iter::IteratorSpec;

verus! {

/// The text of a line feed.
pub open spec fn lf() -> Seq<char> {
    seq!['\n']
}

/// The text of a carriage return followed by a line feed.
pub open spec fn crlf() -> Seq<char> {
    seq!['\r', '\n']
}

/// `s` with every occurrence of the non-empty `pattern` replaced by
/// `replacement`, occurrences taken from the left and never overlapping.
pub open spec fn replace_all(s: Seq<char>, pattern: Seq<char>, replacement: Seq<char>) -> Seq<char>
    recommends
        pattern.len() > 0,
    decreases s.len(),
{
    if pattern.len() == 0 || s.len() < pattern.len() {
        s
    } else if s.take(pattern.len() as int) == pattern {
        replacement + replace_all(s.skip(pattern.len() as int), pattern, replacement)
    } else {
        seq![s[0]] + replace_all(s.skip(1), pattern, replacement)
    }
}

/// The last line feed of `s` is preceded by a carriage return.
pub open spec fn last_line_ending_is_crlf(s: Seq<char>) -> bool
    decreases s.len(),
{
    if s.len() == 0 {
        false
    } else if s.last() == '\n' {
        s.len() >= 2 && s[s.len() - 2] == '\r'
    } else {
        last_line_ending_is_crlf(s.drop_last())
    }
}

/// `s` holds the character `c` nowhere.
pub open spec fn lacks(s: Seq<char>, c: char) -> bool {
    forall|i: int| 0 <= i < s.len() ==> s[i] != c
}

/// Every line feed of `s` is preceded by a carriage return.
pub open spec fn line_feeds_follow_carriage_returns(s: Seq<char>) -> bool {
    forall|i: int| 0 <= i < s.len() && #[trigger] s[i] == '\n' ==> i > 0 && s[i - 1] == '\r'
}

/// Replacing a pattern by itself changes nothing.
pub proof fn lemma_replace_by_itself(s: Seq<char>, pattern: Seq<char>)
    requires
        pattern.len() > 0,
    ensures
        replace_all(s, pattern, pattern) == s,
    decreases s.len(),
{
    if s.len() >= pattern.len() {
        if s.take(pattern.len() as int) == pattern {
            lemma_replace_by_itself(s.skip(pattern.len() as int), pattern);
            assert(s =~= s.take(pattern.len() as int) + s.skip(pattern.len() as int));
        } else {
            lemma_replace_by_itself(s.skip(1), pattern);
            assert(s =~= seq![s[0]] + s.skip(1));
        }
    }
}

/// A pattern whose first character does not occur in `s` is replaced nowhere.
pub proof fn lemma_replace_absent(s: Seq<char>, pattern: Seq<char>, replacement: Seq<char>)
    requires
        pattern.len() > 0,
        lacks(s, pattern[0]),
    ensures
        replace_all(s, pattern, replacement) == s,
    decreases s.len(),
{
    if s.len() >= pattern.len() {
        assert(s.take(pattern.len() as int)[0] == s[0]);
        assert(s.take(pattern.len() as int) != pattern);
        lemma_replace_absent(s.skip(1), pattern, replacement);
        assert(s =~= seq![s[0]] + s.skip(1));
    }
}

/// A text without carriage returns does not end its last line with one.
pub proof fn lemma_no_carriage_return_ends_in_line_feed(s: Seq<char>)
    requires
        lacks(s, '\r'),
    ensures
        !last_line_ending_is_crlf(s),
    decreases s.len(),
{
    if s.len() > 0 && s.last() != '\n' {
        lemma_no_carriage_return_ends_in_line_feed(s.drop_last());
    }
}

/// A text without line feeds has no last line ending.
pub proof fn lemma_no_line_feed_no_crlf(s: Seq<char>)
    requires
        lacks(s, '\n'),
    ensures
        !last_line_ending_is_crlf(s),
    decreases s.len(),
{
    if s.len() > 0 {
        lemma_no_line_feed_no_crlf(s.drop_last());
    }
}

/// In a text where every line feed follows a carriage return, a last line
/// ending, if there is one, is `\r\n`.
pub proof fn lemma_crlf_text_ends_lines_in_crlf(s: Seq<char>)
    requires
        line_feeds_follow_carriage_returns(s),
        !lacks(s, '\n'),
    ensures
        last_line_ending_is_crlf(s),
    decreases s.len(),
{
    if s.last() != '\n' {
        let t = s.drop_last();
        let i = choose|i: int| 0 <= i < s.len() && s[i] == '\n';
        assert(t[i] == '\n');
        assert forall|j: int| 0 <= j < t.len() && #[trigger] t[j] == '\n' implies j > 0 && t[j - 1] == '\r' by {
            assert(s[j] == '\n');
        }
        lemma_crlf_text_ends_lines_in_crlf(t);
    }
}

/// Writing each line feed as `\r\n` leaves no line feed without a carriage
/// return before it, and starts with no line feed.
pub proof fn lemma_expand_line_feeds(u: Seq<char>)
    ensures
        line_feeds_follow_carriage_returns(replace_all(u, lf(), crlf())),
        replace_all(u, lf(), crlf()).len() > 0 ==> replace_all(u, lf(), crlf())[0] != '\n',
        lacks(replace_all(u, lf(), crlf()), '\n') ==> lacks(u, '\n'),
    decreases u.len(),
{
    let e = replace_all(u, lf(), crlf());
    if u.len() >= 1 {
        let rest = replace_all(u.skip(1), lf(), crlf());
        lemma_expand_line_feeds(u.skip(1));
        if u.take(1) == lf() {
            assert(e == crlf() + rest);
            assert(e[1] == '\n');
            assert forall|i: int| 0 <= i < e.len() && #[trigger] e[i] == '\n' implies i > 0 && e[i - 1] == '\r' by {
                if i >= 2 {
                    assert(e[i] == rest[i - 2]);
                    if i - 2 > 0 {
                        assert(rest[i - 3] == '\r');
                    } else {
                        assert(rest[0] != '\n');
                    }
                }
            }
        } else {
            assert(u.take(1)[0] == u[0]);
            assert(u[0] != '\n') by {
                if u[0] == '\n' {
                    assert(u.take(1) =~= lf());
                }
            }
            assert(e == seq![u[0]] + rest);
            assert forall|i: int| 0 <= i < e.len() && #[trigger] e[i] == '\n' implies i > 0 && e[i - 1] == '\r' by {
                if i >= 1 {
                    assert(e[i] == rest[i - 1]);
                    if i - 1 > 0 {
                        assert(rest[i - 2] == '\r');
                    } else {
                        assert(rest[0] != '\n');
                    }
                }
            }
            if lacks(e, '\n') {
                assert forall|j: int| 0 <= j < rest.len() implies rest[j] != '\n' by {
                    assert(e[j + 1] == rest[j]);
                }
                assert forall|j: int| 0 <= j < u.len() implies u[j] != '\n' by {
                    if j > 0 {
                        assert(u[j] == u.skip(1)[j - 1]);
                    }
                }
            }
        }
    }
}

/// Writing each line feed as `\r\n` and then reading each `\r\n` back as a
/// line feed gives the text back.
pub proof fn lemma_expanded_line_feeds_read_back(u: Seq<char>)
    ensures
        replace_all(replace_all(u, lf(), crlf()), crlf(), lf()) == u,
    decreases u.len(),
{
    let e = replace_all(u, lf(), crlf());
    if u.len() >= 1 {
        let rest = replace_all(u.skip(1), lf(), crlf());
        lemma_expanded_line_feeds_read_back(u.skip(1));
        lemma_expand_line_feeds(u.skip(1));
        if u.take(1) == lf() {
            assert(e == crlf() + rest);
            assert(e.take(2) =~= crlf());
            assert(e.skip(2) =~= rest);
            assert(replace_all(e, crlf(), lf()) == lf() + replace_all(rest, crlf(), lf()));
            assert(u[0] == '\n') by {
                assert(u.take(1)[0] == u[0]);
            }
            assert(u =~= lf() + u.skip(1));
        } else {
            assert(e == seq![u[0]] + rest);
            assert(e.skip(1) =~= rest);
            if e.len() >= 2 {
                assert(e.take(2)[1] == rest[0]);
                assert(e.take(2) != crlf());
            }
            assert(replace_all(e, crlf(), lf()) == seq![u[0]] + replace_all(rest, crlf(), lf()));
            assert(u =~= seq![u[0]] + u.skip(1));
        }
    } else {
        assert(e == u);
    }
}

/// Compares two strings character by character: true exactly when both hold
/// the same characters.
pub fn text_equals(a: &str, b: &str) -> (equal: bool)
    ensures
        equal == (a@ == b@),
{
    broadcast use vstd::string::axiom_spec_iter, vstd::string::next_postcondition;

    let mut left = a.chars();
    let mut right = b.chars();
    let ghost mut i: int = 0;
    loop
        invariant
            0 <= i <= a@.len(),
            i <= b@.len(),
            left.remaining() == a@.skip(i),
            right.remaining() == b@.skip(i),
            a@.take(i) == b@.take(i),
        decreases a@.len() - i,
    {
        let x = left.next();
        let y = right.next();
        match (x, y) {
            (None, None) => {
                assert(a@ =~= a@.take(i));
                assert(b@ =~= b@.take(i));
                return true;
            },
            (Some(p), Some(q)) => {
                if p != q {
                    assert(a@[i] == p && b@[i] == q);
                    return false;
                }
                assert(a@.take(i + 1) =~= a@.take(i).push(p));
                assert(b@.take(i + 1) =~= b@.take(i).push(q));
                proof {
                    i = i + 1;
                }
                assert(left.remaining() =~= a@.skip(i));
                assert(right.remaining() =~= b@.skip(i));
            },
            (Some(_), None) => {
                assert(a@.len() != b@.len());
                return false;
            },
            (None, Some(_)) => {
                assert(a@.len() != b@.len());
                return false;
            },
        }
    }
}

/// `str::replace`: a new string in which every match of `from` is replaced by
/// `to`.
///
/// Trusted: the standard library documents `replace` as replacing all matches
/// of the pattern; the matches are found from the left and do not overlap,
/// which is what `replace_all` states. An empty pattern is left out.
#[verifier::external_body]
pub fn replace_text(s: &str, from: &str, to: &str) -> (replaced: String)
    requires
        from@.len() > 0,
    ensures
        replaced@ == replace_all(s@, from@, to@),
{
    s.replace(from, to)
}

} // verus!
