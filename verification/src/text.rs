//! Text helpers: substring matching over monitor-listing output, equality of
//! event records, and whitespace splitting of configured command lines.

use vstd::prelude::*;
use vstd::string::StrSliceExecFns;

verus! {

/// `needle` matches `hay` starting at position `i`.
pub open spec fn matches_at(needle: Seq<char>, hay: Seq<char>, i: int) -> bool {
    &&& 0 <= i
    &&& i + needle.len() <= hay.len()
    &&& hay.subrange(i, i + needle.len()) == needle
}

/// `needle` occurs somewhere in `hay` as a contiguous substring.
pub open spec fn is_substring(needle: Seq<char>, hay: Seq<char>) -> bool {
    exists|i: int| matches_at(needle, hay, i)
}

/// Substring search: does `hay` contain `needle`?
pub fn contains_substring(hay: &str, needle: &str) -> (found: bool)
    ensures
        found == is_substring(needle@, hay@),
{
    let hay_len = hay.unicode_len();
    let needle_len = needle.unicode_len();
    if needle_len > hay_len {
        proof {
            if is_substring(needle@, hay@) {
                let k = choose|k: int| matches_at(needle@, hay@, k);
                assert(k + needle@.len() <= hay@.len());
            }
        }
        return false;
    }
    let mut i: usize = 0;
    while i <= hay_len - needle_len
        invariant
            needle_len <= hay_len,
            hay_len == hay@.len(),
            needle_len == needle@.len(),
            i <= hay_len - needle_len + 1,
            forall|k: int| 0 <= k < i ==> !matches_at(needle@, hay@, k),
        decreases hay_len - needle_len - i + 1,
    {
        let mut j: usize = 0;
        while j < needle_len && hay.get_char(i + j) == needle.get_char(j)
            invariant
                i + needle_len <= hay_len,
                hay_len == hay@.len(),
                needle_len == needle@.len(),
                j <= needle_len,
                forall|l: int| 0 <= l < j ==> hay@[i + l] == needle@[l],
            decreases needle_len - j,
        {
            j += 1;
        }
        if j == needle_len {
            proof {
                assert(hay@.subrange(i as int, i + needle@.len()) =~= needle@);
                assert(matches_at(needle@, hay@, i as int));
            }
            return true;
        }
        proof {
            assert(!matches_at(needle@, hay@, i as int)) by {
                if matches_at(needle@, hay@, i as int) {
                    let idx = j as int;
                    assert(hay@.subrange(i as int, i + needle@.len())[idx] == needle@[idx]);
                }
            }
        }
        i += 1;
    }
    proof {
        if is_substring(needle@, hay@) {
            let k = choose|k: int| matches_at(needle@, hay@, k);
            assert(k + needle@.len() <= hay@.len());
            assert(!matches_at(needle@, hay@, k));
        }
    }
    false
}

/// The tokens of `s` from position `i` on, given that the characters of the
/// token currently being read are `cur`.  A space ends the current token (if
/// any); any other character extends it.
pub open spec fn tokens_from(s: Seq<char>, i: int, cur: Seq<char>) -> Seq<Seq<char>>
    decreases s.len() - i,
{
    if i < 0 || i >= s.len() {
        if cur.len() == 0 {
            Seq::<Seq<char>>::empty()
        } else {
            seq![cur]
        }
    } else if s[i] == ' ' {
        if cur.len() == 0 {
            tokens_from(s, i + 1, Seq::<char>::empty())
        } else {
            seq![cur] + tokens_from(s, i + 1, Seq::<char>::empty())
        }
    } else {
        tokens_from(s, i + 1, cur.push(s[i]))
    }
}

/// The whitespace-split tokens of a command line: its maximal non-empty runs
/// of non-space characters, in order.
pub open spec fn tokens_of(s: Seq<char>) -> Seq<Seq<char>> {
    tokens_from(s, 0, Seq::<char>::empty())
}

/// The views of a sequence of strings.
pub open spec fn views_of(v: Seq<String>) -> Seq<Seq<char>> {
    v.map_values(|t: String| t@)
}

/// Reading over a run of non-space characters only lengthens the current
/// token.
proof fn lemma_tokens_from_run(s: Seq<char>, start: int, i: int, cur: Seq<char>)
    requires
        0 <= start <= i <= s.len(),
        forall|k: int| start <= k < i ==> s[k] != ' ',
    ensures
        tokens_from(s, start, cur) == tokens_from(s, i, cur + s.subrange(start, i)),
    decreases i - start,
{
    if start == i {
        assert(cur + s.subrange(start, i) =~= cur);
    } else {
        assert(s[start] != ' ');
        assert(tokens_from(s, start, cur) == tokens_from(s, start + 1, cur.push(s[start])));
        lemma_tokens_from_run(s, start + 1, i, cur.push(s[start]));
        assert(cur.push(s[start]) + s.subrange(start + 1, i) =~= cur + s.subrange(start, i));
    }
}

/// Split a command line into its whitespace-delimited tokens.  An empty or
/// all-space command line yields no tokens at all.
pub fn split_command(s: &str) -> (tokens: Vec<String>)
    ensures
        views_of(tokens@) == tokens_of(s@),
        s@.len() == 0 ==> tokens@.len() == 0,
{
    let n = s.unicode_len();
    let mut tokens: Vec<String> = Vec::new();
    let mut i: usize = 0;
    while i < n
        invariant
            i <= n,
            n == s@.len(),
            tokens_of(s@) == views_of(tokens@) + tokens_from(s@, i as int, Seq::<char>::empty()),
        decreases n - i,
    {
        if s.get_char(i) == ' ' {
            proof {
                assert(tokens_from(s@, i as int, Seq::<char>::empty()) == tokens_from(
                    s@,
                    i + 1,
                    Seq::<char>::empty(),
                ));
            }
            i += 1;
        } else {
            let start = i;
            i += 1;
            while i < n && s.get_char(i) != ' '
                invariant
                    start < i <= n,
                    n == s@.len(),
                    forall|k: int| start <= k < i ==> s@[k] != ' ',
                decreases n - i,
            {
                i += 1;
            }
            let tok = s.substring_char(start, i).to_owned();
            proof {
                lemma_tokens_from_run(s@, start as int, i as int, Seq::<char>::empty());
                assert(Seq::<char>::empty() + s@.subrange(start as int, i as int) =~= s@.subrange(
                    start as int,
                    i as int,
                ));
                assert(tok@.len() > 0);
                if i < n {
                    assert(tokens_from(s@, i as int, tok@) == seq![tok@] + tokens_from(
                        s@,
                        i + 1,
                        Seq::<char>::empty(),
                    ));
                    assert(tokens_from(s@, i as int, Seq::<char>::empty()) == tokens_from(
                        s@,
                        i + 1,
                        Seq::<char>::empty(),
                    ));
                } else {
                    assert(tokens_from(s@, i as int, tok@) == seq![tok@]);
                    assert(seq![tok@] + tokens_from(s@, i as int, Seq::<char>::empty()) =~= seq![
                        tok@,
                    ]);
                }
                assert(tokens_from(s@, i as int, tok@) == seq![tok@] + tokens_from(
                    s@,
                    i as int,
                    Seq::<char>::empty(),
                ));
            }
            let ghost old_tokens = tokens@;
            tokens.push(tok);
            proof {
                assert(views_of(tokens@) =~= views_of(old_tokens) + seq![tok@]);
                assert(views_of(old_tokens) + (seq![tok@] + tokens_from(
                    s@,
                    i as int,
                    Seq::<char>::empty(),
                )) =~= views_of(tokens@) + tokens_from(s@, i as int, Seq::<char>::empty()));
            }
        }
    }
    proof {
        assert(tokens_from(s@, n as int, Seq::<char>::empty())
            == Seq::<Seq<char>>::empty());
        assert(views_of(tokens@) + Seq::<Seq<char>>::empty() =~= views_of(tokens@));
    }
    tokens
}

/// Character-wise equality of two string slices.
pub fn str_eq(a: &str, b: &str) -> (eq: bool)
    ensures
        eq == (a@ == b@),
{
    let a_len = a.unicode_len();
    let b_len = b.unicode_len();
    if a_len != b_len {
        return false;
    }
    let mut i: usize = 0;
    while i < a_len
        invariant
            a_len == a@.len(),
            a_len == b@.len(),
            i <= a_len,
            forall|k: int| 0 <= k < i ==> a@[k] == b@[k],
        decreases a_len - i,
    {
        if a.get_char(i) != b.get_char(i) {
            return false;
        }
        i += 1;
    }
    proof {
        assert(a@ =~= b@);
    }
    true
}

} // verus!
