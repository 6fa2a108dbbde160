//! Preparing the message: the words given on the command line are joined with
//! single spaces, and each two-character escape made of a backslash and the
//! letter `n` becomes a line feed.

use crate::facets::chars_of;
use vstd::prelude::*;
use vstd::string::*;

verus! {

/// The words joined with one space between neighbours.
pub open spec fn joined(words: Seq<String>) -> Seq<char>
    decreases words.len(),
{
    if words.len() == 0 {
        Seq::empty()
    } else if words.len() == 1 {
        words[0]@
    } else {
        joined(words.drop_last()) + seq![' '] + words.last()@
    }
}

/// A backslash stands at position `i` of `s`, and the letter `n` right after it.
pub open spec fn is_escape_at(s: Seq<char>, i: int) -> bool {
    0 <= i && i + 1 < s.len() && s[i] == '\\' && s[i + 1] == 'n'
}

/// The text of `s` from position `i` on, with each escape replaced by a line
/// feed. Escapes are found from left to right and do not overlap.
pub open spec fn unescaped_from(s: Seq<char>, i: int) -> Seq<char>
    decreases s.len() - i,
{
    if i < 0 || i >= s.len() {
        Seq::empty()
    } else if is_escape_at(s, i) {
        seq!['\n'] + unescaped_from(s, i + 2)
    } else {
        seq![s[i]] + unescaped_from(s, i + 1)
    }
}

/// The text of `s` with each escape replaced by a line feed.
pub open spec fn unescaped(s: Seq<char>) -> Seq<char> {
    unescaped_from(s, 0)
}

/// The message that a list of words stands for.
pub open spec fn prepared(words: Seq<String>) -> Seq<char> {
    unescaped(joined(words))
}

/// After the replacement no escape is left: a backslash in the result is never
/// followed by the letter `n`.
pub proof fn lemma_unescaped_has_no_escape(s: Seq<char>)
    ensures
        forall|k: int| !is_escape_at(unescaped(s), k),
{
    lemma_no_escape_from(s, 0);
}

proof fn lemma_no_escape_from(s: Seq<char>, i: int)
    requires
        0 <= i,
    ensures
        forall|k: int| !is_escape_at(unescaped_from(s, i), k),
    decreases s.len() - i,
{
    if i < s.len() {
        let r = unescaped_from(s, i);
        let step: int = if is_escape_at(s, i) {
            2
        } else {
            1
        };
        let rest = unescaped_from(s, i + step);
        lemma_no_escape_from(s, i + step);
        assert forall|k: int| !is_escape_at(r, k) by {
            if 0 < k && k + 1 < r.len() {
                assert(r[k] == rest[k - 1] && r[k + 1] == rest[k]);
                assert(!is_escape_at(rest, k - 1));
            }
        }
    }
}

/// The two characters of the escape: a backslash, then the letter `n`.
pub open spec fn escape() -> Seq<char> {
    seq!['\\', 'n']
}

/// Where an escape stands between two texts, a line feed stands between what
/// the two texts become.
pub proof fn lemma_escape_becomes_line_feed(before: Seq<char>, after: Seq<char>)
    ensures
        unescaped(before + escape() + after) == unescaped(before) + seq!['\n'] + unescaped(after),
{
    let rest = escape() + after;
    let whole = before + rest;
    let n = before.len() as int;
    assert(whole =~= before + escape() + after);
    lemma_unescaped_prefix(before, rest, 0);
    assert(is_escape_at(whole, n));
    lemma_unescaped_suffix(before + escape(), after, 0);
    assert(unescaped_from(whole, n) =~= seq!['\n'] + unescaped_from(whole, n + 2));
    assert(unescaped(whole) =~= unescaped(before) + seq!['\n'] + unescaped(after));
}

proof fn lemma_unescaped_suffix(pre: Seq<char>, s: Seq<char>, j: int)
    requires
        0 <= j,
    ensures
        unescaped_from(pre + s, pre.len() + j) == unescaped_from(s, j),
    decreases s.len() - j,
{
    let whole = pre + s;
    let n = pre.len() as int;
    if j < s.len() {
        assert(whole[n + j] == s[j]);
        if j + 1 < s.len() {
            assert(whole[n + j + 1] == s[j + 1]);
        }
        assert(is_escape_at(whole, n + j) == is_escape_at(s, j));
        if is_escape_at(s, j) {
            lemma_unescaped_suffix(pre, s, j + 2);
        } else {
            lemma_unescaped_suffix(pre, s, j + 1);
        }
    }
}

proof fn lemma_unescaped_prefix(a: Seq<char>, rest: Seq<char>, i: int)
    requires
        0 <= i <= a.len(),
        rest.len() > 0 ==> rest[0] != 'n',
    ensures
        unescaped_from(a + rest, i) == unescaped_from(a, i) + unescaped_from(
            a + rest,
            a.len() as int,
        ),
    decreases a.len() - i,
{
    let whole = a + rest;
    if i < a.len() {
        assert(whole[i] == a[i]);
        if i + 1 < a.len() {
            assert(whole[i + 1] == a[i + 1]);
        } else if rest.len() > 0 {
            assert(whole[i + 1] == rest[0]);
        }
        assert(is_escape_at(whole, i) == is_escape_at(a, i));
        if is_escape_at(a, i) {
            lemma_unescaped_prefix(a, rest, i + 2);
            assert(unescaped_from(whole, i) =~= unescaped_from(a, i) + unescaped_from(
                whole,
                a.len() as int,
            ));
        } else {
            lemma_unescaped_prefix(a, rest, i + 1);
            assert(unescaped_from(whole, i) =~= unescaped_from(a, i) + unescaped_from(
                whole,
                a.len() as int,
            ));
        }
    } else {
        assert(unescaped_from(whole, i) =~= unescaped_from(a, i) + unescaped_from(
            whole,
            a.len() as int,
        ));
    }
}

/// A text without escapes is left as it is.
pub proof fn lemma_unescaped_without_escape(s: Seq<char>)
    requires
        forall|k: int| !is_escape_at(s, k),
    ensures
        unescaped(s) == s,
{
    lemma_without_escape_from(s, 0);
    assert(s.subrange(0, s.len() as int) =~= s);
}

proof fn lemma_without_escape_from(s: Seq<char>, i: int)
    requires
        0 <= i <= s.len(),
        forall|k: int| !is_escape_at(s, k),
    ensures
        unescaped_from(s, i) == s.subrange(i, s.len() as int),
    decreases s.len() - i,
{
    if i < s.len() {
        lemma_without_escape_from(s, i + 1);
        assert(!is_escape_at(s, i));
        assert(unescaped_from(s, i) =~= s.subrange(i, s.len() as int));
    } else {
        assert(unescaped_from(s, i) =~= s.subrange(i, s.len() as int));
    }
}

/// Joins the words with single spaces.
pub fn join_words(words: &Vec<String>) -> (message: String)
    ensures
        message@ == joined(words@),
{
    let mut message = String::new();
    let n: usize = words.len();
    let mut i: usize = 0;
    proof {
        reveal_strlit(" ");
    }
    while i < n
        invariant
            n == words@.len(),
            i <= n,
            message@ == joined(words@.subrange(0, i as int)),
            " "@ == seq![' '],
        decreases n - i,
    {
        let ghost before = words@.subrange(0, i as int);
        let ghost after = words@.subrange(0, i + 1);
        proof {
            assert(after.drop_last() =~= before);
            assert(after.last() == words@[i as int]);
        }
        if i > 0 {
            message.append(" ");
        }
        message.append(words[i].as_str());
        proof {
            if i == 0 {
                assert(message@ =~= words@[0]@);
            }
        }
        i = i + 1;
    }
    proof {
        assert(words@.subrange(0, n as int) =~= words@);
    }
    message
}

/// Replaces each escape in `raw` by a line feed.
pub fn unescape_newlines(raw: &str) -> (message: String)
    ensures
        message@ == unescaped(raw@),
{
    let chars = chars_of(raw);
    let n: usize = chars.len();
    let ghost s = raw@;
    let mut message = String::new();
    let mut from: usize = 0;
    let mut i: usize = 0;
    proof {
        reveal_strlit("\n");
        assert(message@ + s.subrange(0, 0) + unescaped_from(s, 0) =~= unescaped(s));
    }
    while i < n
        invariant
            chars@ == s,
            s == raw@,
            n == s.len(),
            from <= i <= n,
            "\n"@ == seq!['\n'],
            message@ + s.subrange(from as int, i as int) + unescaped_from(s, i as int)
                == unescaped(s),
        decreases n - i,
    {
        if chars[i] == '\\' && i + 1 < n && chars[i + 1] == 'n' {
            let ghost before = message@;
            message.append(raw.substring_char(from, i));
            message.append("\n");
            proof {
                assert(is_escape_at(s, i as int));
                assert(message@ + s.subrange(i + 2, i + 2) + unescaped_from(s, i + 2) =~= before
                    + s.subrange(from as int, i as int) + unescaped_from(s, i as int));
            }
            i = i + 2;
            from = i;
        } else {
            proof {
                assert(!is_escape_at(s, i as int));
                assert(message@ + s.subrange(from as int, i + 1) + unescaped_from(s, i + 1)
                    =~= message@ + s.subrange(from as int, i as int) + unescaped_from(
                    s,
                    i as int,
                ));
            }
            i = i + 1;
        }
    }
    let ghost before = message@;
    message.append(raw.substring_char(from, n));
    proof {
        assert(message@ =~= before + s.subrange(from as int, n as int) + unescaped_from(
            s,
            n as int,
        ));
    }
    message
}

/// The message to post: the words joined, then the escapes replaced.
pub fn prepare_message(words: &Vec<String>) -> (message: String)
    ensures
        message@ == prepared(words@),
{
    let joined_words = join_words(words);
    unescape_newlines(joined_words.as_str())
}

} // verus!
