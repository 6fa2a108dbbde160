//! Detection of URLs inside a message, as byte spans of its UTF-8 encoding.
//!
//! A URL is `http://` or `https://` followed by at least one character that is
//! not white space; it extends to the next white space or to the end of the
//! text. The text is scanned from left to right, and the scan resumes where the
//! previous URL ended, so the spans never overlap.

use vstd::prelude::*;
use vstd::std_specs::iter::IteratorSpec;
use vstd::string::*;
use vstd::utf8::*;

verus! {

/// One hyperlink inside a message: the byte offsets of its first byte and of
/// the byte after its last one, and the text of the link.
#[derive(Debug)]
pub struct UrlFacet {
    pub start: usize,
    pub end: usize,
    pub url: String,
}

/// The mathematical value of a [`UrlFacet`].
pub ghost struct FacetView {
    pub start: int,
    pub end: int,
    pub url: Seq<char>,
}

impl View for UrlFacet {
    type V = FacetView;

    open spec fn view(&self) -> FacetView {
        FacetView { start: self.start as int, end: self.end as int, url: self.url@ }
    }
}

/// The views of a sequence of facets, in order.
pub open spec fn facet_views(facets: Seq<UrlFacet>) -> Seq<FacetView> {
    Seq::new(facets.len(), |k: int| facets[k]@)
}

/// Unicode white space: the characters at which a URL ends.
pub open spec fn is_space(c: char) -> bool {
    let u = c as u32;
    ||| 0x09 <= u <= 0x0D
    ||| u == 0x20
    ||| u == 0x85
    ||| u == 0xA0
    ||| u == 0x1680
    ||| 0x2000 <= u <= 0x200A
    ||| u == 0x2028
    ||| u == 0x2029
    ||| u == 0x202F
    ||| u == 0x205F
    ||| u == 0x3000
}

/// The characters of `http://`.
pub open spec fn http_scheme() -> Seq<char> {
    seq!['h', 't', 't', 'p', ':', '/', '/']
}

/// The characters of `https://`.
pub open spec fn https_scheme() -> Seq<char> {
    seq!['h', 't', 't', 'p', 's', ':', '/', '/']
}

/// `pattern` occurs in `s` at character position `i`.
pub open spec fn occurs_at(s: Seq<char>, i: int, pattern: Seq<char>) -> bool {
    &&& 0 <= i
    &&& i + pattern.len() <= s.len()
    &&& forall|k: int| 0 <= k < pattern.len() ==> s[i + k] == #[trigger] pattern[k]
}

/// The length of the scheme that stands at position `i`, or 0 if none does.
pub open spec fn scheme_len(s: Seq<char>, i: int) -> int {
    if occurs_at(s, i, http_scheme()) {
        7
    } else if occurs_at(s, i, https_scheme()) {
        8
    } else {
        0
    }
}

/// A URL begins at position `i`: a scheme, then a character that is not white space.
pub open spec fn url_starts_at(s: Seq<char>, i: int) -> bool {
    let k = scheme_len(s, i);
    k > 0 && i + k < s.len() && !is_space(s[i + k])
}

/// The first position at or after `j` that holds white space, or the length of `s`.
pub open spec fn url_end(s: Seq<char>, j: int) -> int
    decreases s.len() - j,
{
    if j < 0 || j >= s.len() || is_space(s[j]) {
        j
    } else {
        url_end(s, j + 1)
    }
}

/// The number of bytes that the first `i` characters of `s` take in UTF-8.
pub open spec fn byte_offset(s: Seq<char>, i: int) -> int {
    encode_utf8(s.subrange(0, i)).len() as int
}

/// The facet of the URL that spans the characters from `i` up to `e`.
pub open spec fn facet_at(s: Seq<char>, i: int, e: int) -> FacetView {
    FacetView { start: byte_offset(s, i), end: byte_offset(s, e), url: s.subrange(i, e) }
}

/// The facets of the URLs found in `s` when the scan starts at position `i`.
pub open spec fn url_facets_from(s: Seq<char>, i: int) -> Seq<FacetView>
    decreases s.len() - i,
{
    if i < 0 || i >= s.len() {
        Seq::empty()
    } else if url_starts_at(s, i) {
        let e = url_end(s, i);
        if i < e <= s.len() {
            seq![facet_at(s, i, e)] + url_facets_from(s, e)
        } else {
            Seq::empty()
        }
    } else {
        url_facets_from(s, i + 1)
    }
}

/// The facets of all URLs in `s`, from left to right.
pub open spec fn url_facets(s: Seq<char>) -> Seq<FacetView> {
    url_facets_from(s, 0)
}

/// The encoding of a concatenation is the concatenation of the encodings.
pub proof fn lemma_encoded_concat(a: Seq<char>, b: Seq<char>)
    ensures
        encode_utf8(a + b) == encode_utf8(a) + encode_utf8(b),
    decreases a.len(),
{
    if a.len() == 0 {
        assert(a + b =~= b);
        assert(encode_utf8(a + b) =~= encode_utf8(a) + encode_utf8(b));
    } else {
        lemma_encoded_concat(a.drop_first(), b);
        assert((a + b).drop_first() =~= a.drop_first() + b);
        assert(encode_utf8(a + b) =~= encode_utf8(a) + encode_utf8(b));
    }
}

/// The encoding of a concatenation is as long as the two encodings together.
pub proof fn lemma_encoded_len_concat(a: Seq<char>, b: Seq<char>)
    ensures
        encode_utf8(a + b).len() == encode_utf8(a).len() + encode_utf8(b).len(),
{
    lemma_encoded_concat(a, b);
}

/// The bytes of the text between a facet's two offsets are the bytes of its URL.
pub proof fn lemma_facet_bytes(s: Seq<char>, i: int, e: int)
    requires
        0 <= i <= e <= s.len(),
    ensures
        0 <= facet_at(s, i, e).start <= facet_at(s, i, e).end <= encode_utf8(s).len(),
        encode_utf8(s).subrange(facet_at(s, i, e).start, facet_at(s, i, e).end) == encode_utf8(
            facet_at(s, i, e).url,
        ),
{
    let head = s.subrange(0, i);
    let url = s.subrange(i, e);
    let tail = s.subrange(e, s.len() as int);
    assert(s.subrange(0, e) =~= head + url);
    assert(s =~= s.subrange(0, e) + tail);
    lemma_encoded_concat(head, url);
    lemma_encoded_concat(s.subrange(0, e), tail);
    let from = encode_utf8(head).len() as int;
    let to = encode_utf8(head + url).len() as int;
    assert(encode_utf8(s).subrange(from, to) =~= encode_utf8(url));
}

/// A facet is that of a URL of `s`: it spans the characters from a position
/// where a URL begins up to where that URL ends.
pub open spec fn is_url_facet(s: Seq<char>, facet: FacetView) -> bool {
    exists|i: int|
        0 <= i < s.len() && url_starts_at(s, i) && facet == #[trigger] facet_at(
            s,
            i,
            url_end(s, i),
        )
}

/// A URL that begins at `i` holds its scheme and at least one character more,
/// holds no white space, and ends at white space or at the end of the text.
pub proof fn lemma_url_text(s: Seq<char>, i: int)
    requires
        0 <= i < s.len(),
        url_starts_at(s, i),
    ensures
        i + scheme_len(s, i) < url_end(s, i) <= s.len(),
        forall|k: int| i <= k < url_end(s, i) ==> !is_space(#[trigger] s[k]),
        url_end(s, i) < s.len() ==> is_space(s[url_end(s, i)]),
{
    let k = scheme_len(s, i);
    lemma_url_end(s, i);
    lemma_url_end(s, i + k + 1);
    lemma_scheme_has_no_space(s, i);
    lemma_url_end_skips(s, i, i + k + 1);
}

proof fn lemma_scheme_has_no_space(s: Seq<char>, i: int)
    requires
        scheme_len(s, i) > 0,
    ensures
        forall|j: int| i <= j < i + scheme_len(s, i) ==> !is_space(#[trigger] s[j]),
{
    let http = http_scheme();
    let https = https_scheme();
    assert forall|j: int| i <= j < i + scheme_len(s, i) implies !is_space(#[trigger] s[j]) by {
        if occurs_at(s, i, http) {
            assert(s[i + (j - i)] == http[j - i]);
        } else {
            assert(s[i + (j - i)] == https[j - i]);
        }
    }
}

proof fn lemma_url_end_skips(s: Seq<char>, i: int, j: int)
    requires
        0 <= i <= j <= s.len(),
        forall|k: int| i <= k < j ==> !is_space(#[trigger] s[k]),
    ensures
        url_end(s, i) == url_end(s, j),
    decreases j - i,
{
    if i < j {
        assert(!is_space(s[i]));
        lemma_url_end_skips(s, i + 1, j);
    }
}

/// Every facet found is that of a URL of the text.
pub proof fn lemma_facets_are_urls(s: Seq<char>, i: int)
    requires
        0 <= i,
    ensures
        forall|k: int|
            0 <= k < url_facets_from(s, i).len() ==> is_url_facet(
                s,
                #[trigger] url_facets_from(s, i)[k],
            ),
    decreases s.len() - i,
{
    if i < s.len() {
        let all = url_facets_from(s, i);
        if url_starts_at(s, i) {
            let e = url_end(s, i);
            if i < e <= s.len() {
                lemma_facets_are_urls(s, e);
                let rest = url_facets_from(s, e);
                assert forall|k: int| 0 <= k < all.len() implies is_url_facet(
                    s,
                    #[trigger] all[k],
                ) by {
                    if k == 0 {
                        assert(all[0] == facet_at(s, i, url_end(s, i)));
                    } else {
                        assert(all[k] == rest[k - 1]);
                        assert(is_url_facet(s, rest[k - 1]));
                    }
                }
            } else {
                assert(all.len() == 0);
            }
        } else {
            lemma_facets_are_urls(s, i + 1);
            assert(all == url_facets_from(s, i + 1));
        }
    } else {
        assert(url_facets_from(s, i).len() == 0);
    }
}

/// Every character takes between one and four bytes.
pub proof fn lemma_scalar_len(c: char)
    ensures
        1 <= encode_scalar(c as u32).len() <= 4,
{
}

/// The byte offset grows by the width of each character, and never passes the
/// length of the whole encoding.
pub proof fn lemma_byte_offset_step(s: Seq<char>, i: int)
    requires
        0 <= i < s.len(),
    ensures
        byte_offset(s, i + 1) == byte_offset(s, i) + encode_scalar(s[i] as u32).len(),
        byte_offset(s, i + 1) <= encode_utf8(s).len(),
        byte_offset(s, 0) == 0,
{
    let one = seq![s[i]];
    assert(s.subrange(0, i + 1) =~= s.subrange(0, i) + one);
    lemma_encoded_len_concat(s.subrange(0, i), one);
    assert(one.drop_first() =~= Seq::<char>::empty());
    assert(encode_utf8(one) =~= encode_scalar(s[i] as u32) + encode_utf8(one.drop_first()));
    assert(s =~= s.subrange(0, i + 1) + s.subrange(i + 1, s.len() as int));
    lemma_encoded_len_concat(s.subrange(0, i + 1), s.subrange(i + 1, s.len() as int));
    assert(s.subrange(0, 0) =~= Seq::<char>::empty());
}

/// Byte offsets grow strictly with the character position.
pub proof fn lemma_byte_offset_increasing(s: Seq<char>, i: int, j: int)
    requires
        0 <= i <= j <= s.len(),
    ensures
        byte_offset(s, i) + (j - i) <= byte_offset(s, j),
    decreases j - i,
{
    if i < j {
        lemma_byte_offset_increasing(s, i, j - 1);
        lemma_byte_offset_step(s, j - 1);
        lemma_scalar_len(s[j - 1]);
    }
}

/// A URL ends after the position it is sought from, within the text, at white
/// space or at the end, and holds no white space before that.
pub proof fn lemma_url_end(s: Seq<char>, j: int)
    requires
        0 <= j <= s.len(),
    ensures
        j <= url_end(s, j) <= s.len(),
        url_end(s, j) < s.len() ==> is_space(s[url_end(s, j)]),
        forall|k: int| j <= k < url_end(s, j) ==> !is_space(#[trigger] s[k]),
        j < s.len() && !is_space(s[j]) ==> url_end(s, j) > j,
    decreases s.len() - j,
{
    if j < s.len() && !is_space(s[j]) {
        lemma_url_end(s, j + 1);
    }
}

/// A text in which neither `http://` nor `https://` occurs holds no URL.
pub proof fn lemma_no_scheme_no_facets(s: Seq<char>)
    requires
        forall|i: int| !occurs_at(s, i, http_scheme()) && !occurs_at(s, i, https_scheme()),
    ensures
        url_facets(s) == Seq::<FacetView>::empty(),
{
    lemma_no_scheme_from(s, 0);
}

proof fn lemma_no_scheme_from(s: Seq<char>, i: int)
    requires
        forall|i: int| !occurs_at(s, i, http_scheme()) && !occurs_at(s, i, https_scheme()),
    ensures
        url_facets_from(s, i) == Seq::<FacetView>::empty(),
    decreases s.len() - i,
{
    if 0 <= i < s.len() {
        assert(scheme_len(s, i) == 0);
        lemma_no_scheme_from(s, i + 1);
    }
}

/// What holds of the facets found from position `i` on: each lies within the
/// text, is not empty, begins no earlier than `i`, and begins no earlier than
/// the one before it ends.
pub open spec fn facets_in_order(s: Seq<char>, i: int, facets: Seq<FacetView>) -> bool {
    &&& forall|k: int|
        0 <= k < facets.len() ==> byte_offset(s, i) <= (#[trigger] facets[k]).start
            < facets[k].end <= encode_utf8(s).len()
    &&& forall|k: int, l: int|
        0 <= k < l < facets.len() ==> (#[trigger] facets[k]).end <= (#[trigger] facets[l]).start
}

/// The facets found from any position on are in order and do not overlap.
pub proof fn lemma_facets_from_in_order(s: Seq<char>, i: int)
    requires
        0 <= i <= s.len(),
    ensures
        facets_in_order(s, i, url_facets_from(s, i)),
    decreases s.len() - i,
{
    if i < s.len() {
        if url_starts_at(s, i) {
            let e = url_end(s, i);
            lemma_url_end(s, i);
            if e > i {
                lemma_facets_from_in_order(s, e);
                lemma_byte_offset_increasing(s, i, e);
                lemma_byte_offset_increasing(s, e, s.len() as int);
                assert(s.subrange(0, s.len() as int) =~= s);
                let rest = url_facets_from(s, e);
                let all = url_facets_from(s, i);
                assert(all =~= seq![facet_at(s, i, e)] + rest);
                assert forall|k: int| 0 <= k < all.len() implies byte_offset(s, i) <= (
                #[trigger] all[k]).start < all[k].end <= encode_utf8(s).len() by {
                    if k > 0 {
                        assert(all[k] == rest[k - 1]);
                    }
                }
                assert forall|k: int, l: int| 0 <= k < l < all.len() implies (
                #[trigger] all[k]).end <= (#[trigger] all[l]).start by {
                    assert(all[l] == rest[l - 1]);
                    if k > 0 {
                        assert(all[k] == rest[k - 1]);
                    }
                }
            }
        } else {
            lemma_facets_from_in_order(s, i + 1);
            lemma_byte_offset_increasing(s, i, i + 1);
        }
    }
}

/// The facets of a text are in left-to-right order and never overlap.
pub proof fn lemma_facets_in_order(s: Seq<char>)
    ensures
        facets_in_order(s, 0, url_facets(s)),
{
    lemma_facets_from_in_order(s, 0);
}

/// Whether `c` is Unicode white space.
pub fn is_space_char(c: char) -> (r: bool)
    ensures
        r == is_space(c),
{
    let u: u32 = c as u32;
    (0x09 <= u && u <= 0x0D) || u == 0x20 || u == 0x85 || u == 0xA0 || u == 0x1680 || (0x2000 <= u
        && u <= 0x200A) || u == 0x2028 || u == 0x2029 || u == 0x202F || u == 0x205F || u == 0x3000
}

/// The number of bytes that `c` takes in UTF-8.
pub fn utf8_width(c: char) -> (w: usize)
    ensures
        w == encode_scalar(c as u32).len(),
        1 <= w <= 4,
{
    let u: u32 = c as u32;
    if u <= 0x7F {
        1
    } else if u <= 0x7FF {
        2
    } else if u <= 0xFFFF {
        3
    } else {
        4
    }
}

/// The characters of `text`, in order.
pub fn chars_of(text: &str) -> (chars: Vec<char>)
    ensures
        chars@ == text@,
{
    broadcast use group_string_axioms;

    let mut chars: Vec<char> = Vec::new();
    let mut it = text.chars();
    loop
        invariant
            chars@ + it.remaining() == text@,
            it.decrease() is Some,
        ensures
            chars@ == text@,
        decreases it.decrease()->0,
    {
        let ghost before = it;
        match it.next() {
            Some(c) => {
                assert(it.remaining() == before.remaining().drop_first());
                chars.push(c);
                assert(chars@ + it.remaining() =~= text@);
            },
            None => {
                assert(it.remaining().len() == 0);
                assert(chars@ + it.remaining() =~= chars@);
                break ;
            },
        }
    }
    chars
}

/// Whether `pattern` occurs in `chars` at position `i`.
pub fn occurs_in(chars: &Vec<char>, i: usize, pattern: &Vec<char>) -> (r: bool)
    ensures
        r == occurs_at(chars@, i as int, pattern@),
{
    let n: usize = chars.len();
    let m: usize = pattern.len();
    if m > n || i > n - m {
        return false;
    }
    let mut k: usize = 0;
    while k < m
        invariant
            k <= m,
            i + m <= n,
            n == chars@.len(),
            m == pattern@.len(),
            forall|j: int| 0 <= j < k ==> chars@[i + j] == #[trigger] pattern@[j],
        decreases m - k,
    {
        if chars[i + k] != pattern[k] {
            assert(chars@[i + k] != pattern@[k as int]);
            return false;
        }
        k = k + 1;
    }
    true
}

/// The length of the scheme that stands in `chars` at position `i`, or 0.
pub fn scheme_len_at(chars: &Vec<char>, i: usize) -> (k: usize)
    ensures
        k == scheme_len(chars@, i as int),
{
    let http: Vec<char> = vec!['h', 't', 't', 'p', ':', '/', '/'];
    let https: Vec<char> = vec!['h', 't', 't', 'p', 's', ':', '/', '/'];
    assert(http@ =~= http_scheme());
    assert(https@ =~= https_scheme());
    if occurs_in(chars, i, &http) {
        7
    } else if occurs_in(chars, i, &https) {
        8
    } else {
        0
    }
}

/// Finds the URLs in `text`, from left to right, with their byte offsets.
pub fn detect_urls(text: &str) -> (facets: Vec<UrlFacet>)
    ensures
        facet_views(facets@) == url_facets(text@),
{
    let chars = chars_of(text);
    let n: usize = chars.len();
    let total: usize = text.as_bytes().len();
    let ghost s = text@;
    let mut facets: Vec<UrlFacet> = Vec::new();
    let mut i: usize = 0;
    let mut at: usize = 0;
    proof {
        assert(s.subrange(0, 0) =~= Seq::<char>::empty());
        assert(facet_views(facets@) + url_facets_from(s, 0) =~= url_facets(s));
    }
    while i < n
        invariant
            chars@ == s,
            s == text@,
            n == s.len(),
            total == encode_utf8(s).len(),
            i <= n,
            at == byte_offset(s, i as int),
            facet_views(facets@) + url_facets_from(s, i as int) == url_facets(s),
        decreases n - i,
    {
        let k: usize = scheme_len_at(&chars, i);
        if k > 0 && i + k < n && !is_space_char(chars[i + k]) {
            let first: usize = i;
            let start: usize = at;
            proof {
                assert(http_scheme()[0] == 'h' && https_scheme()[0] == 'h');
                assert(s[i as int] == 'h');
                lemma_url_end(s, i as int);
            }
            while i < n && !is_space_char(chars[i])
                invariant
                    chars@ == s,
                    n == s.len(),
                    total == encode_utf8(s).len(),
                    first <= i <= n,
                    at == byte_offset(s, i as int),
                    url_end(s, first as int) == url_end(s, i as int),
                decreases n - i,
            {
                proof {
                    lemma_byte_offset_step(s, i as int);
                }
                at = at + utf8_width(chars[i]);
                i = i + 1;
            }
            let url = text.substring_char(first, i).to_owned();
            let ghost before = facets@;
            facets.push(UrlFacet { start, end: at, url });
            proof {
                let rest = url_facets_from(s, i as int);
                assert(url_facets_from(s, first as int) == seq![
                    facet_at(s, first as int, i as int),
                ] + rest);
                assert(facet_views(facets@) =~= facet_views(before) + seq![
                    facet_at(s, first as int, i as int),
                ]);
                assert(facet_views(facets@) + rest =~= facet_views(before) + url_facets_from(
                    s,
                    first as int,
                ));
            }
        } else {
            proof {
                lemma_byte_offset_step(s, i as int);
            }
            at = at + utf8_width(chars[i]);
            i = i + 1;
        }
    }
    assert(facet_views(facets@) + url_facets_from(s, n as int) =~= facet_views(facets@));
    facets
}

} // verus!
