//! Building the query URLs for the two API actions.
//!
//! A search term has its literal spaces replaced by `%20` and is then trimmed
//! of leading and trailing whitespace before being interpolated into the
//! `opensearch` template. No other percent-encoding is performed: non-ASCII
//! and reserved characters pass through untouched. A summary lookup
//! interpolates the stored title verbatim into the `query`/`extracts`
//! template, asking for the introductory section only, as plain text.

use vstd::prelude::*;

verus! {

/// The characters with the Unicode `White_Space` property, the set that
/// leading/trailing trimming removes.
pub open spec fn is_space_like(c: char) -> bool {
    ||| c == ' '
    ||| c == '\t'
    ||| c == '\n'
    ||| c == '\u{0B}'
    ||| c == '\u{0C}'
    ||| c == '\r'
    ||| c == '\u{85}'
    ||| c == '\u{A0}'
    ||| c == '\u{1680}'
    ||| c == '\u{2000}'
    ||| c == '\u{2001}'
    ||| c == '\u{2002}'
    ||| c == '\u{2003}'
    ||| c == '\u{2004}'
    ||| c == '\u{2005}'
    ||| c == '\u{2006}'
    ||| c == '\u{2007}'
    ||| c == '\u{2008}'
    ||| c == '\u{2009}'
    ||| c == '\u{200A}'
    ||| c == '\u{2028}'
    ||| c == '\u{2029}'
    ||| c == '\u{202F}'
    ||| c == '\u{205F}'
    ||| c == '\u{3000}'
}

fn is_space_char(c: char) -> (r: bool)
    ensures
        r == is_space_like(c),
{
    c == ' ' || c == '\t' || c == '\n' || c == '\u{0B}' || c == '\u{0C}' || c == '\r'
        || c == '\u{85}' || c == '\u{A0}' || c == '\u{1680}' || c == '\u{2000}' || c == '\u{2001}'
        || c == '\u{2002}' || c == '\u{2003}' || c == '\u{2004}' || c == '\u{2005}'
        || c == '\u{2006}' || c == '\u{2007}' || c == '\u{2008}' || c == '\u{2009}'
        || c == '\u{200A}' || c == '\u{2028}' || c == '\u{2029}' || c == '\u{202F}'
        || c == '\u{205F}' || c == '\u{3000}'
}

/// Replace every literal space with the three characters `%20`, leaving all
/// other characters (including other whitespace) untouched.
pub open spec fn encode_spaces(s: Seq<char>) -> Seq<char>
    decreases s.len(),
{
    if s.len() == 0 {
        Seq::empty()
    } else if s[0] == ' ' {
        seq!['%', '2', '0'] + encode_spaces(s.skip(1))
    } else {
        seq![s[0]] + encode_spaces(s.skip(1))
    }
}

proof fn lemma_encode_spaces_push(s: Seq<char>, c: char)
    ensures
        encode_spaces(s.push(c)) == encode_spaces(s) + (if c == ' ' {
            seq!['%', '2', '0']
        } else {
            seq![c]
        }),
    decreases s.len(),
{
    let tail: Seq<char> = if c == ' ' {
        seq!['%', '2', '0']
    } else {
        seq![c]
    };
    assert(s.push(c).len() == s.len() + 1);
    if s.len() == 0 {
        assert(s.push(c)[0] == c);
        assert(s.push(c).skip(1) =~= Seq::<char>::empty());
        assert(encode_spaces(Seq::<char>::empty()) == Seq::<char>::empty());
        assert(encode_spaces(s.push(c)) == tail + Seq::<char>::empty());
        assert(encode_spaces(s.push(c)) =~= encode_spaces(s) + tail);
    } else {
        assert(s.push(c)[0] == s[0]);
        assert(s.push(c).skip(1) =~= s.skip(1).push(c));
        lemma_encode_spaces_push(s.skip(1), c);
        assert(encode_spaces(s.push(c)) =~= encode_spaces(s) + tail);
    }
}

/// Remove the longest whitespace prefix and suffix.
pub open spec fn trim_spec(s: Seq<char>) -> Seq<char>
    decreases s.len(),
{
    if s.len() == 0 {
        s
    } else if is_space_like(s[0]) {
        trim_spec(s.skip(1))
    } else if is_space_like(s.last()) {
        trim_spec(s.drop_last())
    } else {
        s
    }
}

proof fn lemma_trim_all_space(s: Seq<char>)
    requires
        forall|j: int| 0 <= j < s.len() ==> is_space_like(s[j]),
    ensures
        trim_spec(s) == Seq::<char>::empty(),
    decreases s.len(),
{
    if s.len() == 0 {
        assert(trim_spec(s) =~= Seq::<char>::empty());
    } else {
        lemma_trim_all_space(s.skip(1));
    }
}

proof fn lemma_trim_subrange(s: Seq<char>, a: int, b: int)
    requires
        0 <= a <= b <= s.len(),
        forall|j: int| 0 <= j < a ==> is_space_like(s[j]),
        forall|j: int| b <= j < s.len() ==> is_space_like(s[j]),
        a < b ==> !is_space_like(s[a]) && !is_space_like(s[b - 1]),
    ensures
        trim_spec(s) == s.subrange(a, b),
    decreases s.len(),
{
    if a == b {
        assert(forall|j: int| 0 <= j < s.len() ==> is_space_like(s[j]));
        lemma_trim_all_space(s);
        assert(s.subrange(a, b) =~= Seq::<char>::empty());
    } else if is_space_like(s[0]) {
        // the first character is trimmed; a cannot be 0 here
        lemma_trim_subrange(s.skip(1), a - 1, b - 1);
        assert(s.skip(1).subrange(a - 1, b - 1) =~= s.subrange(a, b));
    } else if is_space_like(s.last()) {
        // the last character is trimmed; b cannot be s.len() here
        lemma_trim_subrange(s.drop_last(), a, b);
        assert(s.drop_last().subrange(a, b) =~= s.subrange(a, b));
    } else {
        assert(a == 0);
        assert(b == s.len());
        assert(s.subrange(0, s.len() as int) =~= s);
    }
}

fn encode_spaces_exec(s: &str) -> (r: String)
    ensures
        r@ == encode_spaces(s@),
{
    let n = s.unicode_len();
    let mut out = String::new();
    let mut i: usize = 0;
    while i < n
        invariant
            n == s@.len(),
            i <= n,
            out@ == encode_spaces(s@.subrange(0, i as int)),
        decreases n - i,
    {
        let c = s.get_char(i);
        if c == ' ' {
            out.append("%20");
            proof {
                reveal_strlit("%20");
                assert("%20"@ =~= seq!['%', '2', '0']);
            }
        } else {
            let piece = s.substring_char(i, i + 1);
            proof {
                assert(piece@ =~= seq![s@[i as int]]);
            }
            out.append(piece);
        }
        proof {
            lemma_encode_spaces_push(s@.subrange(0, i as int), s@[i as int]);
            assert(s@.subrange(0, i as int + 1) =~= s@.subrange(0, i as int).push(s@[i as int]));
        }
        i = i + 1;
    }
    proof {
        assert(s@.subrange(0, n as int) =~= s@);
    }
    out
}

fn trim_exec<'a>(s: &'a str) -> (r: &'a str)
    ensures
        r@ == trim_spec(s@),
{
    let n = s.unicode_len();
    let mut a: usize = 0;
    while a < n && is_space_char(s.get_char(a))
        invariant
            n == s@.len(),
            a <= n,
            forall|j: int| 0 <= j < a ==> is_space_like(s@[j]),
        decreases n - a,
    {
        a = a + 1;
    }
    let mut b: usize = n;
    while b > a && is_space_char(s.get_char(b - 1))
        invariant
            n == s@.len(),
            a <= b <= n,
            forall|j: int| 0 <= j < a ==> is_space_like(s@[j]),
            a == n || !is_space_like(s@[a as int]),
            forall|j: int| b <= j < n ==> is_space_like(s@[j]),
        decreases b,
    {
        b = b - 1;
    }
    let r = s.substring_char(a, b);
    proof {
        lemma_trim_subrange(s@, a as int, b as int);
    }
    r
}

/// The URL of an `opensearch` request for the given (already encoded and
/// trimmed) term segment, asking for the single best match as JSON.
pub open spec fn search_url_of(term: Seq<char>) -> Seq<char> {
    "https://en.wikipedia.org/w/api.php?action=opensearch&search="@ + trim_spec(
        encode_spaces(term),
    ) + "&limit=1&namespace=0&format=json"@
}

/// The URL of a `query`/`extracts` request for the given title, interpolated
/// verbatim, asking for the introductory section only, as plain text.
pub open spec fn summary_url_of(title: Seq<char>) -> Seq<char> {
    "https://en.wikipedia.org/w/api.php?action=query&format=json&prop=extracts&titles="@ + title
        + "&formatversion=2&exintro=1&explaintext=1"@
}

/// Build the search request URL: spaces in `term` become `%20`, the encoded
/// segment is trimmed of surrounding whitespace, and the result is
/// interpolated into the `opensearch` template.
pub fn build_search_url(term: &str) -> (r: String)
    ensures
        r@ == search_url_of(term@),
{
    let encoded = encode_spaces_exec(term);
    let trimmed = trim_exec(encoded.as_str());
    let mut url = String::from_str(
        "https://en.wikipedia.org/w/api.php?action=opensearch&search=",
    );
    url.append(trimmed);
    url.append("&limit=1&namespace=0&format=json");
    url
}

/// Build the summary request URL for a page title, interpolated verbatim.
pub fn build_summary_url(title: &str) -> (r: String)
    ensures
        r@ == summary_url_of(title@),
{
    let mut url = String::from_str(
        "https://en.wikipedia.org/w/api.php?action=query&format=json&prop=extracts&titles=",
    );
    url.append(title);
    url.append("&formatversion=2&exintro=1&explaintext=1");
    url
}

proof fn lemma_encode_spaces_no_space(term: Seq<char>)
    ensures
        forall|i: int|
            0 <= i < encode_spaces(term).len() ==> encode_spaces(term)[i] != ' ',
    decreases term.len(),
{
    if term.len() > 0 {
        lemma_encode_spaces_no_space(term.skip(1));
        let head: Seq<char> = if term[0] == ' ' {
            seq!['%', '2', '0']
        } else {
            seq![term[0]]
        };
        assert(encode_spaces(term) == head + encode_spaces(term.skip(1)));
        assert forall|i: int|
            0 <= i < encode_spaces(term).len() implies encode_spaces(term)[i] != ' ' by {
            if i < head.len() {
                assert(encode_spaces(term)[i] == head[i]);
            } else {
                assert(encode_spaces(term)[i] == encode_spaces(term.skip(1))[i - head.len()]);
            }
        }
    }
}

proof fn lemma_trim_keeps_no_space(s: Seq<char>)
    requires
        forall|i: int| 0 <= i < s.len() ==> s[i] != ' ',
    ensures
        forall|i: int| 0 <= i < trim_spec(s).len() ==> trim_spec(s)[i] != ' ',
    decreases s.len(),
{
    if s.len() == 0 {
    } else if is_space_like(s[0]) {
        assert(forall|i: int| 0 <= i < s.skip(1).len() ==> s.skip(1)[i] == s[i + 1]);
        lemma_trim_keeps_no_space(s.skip(1));
        assert(trim_spec(s) == trim_spec(s.skip(1)));
    } else if is_space_like(s.last()) {
        assert(forall|i: int| 0 <= i < s.drop_last().len() ==> s.drop_last()[i] == s[i]);
        lemma_trim_keeps_no_space(s.drop_last());
        assert(trim_spec(s) == trim_spec(s.drop_last()));
    }
}

/// Law: spaces in a search term are encoded before transmission — the term
/// segment interpolated into a search URL never contains a literal space.
pub proof fn law_search_term_segment_has_no_space(term: Seq<char>)
    ensures
        forall|i: int|
            0 <= i < trim_spec(encode_spaces(term)).len() ==> trim_spec(encode_spaces(term))[i]
                != ' ',
{
    lemma_encode_spaces_no_space(term);
    lemma_trim_keeps_no_space(encode_spaces(term));
}

} // verus!
