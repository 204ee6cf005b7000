use vstd::prelude::*;
use vstd::utf8::{encode_utf8, is_char_boundary};
use crate::text::{
    byte_prefix, chars_eq, chars_of, utf8_prefix, decimal, is_whitespace, is_ws, push_decimal, push_str, slice_chars, str_eq,
    string_from_chars, to_string, trim, trim_bounds, utf8_len, utf8_len_of,
};

verus! {

pub const MIN_CONTENT_LENGTH: usize = 10;
pub const MAX_CONTENT_LENGTH: usize = 10000;
pub const MIN_WORDS: usize = 3;
pub const DUPLICATE_CHECK_PREFIX_LEN: usize = 100;

/// The number of junk patterns.
pub const JUNK_PATTERN_COUNT: usize = 12;

/// `str::to_lowercase`: the Unicode lowercase mapping of `s`.
pub uninterp spec fn unicode_lowercase(s: Seq<char>) -> Seq<char>;

/// A character's ASCII lowercase: `A` to `Z` become `a` to `z`.
pub open spec fn ascii_lower(c: char) -> char {
    if 'A' <= c <= 'Z' {
        ((c as u32) + 32) as char
    } else {
        c
    }
}

/// `str::to_lowercase` on a string slice; on ASCII text each letter is
/// lowercased and nothing else changes.
#[verifier::external_body]
fn lowercase(s: &str) -> (r: String)
    ensures
        r@ == unicode_lowercase(s@),
        (forall|i: int| 0 <= i < s@.len() ==> (s@[i] as u32) < 128) ==> r@ == s@.map_values(
            |c: char| ascii_lower(c),
        ),
{
    s.to_lowercase()
}

/// The `k`-th junk pattern.
pub open spec fn junk_spec(k: int) -> Seq<char> {
    if k == 0 {
        "test test"@
    } else if k == 1 {
        "lorem ipsum"@
    } else if k == 2 {
        "asdf"@
    } else if k == 3 {
        "qwer"@
    } else if k == 4 {
        "12345"@
    } else if k == 5 {
        "null"@
    } else if k == 6 {
        "undefined"@
    } else if k == 7 {
        "none"@
    } else if k == 8 {
        "todo"@
    } else if k == 9 {
        "fixme"@
    } else if k == 10 {
        "hack"@
    } else {
        "placeholder"@
    }
}

fn junk_pattern(k: usize) -> (r: &'static str)
    requires
        k < JUNK_PATTERN_COUNT,
    ensures
        r@ == junk_spec(k as int),
{
    match k {
        0 => "test test",
        1 => "lorem ipsum",
        2 => "asdf",
        3 => "qwer",
        4 => "12345",
        5 => "null",
        6 => "undefined",
        7 => "none",
        8 => "todo",
        9 => "fixme",
        10 => "hack",
        _ => "placeholder",
    }
}

/// The first junk pattern at index `k` or later equal to `lower`.
pub open spec fn first_junk_from(lower: Seq<char>, k: int) -> Option<Seq<char>>
    decreases JUNK_PATTERN_COUNT - k,
{
    if k < 0 || k >= JUNK_PATTERN_COUNT {
        None
    } else if lower == junk_spec(k) {
        Some(junk_spec(k))
    } else {
        first_junk_from(lower, k + 1)
    }
}

/// Whether position `i` of `t` starts a word (a maximal run of non-whitespace).
pub open spec fn word_start(t: Seq<char>, i: int) -> bool {
    0 <= i < t.len() && !is_ws(t[i]) && (i == 0 || is_ws(t[i - 1]))
}

/// The number of words that start before position `n`.
pub open spec fn words_before(t: Seq<char>, n: int) -> nat
    decreases n,
{
    if n <= 0 {
        0
    } else {
        words_before(t, n - 1) + if word_start(t, n - 1) {
            1nat
        } else {
            0nat
        }
    }
}

/// The number of words of `t` (`str::split_whitespace().count()`).
pub open spec fn word_count(t: Seq<char>) -> nat {
    words_before(t, t.len() as int)
}

/// Every character of `t` is an ASCII digit or whitespace.
pub open spec fn only_digits(t: Seq<char>) -> bool {
    forall|i: int| 0 <= i < t.len() ==> ('0' <= #[trigger] t[i] <= '9' || is_ws(t[i]))
}

/// At most two distinct characters occur outside whitespace.
pub open spec fn low_diversity(t: Seq<char>) -> bool {
    exists|a: char, b: char| #[trigger] covered_by(t, a, b)
}

/// Every non-whitespace character of `t` is `a` or `b`.
pub open spec fn covered_by(t: Seq<char>, a: char, b: char) -> bool {
    forall|i: int| 0 <= i < t.len() && !is_ws(#[trigger] t[i]) ==> t[i] == a || t[i] == b
}

/// Why a memory's content is rejected, if it is.
pub open spec fn content_rejection(content: Seq<char>) -> Option<Seq<char>> {
    let t = trim(content);
    let len = utf8_len(t);
    if len < MIN_CONTENT_LENGTH {
        Some(
            "content too short: "@ + decimal(len) + " chars (min "@ + decimal(
                MIN_CONTENT_LENGTH as nat,
            ) + ")"@,
        )
    } else if len > MAX_CONTENT_LENGTH {
        Some(
            "content too long: "@ + decimal(len) + " chars (max "@ + decimal(
                MAX_CONTENT_LENGTH as nat,
            ) + ")"@,
        )
    } else if word_count(t) < MIN_WORDS {
        Some(
            "too few words: "@ + decimal(word_count(t)) + " (min "@ + decimal(MIN_WORDS as nat)
                + ")"@,
        )
    } else if first_junk_from(unicode_lowercase(t), 0) is Some {
        Some(
            "junk content matched pattern: '"@ + first_junk_from(unicode_lowercase(t), 0)->0
                + "'"@,
        )
    } else if only_digits(t) {
        Some("content is only digits"@)
    } else if low_diversity(t) && len > 20 {
        Some("content has very low character diversity"@)
    } else {
        None
    }
}

/// The outcome of the content filter.
#[derive(Debug, Clone)]
pub struct HeuristicResult {
    pub passed: bool,
    pub reason: Option<String>,
}

fn count_words(v: &Vec<char>, lo: usize, hi: usize) -> (r: usize)
    requires
        lo <= hi <= v@.len(),
    ensures
        r == word_count(v@.subrange(lo as int, hi as int)),
{
    let ghost t = v@.subrange(lo as int, hi as int);
    let mut count: usize = 0;
    let mut i: usize = lo;
    while i < hi
        invariant
            lo <= i <= hi <= v@.len(),
            t == v@.subrange(lo as int, hi as int),
            count == words_before(t, i - lo),
            count <= i - lo,
        decreases hi - i,
    {
        let starts = !is_whitespace(v[i]) && (i == lo || is_whitespace(v[i - 1]));
        assert(t[i - lo] == v@[i as int]);
        assert(i > lo ==> t[i - lo - 1] == v@[i - 1]);
        assert(starts == word_start(t, i - lo));
        if starts {
            count += 1;
        }
        i += 1;
    }
    count
}

fn all_digits_or_ws(v: &Vec<char>, lo: usize, hi: usize) -> (r: bool)
    requires
        lo <= hi <= v@.len(),
    ensures
        r == only_digits(v@.subrange(lo as int, hi as int)),
{
    let ghost t = v@.subrange(lo as int, hi as int);
    let mut i: usize = lo;
    while i < hi
        invariant
            lo <= i <= hi <= v@.len(),
            t == v@.subrange(lo as int, hi as int),
            forall|k: int| 0 <= k < i - lo ==> ('0' <= #[trigger] t[k] <= '9' || is_ws(t[k])),
        decreases hi - i,
    {
        let c = v[i];
        assert(t[i - lo] == c);
        if !(('0' <= c && c <= '9') || is_whitespace(c)) {
            return false;
        }
        i += 1;
    }
    true
}

fn has_low_diversity(v: &Vec<char>, lo: usize, hi: usize) -> (r: bool)
    requires
        lo <= hi <= v@.len(),
    ensures
        r == low_diversity(v@.subrange(lo as int, hi as int)),
{
    let ghost t = v@.subrange(lo as int, hi as int);
    let mut first: Option<char> = None;
    let mut second: Option<char> = None;
    let ghost mut ia: int = 0;
    let ghost mut ib: int = 0;
    let mut i: usize = lo;
    while i < hi
        invariant
            lo <= i <= hi <= v@.len(),
            t == v@.subrange(lo as int, hi as int),
            second is Some ==> first is Some,
            first matches Some(a) ==> 0 <= ia < i - lo && t[ia] == a && !is_ws(t[ia]),
            second matches Some(b) ==> 0 <= ib < i - lo && t[ib] == b && !is_ws(t[ib]) && (
            first matches Some(a) && a != b),
            forall|k: int|
                0 <= k < i - lo && !is_ws(#[trigger] t[k]) ==> (first matches Some(a) && t[k]
                    == a) || (second matches Some(b) && t[k] == b),
        decreases hi - i,
    {
        let c = v[i];
        assert(t[i - lo] == c);
        if !is_whitespace(c) {
            match first {
                None => {
                    first = Some(c);
                    proof {
                        ia = i - lo;
                    }
                },
                Some(a) => {
                    if c != a {
                        match second {
                            None => {
                                second = Some(c);
                                proof {
                                    ib = i - lo;
                                }
                            },
                            Some(b) => {
                                if c != b {
                                    proof {
                                        let ic = i - lo;
                                        assert forall|x: char, y: char|
                                            !#[trigger] covered_by(t, x, y) by {
                                            if t[ia] != x && t[ia] != y {
                                            } else if t[ib] != x && t[ib] != y {
                                            } else {
                                                assert(t[ic] != x && t[ic] != y);
                                            }
                                        }
                                    }
                                    return false;
                                }
                            },
                        }
                    }
                },
            }
        }
        i += 1;
    }
    proof {
        let x = match first {
            Some(a) => a,
            None => ' ',
        };
        let y = match second {
            Some(b) => b,
            None => x,
        };
        assert(covered_by(t, x, y));
    }
    true
}

fn push_size_message(s: &mut String, head: &str, n: usize, mid: &str, limit: usize)
    ensures
        final(s)@ == old(s)@ + head@ + decimal(n as nat) + mid@ + decimal(limit as nat) + ")"@,
{
    push_str(s, head);
    push_decimal(s, n as u64);
    push_str(s, mid);
    push_decimal(s, limit as u64);
    push_str(s, ")");
}

/// Filters out memory content that is too short, too long, too sparse, junk,
/// digits only, or made of at most two distinct characters.
#[verifier::loop_isolation(false)]
pub fn check_content(content: &str) -> (r: HeuristicResult)
    ensures
        r.passed <==> content_rejection(content@) is None,
        r.passed ==> r.reason is None,
        !r.passed ==> (r.reason matches Some(m) && m@ == content_rejection(content@)->0),
{
    let v = chars_of(content);
    let total = content.as_bytes().len();
    assert(total == utf8_len(v@));
    let (lo, hi) = trim_bounds(&v);
    let ghost t = v@.subrange(lo as int, hi as int);
    assert(t == trim(content@));
    let len = utf8_len_of(&v, lo, hi);
    proof {
        reveal_strlit("content too short: ");
        reveal_strlit(" chars (min ");
        reveal_strlit(")");
    }
    if len < MIN_CONTENT_LENGTH {
        let mut m = String::new();
        push_size_message(&mut m, "content too short: ", len, " chars (min ", MIN_CONTENT_LENGTH);
        assert(m@ =~= content_rejection(content@)->0);
        return HeuristicResult { passed: false, reason: Some(m) };
    }
    if len > MAX_CONTENT_LENGTH {
        let mut m = String::new();
        push_size_message(&mut m, "content too long: ", len, " chars (max ", MAX_CONTENT_LENGTH);
        assert(m@ =~= content_rejection(content@)->0);
        return HeuristicResult { passed: false, reason: Some(m) };
    }
    let words = count_words(&v, lo, hi);
    if words < MIN_WORDS {
        let mut m = String::new();
        push_size_message(&mut m, "too few words: ", words, " (min ", MIN_WORDS);
        assert(m@ =~= content_rejection(content@)->0);
        return HeuristicResult { passed: false, reason: Some(m) };
    }
    let trimmed = string_from_chars(&slice_chars(&v, lo, hi));
    let lower = lowercase(trimmed.as_str());
    let mut k: usize = 0;
    while k < JUNK_PATTERN_COUNT
        invariant
            k <= JUNK_PATTERN_COUNT,
            lower@ == unicode_lowercase(t),
            t == trim(content@),
            first_junk_from(lower@, 0) == first_junk_from(lower@, k as int),
        decreases JUNK_PATTERN_COUNT - k,
    {
        let pattern = junk_pattern(k);
        if str_eq(lower.as_str(), pattern) {
            let mut m = String::new();
            push_str(&mut m, "junk content matched pattern: '");
            push_str(&mut m, pattern);
            push_str(&mut m, "'");
            assert(lower@ == junk_spec(k as int));
            assert(first_junk_from(lower@, k as int) == Some(junk_spec(k as int)));
            assert(first_junk_from(unicode_lowercase(trim(content@)), 0) == Some(junk_spec(k as int)));
            assert(m@ =~= content_rejection(content@)->0);
            return HeuristicResult { passed: false, reason: Some(m) };
        }
        k += 1;
    }
    if all_digits_or_ws(&v, lo, hi) {
        return HeuristicResult { passed: false, reason: Some(to_string("content is only digits")) };
    }
    if has_low_diversity(&v, lo, hi) && len > 20 {
        return HeuristicResult {
            passed: false,
            reason: Some(to_string("content has very low character diversity")),
        };
    }
    HeuristicResult { passed: true, reason: None }
}


/// Whether a memory layer is scoped to a project.
pub open spec fn project_layer(layer: Seq<char>) -> bool {
    layer == "project"@ || layer == "episodic"@ || layer == "working"@
}

/// The error for a layer and project scope that do not fit, if they do not.
pub open spec fn layer_scope_error(layer: Seq<char>, project_id: Option<i64>) -> Option<Seq<char>> {
    if layer == "global_profile"@ {
        if project_id is Some {
            Some("global_profile layer must have project_id = NULL"@)
        } else {
            None
        }
    } else if project_layer(layer) {
        if project_id is None {
            Some(layer + " layer requires project_id"@)
        } else {
            None
        }
    } else {
        Some("invalid layer: "@ + layer)
    }
}

/// Checks that a memory layer matches its project scope: `global_profile` has
/// no project, `project`, `episodic` and `working` have one.
pub fn validate_layer_for_project(layer: &str, project_id: Option<i64>) -> (r: Result<(), String>)
    ensures
        r is Ok <==> layer_scope_error(layer@, project_id) is None,
        r matches Err(m) ==> m@ == layer_scope_error(layer@, project_id)->0,
{
    if str_eq(layer, "global_profile") {
        if project_id.is_some() {
            Err(to_string("global_profile layer must have project_id = NULL"))
        } else {
            Ok(())
        }
    } else if str_eq(layer, "project") || str_eq(layer, "episodic") || str_eq(layer, "working") {
        if project_id.is_none() {
            let mut m = to_string(layer);
            push_str(&mut m, " layer requires project_id");
            Err(m)
        } else {
            Ok(())
        }
    } else {
        let mut m = to_string("invalid layer: ");
        push_str(&mut m, layer);
        Err(m)
    }
}

/// Splitting `t` at whitespace, up to position `n`: the words completed so
/// far and the word in progress.
pub open spec fn split_words(t: Seq<char>, n: int) -> (Seq<Seq<char>>, Seq<char>)
    decreases n,
{
    if n <= 0 {
        (Seq::empty(), Seq::empty())
    } else {
        let prev = split_words(t, n - 1);
        if is_ws(t[n - 1]) {
            if prev.1.len() > 0 {
                (prev.0.push(prev.1), Seq::empty())
            } else {
                prev
            }
        } else {
            (prev.0, prev.1.push(t[n - 1]))
        }
    }
}

/// The words of `t`, in order (`str::split_whitespace`).
pub open spec fn words_of(t: Seq<char>) -> Seq<Seq<char>> {
    let last = split_words(t, t.len() as int);
    if last.1.len() > 0 {
        last.0.push(last.1)
    } else {
        last.0
    }
}

/// The distinct words of `t`.
pub open spec fn word_set(t: Seq<char>) -> Set<Seq<char>> {
    words_of(t).to_set()
}

/// The number of distinct words two texts share.
pub open spec fn shared_words(a: Seq<char>, b: Seq<char>) -> nat {
    word_set(a).intersect(word_set(b)).len()
}

/// The number of distinct words of two texts together.
pub open spec fn distinct_words(a: Seq<char>, b: Seq<char>) -> nat {
    word_set(a).union(word_set(b)).len()
}

/// Whether the Jaccard similarity of two texts' word sets, shared over
/// distinct words, is above 0.8.
pub open spec fn near_duplicate(a: Seq<char>, b: Seq<char>) -> bool {
    5 * shared_words(a, b) > 4 * distinct_words(a, b)
}

/// The texts of a list of words.
pub open spec fn word_views(ws: Seq<Vec<char>>) -> Seq<Seq<char>> {
    ws.map_values(|w: Vec<char>| w@)
}

/// The words of `v`, in order.
fn split_whitespace_words(v: &Vec<char>) -> (r: Vec<Vec<char>>)
    ensures
        word_views(r@) == words_of(v@),
        r@.len() <= v@.len(),
{
    let mut done: Vec<Vec<char>> = Vec::new();
    let mut cur: Vec<char> = Vec::new();
    let mut i: usize = 0;
    while i < v.len()
        invariant
            i <= v@.len(),
            word_views(done@) == split_words(v@, i as int).0,
            cur@ == split_words(v@, i as int).1,
            done@.len() + cur@.len() <= i,
        decreases v@.len() - i,
    {
        let c = v[i];
        if is_whitespace(c) {
            if cur.len() > 0 {
                let ghost before = done@;
                let ghost w = cur@;
                done.push(cur);
                cur = Vec::new();
                assert(word_views(done@) =~= word_views(before).push(w));
            }
        } else {
            cur.push(c);
        }
        i += 1;
    }
    if cur.len() > 0 {
        let ghost before = done@;
        let ghost w = cur@;
        done.push(cur);
        assert(word_views(done@) =~= word_views(before).push(w));
    }
    done
}

/// Whether `w` is one of the words `d`.
fn word_in(d: &Vec<Vec<char>>, w: &Vec<char>) -> (r: bool)
    ensures
        r == word_views(d@).contains(w@),
{
    let mut i: usize = 0;
    while i < d.len()
        invariant
            i <= d@.len(),
            forall|k: int| 0 <= k < i ==> word_views(d@)[k] != w@,
        decreases d@.len() - i,
    {
        if chars_eq(&d[i], w) {
            assert(word_views(d@)[i as int] == w@);
            return true;
        }
        i += 1;
    }
    false
}

/// The words of `ws` without repeats, in the order they first occur.
fn distinct_list(ws: &Vec<Vec<char>>) -> (d: Vec<Vec<char>>)
    ensures
        word_views(d@).no_duplicates(),
        word_views(d@).to_set() == word_views(ws@).to_set(),
        d@.len() <= ws@.len(),
{
    let mut d: Vec<Vec<char>> = Vec::new();
    let mut i: usize = 0;
    while i < ws.len()
        invariant
            i <= ws@.len(),
            d@.len() <= i,
            word_views(d@).no_duplicates(),
            word_views(d@).to_set() == word_views(ws@).take(i as int).to_set(),
        decreases ws@.len() - i,
    {
        let w = &ws[i];
        proof {
            assert(word_views(ws@).take(i + 1) =~= word_views(ws@).take(i as int).push(w@));
            word_views(ws@).take(i as int).lemma_push_to_set_commute(w@);
        }
        if !word_in(&d, w) {
            let ghost before = d@;
            d.push(vstd::slice::slice_to_vec(w.as_slice()));
            proof {
                assert(word_views(d@) =~= word_views(before).push(w@));
                word_views(before).lemma_push_to_set_commute(w@);
            }
        } else {
            assert(word_views(d@).to_set().insert(w@) =~= word_views(d@).to_set());
        }
        i += 1;
    }
    assert(word_views(ws@).take(ws@.len() as int) =~= word_views(ws@));
    d
}

/// The number of words of `da` that are among the words of `db`.
fn count_shared(da: &Vec<Vec<char>>, db: &Vec<Vec<char>>) -> (n: usize)
    requires
        word_views(da@).no_duplicates(),
    ensures
        n == word_views(da@).to_set().intersect(word_views(db@).to_set()).len(),
        n <= da@.len(),
{
    let ghost bs = word_views(db@).to_set();
    let mut n: usize = 0;
    let mut i: usize = 0;
    proof {
        assert(word_views(da@).take(0).to_set().intersect(bs) =~= Set::empty());
    }
    while i < da.len()
        invariant
            i <= da@.len(),
            n <= i,
            word_views(da@).no_duplicates(),
            bs == word_views(db@).to_set(),
            n == word_views(da@).take(i as int).to_set().intersect(bs).len(),
        decreases da@.len() - i,
    {
        let ghost prefix = word_views(da@).take(i as int);
        let ghost x = word_views(da@)[i as int];
        proof {
            assert(word_views(da@).take(i + 1) =~= prefix.push(x));
            prefix.lemma_push_to_set_commute(x);
            vstd::seq_lib::seq_to_set_is_finite(prefix);
            assert(!prefix.to_set().contains(x)) by {
                if prefix.to_set().contains(x) {
                    let k = choose|k: int| 0 <= k < prefix.len() && prefix[k] == x;
                    assert(word_views(da@)[k] == word_views(da@)[i as int]);
                }
            }
        }
        if word_in(db, &da[i]) {
            proof {
                assert(prefix.to_set().insert(x).intersect(bs) =~= prefix.to_set().intersect(
                    bs,
                ).insert(x));
            }
            n += 1;
        } else {
            proof {
                assert(prefix.to_set().insert(x).intersect(bs) =~= prefix.to_set().intersect(bs));
            }
        }
        i += 1;
    }
    assert(word_views(da@).take(da@.len() as int) =~= word_views(da@));
    n
}

/// The text by which two memories of a batch are first matched: the first
/// `DUPLICATE_CHECK_PREFIX_LEN` bytes, lowercased.
pub open spec fn duplicate_key(t: Seq<char>) -> Seq<char> {
    unicode_lowercase(
        if utf8_len(t) > DUPLICATE_CHECK_PREFIX_LEN {
            utf8_prefix(t, DUPLICATE_CHECK_PREFIX_LEN as int)
        } else {
            t
        },
    )
}

/// The key of `t` can be cut out: when `t` is longer than the key, the cut
/// falls on a character boundary.
pub open spec fn key_cuttable(t: Seq<char>) -> bool {
    utf8_len(t) > DUPLICATE_CHECK_PREFIX_LEN ==> is_char_boundary(
        encode_utf8(t),
        DUPLICATE_CHECK_PREFIX_LEN as int,
    )
}

fn duplicate_key_of(s: &str) -> (r: String)
    requires
        key_cuttable(s@),
    ensures
        r@ == duplicate_key(s@),
{
    let cut = if s.as_bytes().len() > DUPLICATE_CHECK_PREFIX_LEN {
        byte_prefix(s, DUPLICATE_CHECK_PREFIX_LEN)
    } else {
        s
    };
    lowercase(cut)
}

/// Two memories of a batch that look alike: their positions, the number of
/// distinct words they share and the number of distinct words they have
/// together; their similarity is the first count over the second.
#[derive(Debug, Clone, Copy, PartialEq, Eq, Structural)]
pub struct SimilarPair {
    pub first: usize,
    pub second: usize,
    pub shared_words: usize,
    pub distinct_words: usize,
}

/// The texts of a list of string slices.
pub open spec fn str_views(s: Seq<&str>) -> Seq<Seq<char>> {
    s.map_values(|x: &str| x@)
}

/// Whether texts `i` and `j` of a batch are near duplicates: same key and
/// word similarity above 0.8.
pub open spec fn pair_found(c: Seq<Seq<char>>, i: int, j: int) -> bool {
    duplicate_key(c[i]) == duplicate_key(c[j]) && near_duplicate(c[i], c[j])
}

/// The pair reported for texts `i` and `j`.
pub open spec fn pair_of(c: Seq<Seq<char>>, i: int, j: int) -> SimilarPair {
    SimilarPair {
        first: i as usize,
        second: j as usize,
        shared_words: shared_words(c[i], c[j]) as usize,
        distinct_words: distinct_words(c[i], c[j]) as usize,
    }
}

/// The pairs `(i, k)` found for `i < k < j`, by increasing `k`.
pub open spec fn row_pairs(c: Seq<Seq<char>>, i: int, j: int) -> Seq<SimilarPair>
    decreases j - i,
{
    if j <= i + 1 {
        Seq::empty()
    } else {
        row_pairs(c, i, j - 1) + if pair_found(c, i, j - 1) {
            seq![pair_of(c, i, j - 1)]
        } else {
            Seq::empty()
        }
    }
}

/// The pairs found whose first text comes before `n`, in order.
pub open spec fn similar_pairs(c: Seq<Seq<char>>, n: int) -> Seq<SimilarPair>
    decreases n,
{
    if n <= 0 {
        Seq::empty()
    } else {
        similar_pairs(c, n - 1) + row_pairs(c, n - 1, c.len() as int)
    }
}

/// The pairs of near-duplicate memories in a batch: texts whose first
/// `DUPLICATE_CHECK_PREFIX_LEN` bytes match, ignoring case, and whose word
/// sets have a Jaccard similarity above 0.8; pairs come in order of their
/// first, then their second position. Every text is of a size a string can
/// have, and its first bytes can be cut at a character boundary.
pub fn find_similar_in_batch(contents: &[&str]) -> (r: Vec<SimilarPair>)
    requires
        forall|k: int| 0 <= k < contents@.len() ==> key_cuttable(#[trigger] contents@[k]@),
        forall|k: int| 0 <= k < contents@.len() ==> (#[trigger] contents@[k]@).len() <= isize::MAX,
    ensures
        r@ == similar_pairs(str_views(contents@), contents@.len() as int),
{
    let ghost c = str_views(contents@);
    let n = contents.len();
    let mut keys: Vec<String> = Vec::new();
    let mut sets: Vec<Vec<Vec<char>>> = Vec::new();
    let mut k: usize = 0;
    while k < n
        invariant
            n == contents@.len(),
            c == str_views(contents@),
            k <= n,
            keys@.len() == k,
            sets@.len() == k,
            forall|m: int| 0 <= m < contents@.len() ==> key_cuttable(#[trigger] contents@[m]@),
            forall|m: int| 0 <= m < k ==> (#[trigger] keys@[m])@ == duplicate_key(c[m]),
            forall|m: int|
                0 <= m < k ==> {
                    &&& word_views((#[trigger] sets@[m])@).no_duplicates()
                    &&& word_views(sets@[m]@).to_set() == word_set(c[m])
                    &&& sets@[m]@.len() <= c[m].len()
                },
        decreases n - k,
    {
        let text: &str = contents[k];
        let v = chars_of(text);
        let ws = split_whitespace_words(&v);
        let d = distinct_list(&ws);
        keys.push(duplicate_key_of(text));
        sets.push(d);
        k += 1;
    }
    let mut out: Vec<SimilarPair> = Vec::new();
    let mut i: usize = 0;
    while i < n
        invariant
            n == contents@.len(),
            c == str_views(contents@),
            c.len() == n,
            i <= n,
            keys@.len() == n,
            sets@.len() == n,
            forall|m: int| 0 <= m < n ==> (#[trigger] c[m]).len() <= isize::MAX,
            forall|m: int| 0 <= m < n ==> (#[trigger] keys@[m])@ == duplicate_key(c[m]),
            forall|m: int|
                0 <= m < n ==> {
                    &&& word_views((#[trigger] sets@[m])@).no_duplicates()
                    &&& word_views(sets@[m]@).to_set() == word_set(c[m])
                    &&& sets@[m]@.len() <= c[m].len()
                },
            out@ == similar_pairs(c, i as int),
        decreases n - i,
    {
        let mut j: usize = i + 1;
        while j < n
            invariant
                c.len() == n,
                i < n,
                i + 1 <= j <= n,
                keys@.len() == n,
                sets@.len() == n,
                forall|m: int| 0 <= m < n ==> (#[trigger] c[m]).len() <= isize::MAX,
                forall|m: int| 0 <= m < n ==> (#[trigger] keys@[m])@ == duplicate_key(c[m]),
                forall|m: int|
                    0 <= m < n ==> {
                        &&& word_views((#[trigger] sets@[m])@).no_duplicates()
                        &&& word_views(sets@[m]@).to_set() == word_set(c[m])
                        &&& sets@[m]@.len() <= c[m].len()
                    },
                out@ == similar_pairs(c, i as int) + row_pairs(c, i as int, j as int),
            decreases n - j,
        {
            let ghost before = out@;
            let ghost fa = word_set(c[i as int]);
            let ghost fb = word_set(c[j as int]);
            assert(keys@[i as int]@ == duplicate_key(c[i as int]));
            assert(keys@[j as int]@ == duplicate_key(c[j as int]));
            let same_key = str_eq(keys[i].as_str(), keys[j].as_str());
            let mut found = false;
            if same_key {
                let da = &sets[i];
                let db = &sets[j];
                assert(word_views(da@).to_set() == fa);
                assert(word_views(db@).to_set() == fb);
                let shared = count_shared(da, db);
                proof {
                    word_views(da@).unique_seq_to_set();
                    word_views(db@).unique_seq_to_set();
                    vstd::seq_lib::seq_to_set_is_finite(word_views(da@));
                    vstd::seq_lib::seq_to_set_is_finite(word_views(db@));
                    vstd::set_lib::lemma_set_intersect_union_lens(fa, fb);
                    assert(fa + fb =~= fa.union(fb));
                    assert(c[i as int].len() <= isize::MAX);
                    assert(c[j as int].len() <= isize::MAX);
                }
                let distinct: usize = da.len() - shared + db.len();
                let five_shared: u128 = shared as u128 * 5;
                let four_distinct: u128 = distinct as u128 * 4;
                if five_shared > four_distinct {
                    out.push(
                        SimilarPair {
                            first: i,
                            second: j,
                            shared_words: shared,
                            distinct_words: distinct,
                        },
                    );
                    found = true;
                }
            }
            proof {
                assert(found == pair_found(c, i as int, j as int));
                if found {
                    assert(out@ =~= before.push(pair_of(c, i as int, j as int)));
                } else {
                    assert(out@ =~= before);
                }
                assert(row_pairs(c, i as int, j + 1) == row_pairs(c, i as int, j as int) + if pair_found(
                    c,
                    i as int,
                    j as int,
                ) {
                    seq![pair_of(c, i as int, j as int)]
                } else {
                    Seq::empty()
                });
                assert(out@ =~= similar_pairs(c, i as int) + row_pairs(c, i as int, j + 1));
            }
            j += 1;
        }
        proof {
            assert(similar_pairs(c, i + 1) == similar_pairs(c, i as int) + row_pairs(
                c,
                i as int,
                n as int,
            ));
        }
        i += 1;
    }
    out
}

} // verus!
