//! Reading what the Windows 7-Zip prints while it unpacks the game: progress
//! percentages and the lines shown in the debug log.
use vstd::prelude::*;

use crate::text::{
    all_digits, char_is_digit, char_is_whitespace, chars_of, decimal_value, digit_value, first_non_ws,
    is_digit, is_whitespace, lemma_first_non_ws_range, push_str, string_of, string_views,
};

verus! {

// ---------------------------------------------------------------------------
// Percentages
// ---------------------------------------------------------------------------

/// Exclusive end of the last run of digits in `s[..end]`, if there is a digit.
pub open spec fn last_digit_end(s: Seq<char>, end: int) -> Option<int>
    decreases end,
{
    if end <= 0 {
        None
    } else if is_digit(s[end - 1]) {
        Some(end)
    } else {
        last_digit_end(s, end - 1)
    }
}

/// Start of the run of digits that ends (exclusively) at `e`.
pub open spec fn digit_run_start(s: Seq<char>, e: int) -> int
    decreases e,
{
    if e <= 0 {
        0
    } else if is_digit(s[e - 1]) {
        digit_run_start(s, e - 1)
    } else {
        e
    }
}

/// The percentage written just before a `%` sign: the last run of ASCII digits
/// in `s`, read as a number, when it is at most 100.
pub open spec fn percent_prefix(s: Seq<char>) -> Option<u8> {
    match last_digit_end(s, s.len() as int) {
        None => None,
        Some(e) => {
            let v = decimal_value(s.subrange(digit_run_start(s, e), e));
            if v <= 100 {
                Some(v as u8)
            } else {
                None
            }
        },
    }
}

/// The percentage of the last `%` sign in `s[..n]` that has a valid number
/// before it.
pub open spec fn last_percent(s: Seq<char>, n: int) -> Option<u8>
    decreases n,
{
    if n <= 0 {
        None
    } else if s[n - 1] == '%' && percent_prefix(s.take(n - 1)) is Some {
        percent_prefix(s.take(n - 1))
    } else {
        last_percent(s, n - 1)
    }
}

/// Bytes read one for one as the characters of the same code.  ASCII bytes
/// keep their meaning; every other byte becomes a character that is neither a
/// digit nor `%`.
pub open spec fn latin1(b: Seq<u8>) -> Seq<char> {
    b.map_values(|x: u8| x as char)
}

/// Saturating decimal value: the value, or 101 once it exceeds 100.
spec fn capped_value(d: Seq<char>) -> nat
    decreases d.len(),
{
    if d.len() == 0 {
        0
    } else {
        let v = capped_value(d.drop_last()) * 10 + digit_value(d.last());
        if v > 101 {
            101
        } else {
            v
        }
    }
}

proof fn lemma_capped_value(d: Seq<char>)
    requires
        all_digits(d),
    ensures
        capped_value(d) == (if decimal_value(d) > 101 { 101 } else { decimal_value(d) }),
    decreases d.len(),
{
    if d.len() > 0 {
        assert(all_digits(d.drop_last()));
        lemma_capped_value(d.drop_last());
        assert(is_digit(d[d.len() - 1]));
    }
}

proof fn lemma_digit_run(s: Seq<char>, e: int)
    requires
        0 <= e <= s.len(),
    ensures
        0 <= digit_run_start(s, e) <= e,
        all_digits(s.subrange(digit_run_start(s, e), e)),
        digit_run_start(s, e) > 0 ==> !is_digit(s[digit_run_start(s, e) - 1]),
    decreases e,
{
    if e > 0 && is_digit(s[e - 1]) {
        lemma_digit_run(s, e - 1);
        let b = digit_run_start(s, e);
        assert forall|i: int| 0 <= i < e - b implies is_digit(
            #[trigger] s.subrange(b, e)[i],
        ) by {
            if i < e - 1 - b {
                assert(s.subrange(b, e - 1)[i] == s.subrange(b, e)[i]);
            }
        }
    } else {
        assert(s.subrange(e, e).len() == 0);
    }
}

/// `percent_prefix` of `v[..end]`.
fn percent_prefix_of(v: &[char], end: usize) -> (r: Option<u8>)
    requires
        end <= v@.len(),
    ensures
        r == percent_prefix(v@.take(end as int)),
        r matches Some(p) ==> p <= 100,
{
    let ghost s = v@.take(end as int);
    // Find the end of the last run of digits.
    let mut e: usize = end;
    while e > 0 && !char_is_digit(v[e - 1])
        invariant
            e <= end <= v@.len(),
            s == v@.take(end as int),
            last_digit_end(s, e as int) == last_digit_end(s, end as int),
        decreases e,
    {
        e -= 1;
    }
    if e == 0 {
        return None;
    }
    assert(last_digit_end(s, end as int) == Some(e as int));
    // Find where that run starts.
    let mut b: usize = e;
    while b > 0 && char_is_digit(v[b - 1])
        invariant
            b <= e <= end <= v@.len(),
            s == v@.take(end as int),
            digit_run_start(s, b as int) == digit_run_start(s, e as int),
        decreases b,
    {
        b -= 1;
    }
    assert(digit_run_start(s, b as int) == b);
    proof {
        lemma_digit_run(s, e as int);
    }
    let ghost d = s.subrange(b as int, e as int);
    // Read the digits, saturating above 100.
    let mut acc: u32 = 0;
    let mut i: usize = b;
    while i < e
        invariant
            b <= i <= e <= end <= v@.len(),
            s == v@.take(end as int),
            d == s.subrange(b as int, e as int),
            all_digits(d),
            acc as nat == capped_value(d.take(i - b)),
            acc <= 101,
        decreases e - i,
    {
        let ghost k = (i - b) as int;
        assert(d.take(k + 1).drop_last() =~= d.take(k));
        assert(d[k] == v@[i as int]);
        assert(is_digit(d[k]));
        let dig: u32 = (v[i] as u32) - 48;
        let next = acc * 10 + dig;
        acc = if next > 101 {
            101
        } else {
            next
        };
        i += 1;
    }
    assert(d.take(e - b) =~= d);
    proof {
        lemma_capped_value(d);
    }
    if acc <= 100 {
        Some(acc as u8)
    } else {
        None
    }
}

/// The percentage written at the end of `value`: its last run of ASCII digits,
/// when that number is at most 100.
pub fn parse_percent_prefix(value: &str) -> (r: Option<u8>)
    ensures
        r == percent_prefix(value@),
        r matches Some(p) ==> p <= 100,
{
    let v = chars_of(value);
    assert(v@.take(v@.len() as int) =~= v@);
    percent_prefix_of(v.as_slice(), v.len())
}

/// The progress that a piece of 7-Zip output reports: among the `%` signs in
/// it, the last one that follows a number no larger than 100.
///
/// The output is matched byte by byte.  Reading it as lossy UTF-8 first, as a
/// text would be, gives the same answer: decoding keeps every ASCII byte as
/// the character it codes, and each undecodable or multi-byte stretch becomes
/// characters that are neither digits nor `%`.
pub fn parse_7z_percent(output: &[u8]) -> (r: Option<u8>)
    ensures
        r == last_percent(latin1(output@), output@.len() as int),
        r matches Some(p) ==> p <= 100,
{
    let ghost s = latin1(output@);
    let mut v: Vec<char> = Vec::new();
    let mut k: usize = 0;
    while k < output.len()
        invariant
            k <= output@.len(),
            s == latin1(output@),
            v@ == s.take(k as int),
        decreases output@.len() - k,
    {
        v.push(output[k] as char);
        k += 1;
        assert(v@ =~= s.take(k as int));
    }
    assert(v@ =~= s);
    let mut result: Option<u8> = None;
    let mut i: usize = 0;
    while i < v.len()
        invariant
            i <= v@.len(),
            v@ == s,
            result == last_percent(s, i as int),
            result matches Some(p) ==> p <= 100,
        decreases v@.len() - i,
    {
        if v[i] == '%' {
            let p = percent_prefix_of(v.as_slice(), i);
            if p.is_some() {
                result = p;
            }
        }
        i += 1;
    }
    result
}

} // verus!

verus! {

// ---------------------------------------------------------------------------
// Lines for the debug log
// ---------------------------------------------------------------------------

/// What `String::from_utf8_lossy` makes of `bytes`.
pub uninterp spec fn utf8_lossy(bytes: Seq<u8>) -> Seq<char>;

/// `String::from_utf8_lossy`.  Its result is named by `utf8_lossy`; the standard
/// library documents that valid UTF-8 comes back as the text it encodes (and
/// that invalid sequences become U+FFFD, which is not stated here).
#[verifier::external_body]
fn decode_lossy(bytes: &[u8]) -> (s: String)
    ensures
        s@ == utf8_lossy(bytes@),
        vstd::utf8::valid_utf8(bytes@) ==> s@ == vstd::utf8::decode_utf8(bytes@),
{
    String::from_utf8_lossy(bytes).into_owned()
}

/// `s` without its carriage returns.
pub open spec fn without_cr(s: Seq<char>) -> Seq<char>
    decreases s.len(),
{
    if s.len() == 0 {
        Seq::empty()
    } else if s.last() == '\r' {
        without_cr(s.drop_last())
    } else {
        without_cr(s.drop_last()).push(s.last())
    }
}

/// Index of the first whitespace character at or after `i` (or `s.len()`).
pub open spec fn word_end(s: Seq<char>, i: int) -> int
    decreases s.len() - i,
{
    if i >= s.len() || i < 0 {
        s.len() as int
    } else if is_whitespace(s[i]) {
        i
    } else {
        word_end(s, i + 1)
    }
}

pub proof fn lemma_word_end(s: Seq<char>, i: int)
    requires
        0 <= i <= s.len(),
    ensures
        i <= word_end(s, i) <= s.len(),
        word_end(s, i) < s.len() ==> is_whitespace(s[word_end(s, i)]),
        forall|j: int| i <= j < word_end(s, i) ==> !is_whitespace(#[trigger] s[j]),
    decreases s.len() - i,
{
    if i < s.len() && !is_whitespace(s[i]) {
        lemma_word_end(s, i + 1);
    }
}

/// The whitespace-separated words of `s[p..]` (what `split_whitespace` yields).
pub open spec fn words_from(s: Seq<char>, p: int) -> Seq<Seq<char>>
    decreases s.len() - p,
{
    if p < 0 || p >= s.len() {
        Seq::empty()
    } else {
        let b = first_non_ws(s, p);
        if b >= s.len() {
            Seq::empty()
        } else {
            proof {
                lemma_first_non_ws_range(s, p);
                lemma_word_end(s, b);
            }
            let e = word_end(s, b);
            seq![s.subrange(b, e)] + words_from(s, e)
        }
    }
}

/// `words` joined with single spaces.
pub open spec fn join_words(words: Seq<Seq<char>>) -> Seq<char>
    decreases words.len(),
{
    if words.len() == 0 {
        Seq::empty()
    } else if words.len() == 1 {
        words[0]
    } else {
        join_words(words.drop_last()) + seq![' '] + words.last()
    }
}

/// The words of a line of 7-Zip output: carriage returns are dropped (they
/// only move 7-Zip's cursor), then the text is split at whitespace.
pub open spec fn line_words(text: Seq<char>) -> Seq<Seq<char>> {
    words_from(without_cr(text), 0)
}

/// `text` tidied for the debug log: carriage returns dropped, every run of
/// whitespace (line feeds included) made a single space, none at either end;
/// `None` when nothing is left.
pub fn collapse_line(text: &str) -> (r: Option<String>)
    ensures
        r is None <==> line_words(text@).len() == 0,
        r matches Some(line) ==> line@ == join_words(line_words(text@)),
{
    let v = chars_of(text);
    let mut t: Vec<char> = Vec::new();
    let mut k: usize = 0;
    while k < v.len()
        invariant
            k <= v@.len(),
            v@ == text@,
            t@ == without_cr(v@.take(k as int)),
        decreases v@.len() - k,
    {
        assert(v@.take(k + 1).drop_last() =~= v@.take(k as int));
        if v[k] != '\r' {
            t.push(v[k]);
        }
        k += 1;
    }
    assert(v@.take(v@.len() as int) =~= v@);
    let ghost tw = t@;
    let mut out: Vec<char> = Vec::new();
    let ghost mut emitted: Seq<Seq<char>> = Seq::empty();
    let mut any = false;
    let mut p: usize = 0;
    let n = t.len();
    while p < n
        invariant
            p <= n == t@.len(),
            tw == t@,
            words_from(tw, 0) == emitted + words_from(tw, p as int),
            out@ == join_words(emitted),
            any == (emitted.len() > 0),
        ensures
            p == n,
            tw == t@,
            words_from(tw, 0) == emitted + words_from(tw, p as int),
            out@ == join_words(emitted),
            any == (emitted.len() > 0),
        decreases n - p,
    {
        let mut b: usize = p;
        while b < n && char_is_whitespace_at(&t, b)
            invariant
                p <= b <= n == t@.len(),
                first_non_ws(t@, b as int) == first_non_ws(t@, p as int),
            decreases n - b,
        {
            b += 1;
        }
        if b == n {
            assert(words_from(tw, p as int) =~= Seq::<Seq<char>>::empty());
            p = n;
            assert(words_from(tw, n as int) =~= Seq::<Seq<char>>::empty());
            break;
        }
        proof {
            lemma_first_non_ws_range(tw, p as int);
        }
        let mut e: usize = b;
        while e < n && !char_is_whitespace_at(&t, e)
            invariant
                b <= e <= n == t@.len(),
                word_end(t@, e as int) == word_end(t@, b as int),
            decreases n - e,
        {
            e += 1;
        }
        proof {
            lemma_word_end(tw, b as int);
        }
        let ghost w = tw.subrange(b as int, e as int);
        assert(words_from(tw, p as int) == seq![w] + words_from(tw, e as int));
        if any {
            out.push(' ');
        }
        let mut i: usize = b;
        let ghost before = out@;
        while i < e
            invariant
                b <= i <= e <= n == t@.len(),
                out@ == before + t@.subrange(b as int, i as int),
            decreases e - i,
        {
            out.push(t[i]);
            i += 1;
            assert(out@ =~= before + t@.subrange(b as int, i as int));
        }
        proof {
            let old_emitted = emitted;
            emitted = emitted.push(w);
            assert(emitted.drop_last() =~= old_emitted);
            assert(old_emitted + (seq![w] + words_from(tw, e as int)) =~= emitted + words_from(
                tw,
                e as int,
            ));
        }
        any = true;
        p = e;
    }
    if !any {
        assert(words_from(tw, n as int) =~= Seq::<Seq<char>>::empty());
        assert(words_from(tw, 0) =~= Seq::<Seq<char>>::empty());
        None
    } else {
        assert(words_from(tw, n as int) =~= Seq::<Seq<char>>::empty());
        assert(words_from(tw, 0) =~= emitted);
        Some(string_of(out.as_slice()))
    }
}

/// No whitespace in `s` but single spaces, each between two characters that
/// are not whitespace.
pub open spec fn single_spaced(s: Seq<char>) -> bool {
    forall|i: int|
        0 <= i < s.len() && #[trigger] is_whitespace(s[i]) ==> {
            &&& s[i] == ' '
            &&& 0 < i
            &&& i + 1 < s.len()
            &&& !is_whitespace(s[i - 1])
            &&& !is_whitespace(s[i + 1])
        }
}

/// A word: not empty, and without whitespace.
pub open spec fn is_word(w: Seq<char>) -> bool {
    w.len() > 0 && forall|j: int| 0 <= j < w.len() ==> !is_whitespace(#[trigger] w[j])
}

proof fn lemma_words_from_are_words(s: Seq<char>, p: int)
    ensures
        forall|k: int| 0 <= k < words_from(s, p).len() ==> is_word(#[trigger] words_from(s, p)[k]),
    decreases s.len() - p,
{
    if 0 <= p < s.len() {
        let b = first_non_ws(s, p);
        lemma_first_non_ws_range(s, p);
        if b < s.len() {
            lemma_word_end(s, b);
            let e = word_end(s, b);
            lemma_words_from_are_words(s, e);
            let w = s.subrange(b, e);
            assert(is_word(w)) by {
                assert forall|j: int| 0 <= j < w.len() implies !is_whitespace(#[trigger] w[j]) by {
                    assert(w[j] == s[b + j]);
                }
            }
            let rest = words_from(s, e);
            assert(words_from(s, p) == seq![w] + rest);
            assert forall|k: int| 0 <= k < words_from(s, p).len() implies is_word(
                #[trigger] words_from(s, p)[k],
            ) by {
                if k > 0 {
                    assert(words_from(s, p)[k] == rest[k - 1]);
                }
            }
        }
    }
}

proof fn lemma_join_single_spaced(words: Seq<Seq<char>>)
    requires
        forall|k: int| 0 <= k < words.len() ==> is_word(#[trigger] words[k]),
    ensures
        single_spaced(join_words(words)),
        words.len() > 0 ==> {
            &&& join_words(words).len() > 0
            &&& !is_whitespace(join_words(words)[0])
            &&& !is_whitespace(join_words(words).last())
        },
    decreases words.len(),
{
    if words.len() == 1 {
        assert(is_word(words[0]));
    } else if words.len() > 1 {
        let init = words.drop_last();
        assert forall|k: int| 0 <= k < init.len() implies is_word(#[trigger] init[k]) by {
            assert(init[k] == words[k]);
        }
        lemma_join_single_spaced(init);
        let a = join_words(init);
        let w = words.last();
        assert(is_word(w)) by {
            assert(w == words[words.len() - 1]);
        }
        let r = join_words(words);
        assert(r == a + seq![' '] + w);
        assert forall|i: int| 0 <= i < r.len() && #[trigger] is_whitespace(r[i]) implies {
            &&& r[i] == ' '
            &&& 0 < i
            &&& i + 1 < r.len()
            &&& !is_whitespace(r[i - 1])
            &&& !is_whitespace(r[i + 1])
        } by {
            if i < a.len() {
                assert(r[i] == a[i]);
                assert(is_whitespace(a[i]));
                assert(r[i + 1] == a[i + 1]);
                assert(r[i - 1] == a[i - 1]);
            } else if i == a.len() {
                assert(r[i - 1] == a.last());
                assert(r[i + 1] == w[0]);
            } else {
                assert(r[i] == w[i - a.len() - 1]);
            }
        }
        assert(r[0] == a[0]);
        assert(r.last() == w.last());
    }
}

/// A line of 7-Zip output cleaned for the debug log holds no whitespace but
/// single spaces between words: no carriage return or line feed, no run of
/// blanks, and none at either end.
pub proof fn cleaned_lines_are_single_spaced(text: Seq<char>)
    ensures
        single_spaced(join_words(line_words(text))),
{
    lemma_words_from_are_words(without_cr(text), 0);
    lemma_join_single_spaced(line_words(text));
}

proof fn lemma_without_cr_keeps(s: Seq<char>)
    requires
        forall|k: int| 0 <= k < s.len() ==> s[k] != '\r',
    ensures
        without_cr(s) == s,
    decreases s.len(),
{
    if s.len() > 0 {
        lemma_without_cr_keeps(s.drop_last());
        assert(s.drop_last().push(s.last()) =~= s);
    }
}

proof fn lemma_first_non_ws_agrees(a: Seq<char>, s: Seq<char>, p: int)
    requires
        a.len() < s.len(),
        forall|j: int| 0 <= j < a.len() ==> s[j] == a[j],
        0 <= p <= a.len(),
        first_non_ws(a, p) < a.len(),
    ensures
        first_non_ws(s, p) == first_non_ws(a, p),
    decreases a.len() - p,
{
    if p < a.len() && is_whitespace(a[p]) {
        lemma_first_non_ws_agrees(a, s, p + 1);
    }
}

proof fn lemma_word_end_agrees(a: Seq<char>, s: Seq<char>, b: int)
    requires
        a.len() < s.len(),
        forall|j: int| 0 <= j < a.len() ==> s[j] == a[j],
        is_whitespace(s[a.len() as int]),
        0 <= b <= a.len(),
    ensures
        word_end(s, b) == word_end(a, b),
    decreases a.len() - b,
{
    if b < a.len() && !is_whitespace(a[b]) {
        lemma_word_end_agrees(a, s, b + 1);
    }
}

proof fn lemma_word_to_end(s: Seq<char>, b: int)
    requires
        0 <= b <= s.len(),
        forall|j: int| b <= j < s.len() ==> !is_whitespace(#[trigger] s[j]),
    ensures
        word_end(s, b) == s.len(),
    decreases s.len() - b,
{
    if b < s.len() {
        lemma_word_to_end(s, b + 1);
    }
}

/// The words of `a`, a space and the word `w` are those of `a` followed by `w`.
proof fn lemma_words_then_word(a: Seq<char>, w: Seq<char>, p: int)
    requires
        a.len() > 0,
        !is_whitespace(a.last()),
        is_word(w),
        0 <= p <= a.len(),
    ensures
        words_from(a + seq![' '] + w, p) == words_from(a, p) + seq![w],
    decreases a.len() - p,
{
    let s = a + seq![' '] + w;
    let n = a.len() as int;
    assert forall|j: int| 0 <= j < n implies s[j] == a[j] by {}
    assert(s[n] == ' ');
    if p == n {
        assert(words_from(a, p) =~= Seq::<Seq<char>>::empty());
        assert(s[n + 1] == w[0]);
        assert(first_non_ws(s, n + 1) == n + 1);
        assert(first_non_ws(s, n) == n + 1);
        assert forall|j: int| n + 1 <= j < s.len() implies !is_whitespace(#[trigger] s[j]) by {
            assert(s[j] == w[j - n - 1]);
        }
        lemma_word_to_end(s, n + 1);
        assert(s.subrange(n + 1, s.len() as int) =~= w);
        assert(words_from(s, s.len() as int) =~= Seq::<Seq<char>>::empty());
        assert(words_from(s, p) =~= seq![w]);
        assert(words_from(a, p) + seq![w] =~= seq![w]);
    } else {
        lemma_first_non_ws_range(a, p);
        let b = first_non_ws(a, p);
        if b >= n {
            assert(is_whitespace(a[n - 1]));
            assert(false);
        }
        lemma_first_non_ws_agrees(a, s, p);
        lemma_word_end(a, b);
        lemma_word_end_agrees(a, s, b);
        let e = word_end(a, b);
        assert(e > p);
        lemma_words_then_word(a, w, e);
        assert(s.subrange(b, e) =~= a.subrange(b, e));
        assert(words_from(a, p) == seq![a.subrange(b, e)] + words_from(a, e));
        assert(words_from(s, p) == seq![s.subrange(b, e)] + words_from(s, e));
        assert(seq![a.subrange(b, e)] + (words_from(a, e) + seq![w]) =~= (seq![a.subrange(b, e)]
            + words_from(a, e)) + seq![w]);
    }
}

/// Words joined by single spaces split back into the same words.
proof fn lemma_split_joined(words: Seq<Seq<char>>)
    requires
        forall|k: int| 0 <= k < words.len() ==> is_word(#[trigger] words[k]),
    ensures
        words_from(join_words(words), 0) == words,
    decreases words.len(),
{
    if words.len() == 0 {
        assert(words_from(join_words(words), 0) =~= words);
    } else if words.len() == 1 {
        let w = words[0];
        assert(is_word(w));
        assert(first_non_ws(w, 0) == 0);
        lemma_word_to_end(w, 0);
        assert(w.subrange(0, w.len() as int) =~= w);
        assert(words_from(w, w.len() as int) =~= Seq::<Seq<char>>::empty());
        assert(words_from(w, 0) =~= words);
    } else {
        let init = words.drop_last();
        assert forall|k: int| 0 <= k < init.len() implies is_word(#[trigger] init[k]) by {
            assert(init[k] == words[k]);
        }
        lemma_split_joined(init);
        lemma_join_single_spaced(init);
        let a = join_words(init);
        let w = words.last();
        assert(is_word(w)) by {
            assert(w == words[words.len() - 1]);
        }
        lemma_words_then_word(a, w, 0);
        assert(join_words(words) == a + seq![' '] + w);
        assert(init.push(w) =~= words);
    }
}

/// Cleaning a cleaned line changes nothing: its UTF-8 bytes decode back to
/// it, and its words are the words it was made of.  So `clean_7z_line` on the
/// bytes of a line it returned returns that same line.
pub proof fn cleaning_is_idempotent(text: Seq<char>)
    ensures
        ({
            let c = join_words(line_words(text));
            &&& vstd::utf8::valid_utf8(vstd::utf8::encode_utf8(c))
            &&& vstd::utf8::decode_utf8(vstd::utf8::encode_utf8(c)) == c
            &&& line_words(c) == line_words(text)
        }),
{
    let w = line_words(text);
    let c = join_words(w);
    lemma_words_from_are_words(without_cr(text), 0);
    lemma_join_single_spaced(w);
    assert forall|k: int| 0 <= k < c.len() implies c[k] != '\r' by {
        if c[k] == '\r' {
            assert(is_whitespace(c[k]));
        }
    }
    lemma_without_cr_keeps(c);
    lemma_split_joined(w);
    vstd::utf8::encode_utf8_valid_utf8(c);
    vstd::utf8::encode_utf8_decode_utf8(c);
}

fn char_is_whitespace_at(t: &Vec<char>, i: usize) -> (b: bool)
    requires
        i < t@.len(),
    ensures
        b == is_whitespace(t@[i as int]),
{
    char_is_whitespace(t[i])
}

/// A line of 7-Zip output as it goes to the debug log: decoded as lossy UTF-8,
/// then tidied by `collapse_line`; `None` when it holds only whitespace.
pub fn clean_7z_line(output: &[u8]) -> (r: Option<String>)
    ensures
        r is None <==> line_words(utf8_lossy(output@)).len() == 0,
        r matches Some(line) ==> line@ == join_words(line_words(utf8_lossy(output@))),
        vstd::utf8::valid_utf8(output@) ==> {
            &&& (r is None <==> line_words(vstd::utf8::decode_utf8(output@)).len() == 0)
            &&& (r matches Some(line) ==> line@ == join_words(
                line_words(vstd::utf8::decode_utf8(output@)),
            ))
        },
{
    let text = decode_lossy(output);
    collapse_line(text.as_str())
}

} // verus!

verus! {

// ---------------------------------------------------------------------------
// Splitting 7-Zip's output into lines
// ---------------------------------------------------------------------------

/// `r` is what `clean_7z_line` answers for `bytes`.
pub open spec fn is_clean_line_of(r: Option<String>, bytes: Seq<u8>) -> bool {
    &&& (r is None <==> line_words(utf8_lossy(bytes)).len() == 0)
    &&& (r matches Some(line) ==> line@ == join_words(line_words(utf8_lossy(bytes))))
}

/// Cuts a byte stream from 7-Zip into lines at every carriage return or line
/// feed (7-Zip redraws its progress line with carriage returns).
pub struct LineSplitter {
    /// The bytes of the line read so far.
    pub line: Vec<u8>,
}

impl LineSplitter {
    pub fn new() -> (s: Self)
        ensures
            s.line@.len() == 0,
    {
        LineSplitter { line: Vec::new() }
    }

    /// Takes the next byte; at the end of a line, hands back the line cleaned
    /// for the log (`None` when it was blank) and starts a new one.
    pub fn push_byte(&mut self, byte: u8) -> (r: Option<String>)
        ensures
            (byte == 13 || byte == 10) ==> {
                &&& is_clean_line_of(r, old(self).line@)
                &&& final(self).line@.len() == 0
            },
            !(byte == 13 || byte == 10) ==> {
                &&& r is None
                &&& final(self).line@ == old(self).line@.push(byte)
            },
    {
        if byte == 13 || byte == 10 {
            let r = clean_7z_line(self.line.as_slice());
            self.line.clear();
            r
        } else {
            self.line.push(byte);
            None
        }
    }

    /// The last line, when the stream ends without a line break.
    pub fn finish(&self) -> (r: Option<String>)
        ensures
            is_clean_line_of(r, self.line@),
    {
        clean_7z_line(self.line.as_slice())
    }
}

} // verus!

verus! {

// ---------------------------------------------------------------------------
// Following an unpack
// ---------------------------------------------------------------------------

/// The two output streams of the 7-Zip process.
#[derive(Debug, Clone, Copy, PartialEq, Eq, Structural)]
pub enum OutputStream {
    Stdout,
    Stderr,
}

pub open spec fn stream_name(s: OutputStream) -> Seq<char> {
    match s {
        OutputStream::Stdout => "stdout"@,
        OutputStream::Stderr => "stderr"@,
    }
}

/// The name that the debug log gives a stream.
pub fn stream_name_str(s: OutputStream) -> (r: &'static str)
    ensures
        r@ == stream_name(s),
{
    match s {
        OutputStream::Stdout => "stdout",
        OutputStream::Stderr => "stderr",
    }
}

/// How many of the last stderr lines an error report quotes.
pub const STDERR_TAIL_LINES: usize = 20;

/// `lines` joined with line feeds.
pub open spec fn join_lines(lines: Seq<Seq<char>>) -> Seq<char>
    decreases lines.len(),
{
    if lines.len() == 0 {
        Seq::empty()
    } else if lines.len() == 1 {
        lines[0]
    } else {
        join_lines(lines.drop_last()) + "\n"@ + lines.last()
    }
}

/// The progress that a line of output reports.
pub open spec fn line_percent(line: Seq<char>) -> Option<u8> {
    let b = vstd::utf8::encode_utf8(line);
    last_percent(latin1(b), b.len() as int)
}

/// What the installer remembers while 7-Zip runs: the last progress it
/// reported, the last line it logged, and the last lines of stderr.
pub struct UnpackMonitor {
    pub last_percent: Option<u8>,
    pub last_debug_line: String,
    pub stderr_tail: Vec<String>,
}

impl UnpackMonitor {
    /// At most `STDERR_TAIL_LINES` lines of stderr are kept.
    pub open spec fn wf(&self) -> bool {
        self.stderr_tail@.len() <= STDERR_TAIL_LINES
    }

    pub fn new() -> (m: Self)
        ensures
            m.wf(),
            m.last_percent is None,
            m.last_debug_line@.len() == 0,
            m.stderr_tail@.len() == 0,
    {
        UnpackMonitor { last_percent: None, last_debug_line: String::new(), stderr_tail: Vec::new() }
    }

    /// Takes a line that 7-Zip printed on `stream`.  Reports a progress
    /// update when the line shows a percentage other than the last one
    /// reported, and a debug line when it differs from the last line logged;
    /// keeps the last `STDERR_TAIL_LINES` lines of stderr.
    pub fn on_line(&mut self, stream: OutputStream, line: String) -> (updates: Vec<
        crate::package::InstallUpdate,
    >)
        requires
            old(self).wf(),
        ensures
            final(self).wf(),
            ({
                let p = line_percent(line@);
                let new_percent = p is Some && old(self).last_percent != p;
                let new_line = line@ != old(self).last_debug_line@;
                &&& updates@.len() == (if new_percent { 1int } else { 0 }) + (if new_line {
                    1int
                } else {
                    0
                })
                &&& new_percent ==> updates@[0] == crate::package::InstallUpdate::UnpackingProgress {
                    percent: p->0,
                }
                &&& new_percent ==> final(self).last_percent == p
                &&& !new_percent ==> final(self).last_percent == old(self).last_percent
                &&& new_line ==> (updates@.last() matches crate::package::InstallUpdate::Debug {
                    message,
                } && message@ == "7z "@ + stream_name(stream) + ": "@ + line@)
                &&& final(self).last_debug_line@ == line@
            }),
            stream == OutputStream::Stderr ==> {
                let grown = string_views(old(self).stderr_tail@).push(line@);
                string_views(final(self).stderr_tail@) == if grown.len() > STDERR_TAIL_LINES {
                    grown.drop_first()
                } else {
                    grown
                }
            },
            stream == OutputStream::Stdout ==> final(self).stderr_tail@ == old(self).stderr_tail@,
    {
        let mut updates: Vec<crate::package::InstallUpdate> = Vec::new();
        let p = parse_7z_percent(line.as_str().as_bytes());
        if let Some(percent) = p {
            if self.last_percent != Some(percent) {
                updates.push(crate::package::InstallUpdate::UnpackingProgress { percent });
                self.last_percent = Some(percent);
            }
        }
        if line != self.last_debug_line {
            let mut m = String::new();
            push_str(&mut m, "7z ");
            push_str(&mut m, stream_name_str(stream));
            push_str(&mut m, ": ");
            push_str(&mut m, line.as_str());
            updates.push(crate::package::InstallUpdate::Debug { message: m });
        }
        self.last_debug_line = line.clone();
        if stream == OutputStream::Stderr {
            let ghost before = string_views(self.stderr_tail@);
            self.stderr_tail.push(line);
            assert(string_views(self.stderr_tail@) =~= before.push(self.last_debug_line@));
            if self.stderr_tail.len() > STDERR_TAIL_LINES {
                let ghost grown = self.stderr_tail@;
                self.stderr_tail.remove(0);
                assert(string_views(self.stderr_tail@) =~= string_views(grown).drop_first());
            }
        }
        updates
    }

    /// The debug line for a stream that 7-Zip closed.
    pub fn on_stream_closed(stream: OutputStream) -> (u: crate::package::InstallUpdate)
        ensures
            u matches crate::package::InstallUpdate::Debug { message } && message@ == "7z "@
                + stream_name(stream) + ": stream closed"@,
    {
        let mut m = String::new();
        push_str(&mut m, "7z ");
        push_str(&mut m, stream_name_str(stream));
        push_str(&mut m, ": stream closed");
        crate::package::InstallUpdate::Debug { message: m }
    }

    /// 7-Zip exited after `elapsed_secs` seconds with `status` (its exit
    /// status as printed): a debug line, and the failure to report unless it
    /// succeeded, which quotes the last lines of stderr.
    pub fn on_exit(&self, success: bool, elapsed_secs: u64, status: &str) -> (r: (
        crate::package::InstallUpdate,
        Result<(), String>,
    ))
        ensures
            r.0 matches crate::package::InstallUpdate::Debug { message } && message@ == "7z exited after "@
                + crate::text::decimal(elapsed_secs as nat) + "s with "@ + status@,
            success ==> r.1 is Ok,
            !success ==> (r.1 matches Err(e) && e@ == "7z failed to unpack factory game: "@
                + join_lines(string_views(self.stderr_tail@))),
    {
        let mut m = String::new();
        push_str(&mut m, "7z exited after ");
        let secs = crate::text::decimal_string(elapsed_secs);
        push_str(&mut m, secs.as_str());
        push_str(&mut m, "s with ");
        push_str(&mut m, status);
        let u = crate::package::InstallUpdate::Debug { message: m };
        if success {
            (u, Ok(()))
        } else {
            let mut e = String::new();
            push_str(&mut e, "7z failed to unpack factory game: ");
            let tail = join_string_lines(&self.stderr_tail);
            push_str(&mut e, tail.as_str());
            (u, Err(e))
        }
    }

    /// The periodic "still running" line: due once at least five whole
    /// seconds have passed since the last one.
    pub fn heartbeat(&self, secs_since_last: u64, elapsed_secs: u64) -> (r: Option<
        crate::package::InstallUpdate,
    >)
        ensures
            r is Some <==> secs_since_last >= 5,
            r matches Some(u) ==> (u matches crate::package::InstallUpdate::Debug { message }
                && message@ == "7z still running: elapsed="@ + crate::text::decimal(
                elapsed_secs as nat,
            ) + "s, last_progress="@ + crate::text::decimal(
                match self.last_percent {
                    Some(p) => p as nat,
                    None => 0nat,
                },
            ) + "%"@),
    {
        if secs_since_last < 5 {
            return None;
        }
        let p: u8 = match self.last_percent {
            Some(p) => p,
            None => 0,
        };
        let mut m = String::new();
        push_str(&mut m, "7z still running: elapsed=");
        let e = crate::text::decimal_string(elapsed_secs);
        push_str(&mut m, e.as_str());
        push_str(&mut m, "s, last_progress=");
        let ps = crate::text::decimal_string(p as u64);
        push_str(&mut m, ps.as_str());
        push_str(&mut m, "%");
        Some(crate::package::InstallUpdate::Debug { message: m })
    }

    /// What is reported once 7-Zip has finished successfully.
    pub fn on_success() -> (updates: Vec<crate::package::InstallUpdate>)
        ensures
            updates@.len() == 2,
            updates@[0] == (crate::package::InstallUpdate::UnpackingProgress { percent: 100 }),
            updates@[1] matches crate::package::InstallUpdate::Debug { message } && message@
                == "7z finished successfully"@,
    {
        let mut updates = Vec::new();
        updates.push(crate::package::InstallUpdate::UnpackingProgress { percent: 100 });
        let mut m = String::new();
        push_str(&mut m, "7z finished successfully");
        updates.push(crate::package::InstallUpdate::Debug { message: m });
        updates
    }
}

/// `lines.join("\n")`.
pub fn join_string_lines(lines: &Vec<String>) -> (r: String)
    ensures
        r@ == join_lines(string_views(lines@)),
{
    let mut r = String::new();
    let mut i: usize = 0;
    while i < lines.len()
        invariant
            i <= lines@.len(),
            r@ == join_lines(string_views(lines@.take(i as int))),
        decreases lines@.len() - i,
    {
        let ghost prev = string_views(lines@.take(i as int));
        assert(string_views(lines@.take(i + 1)).drop_last() =~= prev);
        if i > 0 {
            push_str(&mut r, "\n");
        }
        push_str(&mut r, lines[i].as_str());
        assert(string_views(lines@.take(i + 1)).last() == lines@[i as int]@);
        assert(string_views(lines@.take(i + 1)).len() == i + 1);
        i += 1;
        assert(r@ =~= join_lines(string_views(lines@.take(i as int))));
    }
    assert(lines@.take(lines@.len() as int) =~= lines@);
    r
}

} // verus!
