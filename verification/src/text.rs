//! Text handling shared by the state files, the configuration words and the
//! command lines: whitespace trimming, `bool` parsing and decimal rendering.
use vstd::prelude::*;
use vstd::string::*;

verus! {

/// The Unicode `White_Space` property, as `char::is_whitespace` documents it.
pub open spec fn is_white_space(c: char) -> bool {
    ||| c == '\t'
    ||| c == '\n'
    ||| c == '\u{0B}'
    ||| c == '\u{0C}'
    ||| c == '\r'
    ||| c == ' '
    ||| c == '\u{85}'
    ||| c == '\u{A0}'
    ||| c == '\u{1680}'
    ||| ('\u{2000}' <= c && c <= '\u{200A}')
    ||| c == '\u{2028}'
    ||| c == '\u{2029}'
    ||| c == '\u{202F}'
    ||| c == '\u{205F}'
    ||| c == '\u{3000}'
}

/// `s` without its leading whitespace.
pub open spec fn trim_start(s: Seq<char>) -> Seq<char>
    decreases s.len(),
{
    if s.len() > 0 && is_white_space(s[0]) {
        trim_start(s.drop_first())
    } else {
        s
    }
}

/// `s` without its trailing whitespace.
pub open spec fn trim_end(s: Seq<char>) -> Seq<char>
    decreases s.len(),
{
    if s.len() > 0 && is_white_space(s.last()) {
        trim_end(s.drop_last())
    } else {
        s
    }
}

/// `s` without leading and trailing whitespace, as `str::trim` gives it.
pub open spec fn trimmed(s: Seq<char>) -> Seq<char> {
    trim_end(trim_start(s))
}

/// What `bool::from_str` gives for a text.
pub open spec fn parsed_bool(s: Seq<char>) -> Option<bool> {
    if s == "true"@ {
        Some(true)
    } else if s == "false"@ {
        Some(false)
    } else {
        None
    }
}

/// The text that `bool::to_string` gives.
pub open spec fn bool_word(b: bool) -> Seq<char> {
    if b {
        "true"@
    } else {
        "false"@
    }
}

/// The decimal digit for `d < 10`.
pub open spec fn digit_char(d: nat) -> char {
    if d == 0 {
        '0'
    } else if d == 1 {
        '1'
    } else if d == 2 {
        '2'
    } else if d == 3 {
        '3'
    } else if d == 4 {
        '4'
    } else if d == 5 {
        '5'
    } else if d == 6 {
        '6'
    } else if d == 7 {
        '7'
    } else if d == 8 {
        '8'
    } else {
        '9'
    }
}

/// The decimal notation of `n`, without sign or leading zeros.
pub open spec fn decimal(n: nat) -> Seq<char>
    decreases n,
{
    if n < 10 {
        seq![digit_char(n)]
    } else {
        decimal(n / 10).push(digit_char(n % 10))
    }
}

/// A text that neither starts nor ends with whitespace is its own trim.
pub proof fn lemma_trimmed_plain(s: Seq<char>)
    requires
        s.len() > 0,
        !is_white_space(s[0]),
        !is_white_space(s.last()),
    ensures
        trimmed(s) == s,
{
}

/// A line (a text and a final newline) trims to the text, where the text
/// neither starts nor ends with whitespace.
pub proof fn lemma_trimmed_line(s: Seq<char>)
    requires
        s.len() > 0,
        !is_white_space(s[0]),
        !is_white_space(s.last()),
    ensures
        trimmed(s.push('\n')) == s,
{
    let line = s.push('\n');
    assert(line[0] == s[0]);
    assert(trim_start(line) == line);
    assert(line.drop_last() =~= s);
    assert(trim_end(line) == trim_end(s));
}

/// Whether `c` is whitespace.
pub fn is_white_space_char(c: char) -> (r: bool)
    ensures
        r == is_white_space(c),
{
    c == '\t' || c == '\n' || c == '\u{0B}' || c == '\u{0C}' || c == '\r' || c == ' ' || c
        == '\u{85}' || c == '\u{A0}' || c == '\u{1680}' || ('\u{2000}' <= c && c <= '\u{200A}')
        || c == '\u{2028}' || c == '\u{2029}' || c == '\u{202F}' || c == '\u{205F}' || c
        == '\u{3000}'
}

proof fn lemma_trim_start_step(s: Seq<char>, i: int)
    requires
        0 <= i < s.len(),
        is_white_space(s[i]),
    ensures
        trim_start(s.subrange(i, s.len() as int)) == trim_start(s.subrange(i + 1, s.len() as int)),
{
    assert(s.subrange(i, s.len() as int).drop_first() =~= s.subrange(i + 1, s.len() as int));
}

proof fn lemma_trim_end_step(s: Seq<char>, j: int)
    requires
        0 < j <= s.len(),
        is_white_space(s[j - 1]),
    ensures
        trim_end(s.subrange(0, j)) == trim_end(s.subrange(0, j - 1)),
{
    assert(s.subrange(0, j).drop_last() =~= s.subrange(0, j - 1));
}

/// The text without leading and trailing whitespace (`str::trim`).
pub fn trim(s: &str) -> (r: &str)
    ensures
        r@ == trimmed(s@),
{
    let n = s.unicode_len();
    let mut start: usize = 0;
    proof {
        assert(s@.subrange(0, n as int) =~= s@);
    }
    while start < n && is_white_space_char(s.get_char(start))
        invariant
            start <= n,
            n == s@.len(),
            trim_start(s@) == trim_start(s@.subrange(start as int, n as int)),
        decreases n - start,
    {
        proof {
            lemma_trim_start_step(s@, start as int);
        }
        start = start + 1;
    }
    let ghost rest = s@.subrange(start as int, n as int);
    proof {
        if rest.len() > 0 {
            assert(rest[0] == s@[start as int]);
        }
        assert(trim_start(s@) == rest);
        assert(rest.subrange(0, rest.len() as int) =~= rest);
    }
    let mut end: usize = n;
    while end > start && is_white_space_char(s.get_char(end - 1))
        invariant
            start <= end <= n,
            n == s@.len(),
            rest == s@.subrange(start as int, n as int),
            trim_end(rest) == trim_end(rest.subrange(0, end - start)),
        decreases end - start,
    {
        proof {
            assert(rest[end - start - 1] == s@[end - 1]);
            lemma_trim_end_step(rest, end - start);
        }
        end = end - 1;
    }
    let r = s.substring_char(start, end);
    proof {
        let kept = rest.subrange(0, end - start);
        assert(r@ =~= kept);
        if kept.len() > 0 {
            assert(kept.last() == s@[end - 1]);
        }
    }
    r
}

/// Parses `true` or `false` as `bool::from_str` does: any other text,
/// surrounding whitespace included, is refused.
pub fn parse_bool(s: &str) -> (r: Option<bool>)
    ensures
        r == parsed_bool(s@),
{
    let owned = String::from_str(s);
    if owned == String::from_str("true") {
        Some(true)
    } else if owned == String::from_str("false") {
        Some(false)
    } else {
        None
    }
}

/// The text of a `bool` (`bool::to_string`).
pub fn bool_text(b: bool) -> (r: String)
    ensures
        r@ == bool_word(b),
{
    if b {
        String::from_str("true")
    } else {
        String::from_str("false")
    }
}

fn digit_text(d: u64) -> (r: &'static str)
    requires
        d < 10,
    ensures
        r@ == seq![digit_char(d as nat)],
{
    proof {
        reveal_strlit("0");
        reveal_strlit("1");
        reveal_strlit("2");
        reveal_strlit("3");
        reveal_strlit("4");
        reveal_strlit("5");
        reveal_strlit("6");
        reveal_strlit("7");
        reveal_strlit("8");
        reveal_strlit("9");
    }
    let r = if d == 0 {
        "0"
    } else if d == 1 {
        "1"
    } else if d == 2 {
        "2"
    } else if d == 3 {
        "3"
    } else if d == 4 {
        "4"
    } else if d == 5 {
        "5"
    } else if d == 6 {
        "6"
    } else if d == 7 {
        "7"
    } else if d == 8 {
        "8"
    } else {
        "9"
    };
    assert(r@ =~= seq![digit_char(d as nat)]);
    r
}

/// The decimal notation of a number (`u64::to_string`).
pub fn decimal_text(n: u64) -> (r: String)
    ensures
        r@ == decimal(n as nat),
    decreases n,
{
    if n < 10 {
        String::from_str(digit_text(n))
    } else {
        let mut r = decimal_text(n / 10);
        r.append(digit_text(n % 10));
        r
    }
}

/// What `bool_text` writes, `parse_bool` reads back.
pub proof fn lemma_bool_word_parses_back(b: bool)
    ensures
        parsed_bool(bool_word(b)) == Some(b),
{
    reveal_strlit("true");
    reveal_strlit("false");
    assert("false"@.len() != "true"@.len());
}

/// Whether every character of `s` is whitespace.
pub open spec fn all_white_space(s: Seq<char>) -> bool {
    forall|i: int| 0 <= i < s.len() ==> is_white_space(#[trigger] s[i])
}

proof fn lemma_trim_start_skips(p: Seq<char>, r: Seq<char>)
    requires
        all_white_space(p),
    ensures
        trim_start(p + r) == trim_start(r),
    decreases p.len(),
{
    if p.len() > 0 {
        assert((p + r)[0] == p[0]);
        assert((p + r).drop_first() =~= p.drop_first() + r);
        lemma_trim_start_skips(p.drop_first(), r);
    } else {
        assert(p + r =~= r);
    }
}

proof fn lemma_trim_end_skips(r: Seq<char>, q: Seq<char>)
    requires
        all_white_space(q),
    ensures
        trim_end(r + q) == trim_end(r),
    decreases q.len(),
{
    if q.len() > 0 {
        assert((r + q).last() == q.last());
        assert((r + q).drop_last() =~= r + q.drop_last());
        lemma_trim_end_skips(r, q.drop_last());
    } else {
        assert(r + q =~= r);
    }
}

/// Trimming removes exactly the whitespace around a text: a text that
/// neither starts nor ends with whitespace, padded with any whitespace on
/// either side, trims back to itself; whitespace alone trims to nothing.
pub proof fn lemma_trimmed_padded(p: Seq<char>, w: Seq<char>, q: Seq<char>)
    requires
        all_white_space(p),
        all_white_space(q),
        w.len() == 0 || (!is_white_space(w[0]) && !is_white_space(w.last())),
    ensures
        trimmed(p + w + q) == w,
{
    assert(p + w + q =~= p + (w + q));
    lemma_trim_start_skips(p, w + q);
    if w.len() > 0 {
        assert((w + q)[0] == w[0]);
        assert(trim_start(w + q) == w + q);
        lemma_trim_end_skips(w, q);
    } else {
        assert(w + q =~= q);
        assert(q =~= Seq::<char>::empty() + q);
        lemma_trim_start_skips(q, Seq::<char>::empty());
        assert(trim_start(Seq::<char>::empty()) =~= Seq::<char>::empty());
    }
}

proof fn lemma_trim_start_split(s: Seq<char>) -> (p: Seq<char>)
    ensures
        all_white_space(p),
        s == p + trim_start(s),
        trim_start(s).len() == 0 || !is_white_space(trim_start(s)[0]),
    decreases s.len(),
{
    if s.len() > 0 && is_white_space(s[0]) {
        let p0 = lemma_trim_start_split(s.drop_first());
        let p = seq![s[0]] + p0;
        assert(trim_start(s) == trim_start(s.drop_first()));
        assert(s =~= seq![s[0]] + s.drop_first());
        assert(s =~= p + trim_start(s));
        assert forall|i: int| 0 <= i < p.len() implies is_white_space(#[trigger] p[i]) by {
            if i > 0 {
                assert(p[i] == p0[i - 1]);
            }
        }
        p
    } else {
        assert(s =~= Seq::<char>::empty() + s);
        Seq::<char>::empty()
    }
}

proof fn lemma_trim_end_split(s: Seq<char>) -> (q: Seq<char>)
    ensures
        all_white_space(q),
        s == trim_end(s) + q,
        trim_end(s).len() == 0 || !is_white_space(trim_end(s).last()),
        s.len() > 0 && !is_white_space(s[0]) ==> trim_end(s).len() > 0 && trim_end(s)[0] == s[0],
    decreases s.len(),
{
    if s.len() > 0 && is_white_space(s.last()) {
        let q0 = lemma_trim_end_split(s.drop_last());
        let q = q0.push(s.last());
        assert(trim_end(s) == trim_end(s.drop_last()));
        assert(s =~= s.drop_last().push(s.last()));
        assert(s =~= trim_end(s) + q);
        if s.drop_last().len() > 0 {
            assert(s.drop_last()[0] == s[0]);
        }
        q
    } else {
        assert(s =~= s + Seq::<char>::empty());
        Seq::<char>::empty()
    }
}

/// Every text is its trim with whitespace around it, and the trim neither
/// starts nor ends with whitespace.
pub proof fn lemma_trimmed_split(s: Seq<char>) -> (pq: (Seq<char>, Seq<char>))
    ensures
        all_white_space(pq.0),
        all_white_space(pq.1),
        s == pq.0 + trimmed(s) + pq.1,
        trimmed(s).len() == 0 || (!is_white_space(trimmed(s)[0]) && !is_white_space(
            trimmed(s).last(),
        )),
{
    let p = lemma_trim_start_split(s);
    let q = lemma_trim_end_split(trim_start(s));
    assert(s =~= p + trimmed(s) + q);
    (p, q)
}

/// `parse_bool` accepts exactly the two words: it gives `true` for the text
/// `true`, `false` for `false`, and nothing for any other text.
pub proof fn lemma_parsed_bool_words(s: Seq<char>)
    ensures
        parsed_bool(s) == Some(true) <==> s == "true"@,
        parsed_bool(s) == Some(false) <==> s == "false"@,
        parsed_bool(s) is None <==> (s != "true"@ && s != "false"@),
{
    reveal_strlit("true");
    reveal_strlit("false");
    assert("false"@.len() != "true"@.len());
}

/// The number a decimal digit stands for.
pub open spec fn digit_value(c: char) -> int {
    (c as int) - ('0' as int)
}

/// The number a string of decimal digits stands for.
pub open spec fn decimal_value(s: Seq<char>) -> int
    decreases s.len(),
{
    if s.len() == 0 {
        0
    } else {
        decimal_value(s.drop_last()) * 10 + digit_value(s.last())
    }
}

proof fn lemma_digit_char(d: nat)
    requires
        d < 10,
    ensures
        '0' <= digit_char(d) <= '9',
        digit_value(digit_char(d)) == d,
        digit_char(d) == '0' ==> d == 0,
{
}

/// The decimal notation of `n` consists of digits `0` to `9`, stands for `n`,
/// and has no leading zero (only `0` itself starts with `0`).
pub proof fn lemma_decimal_is_notation(n: nat)
    ensures
        decimal(n).len() > 0,
        forall|i: int| 0 <= i < decimal(n).len() ==> '0' <= #[trigger] decimal(n)[i] <= '9',
        decimal_value(decimal(n)) == n,
        decimal(n)[0] == '0' ==> n == 0,
    decreases n,
{
    if n < 10 {
        lemma_digit_char(n);
        assert(decimal(n) == seq![digit_char(n)]);
        assert(seq![digit_char(n)].drop_last() =~= Seq::<char>::empty());
        assert(decimal_value(Seq::<char>::empty()) == 0);
        assert(decimal_value(seq![digit_char(n)]) == digit_value(digit_char(n)));
    } else {
        lemma_decimal_is_notation(n / 10);
        lemma_digit_char(n % 10);
        let d = decimal(n / 10);
        assert(decimal(n) == d.push(digit_char(n % 10)));
        assert(d.push(digit_char(n % 10)).drop_last() =~= d);
        assert forall|i: int| 0 <= i < decimal(n).len() implies '0' <= #[trigger] decimal(n)[i]
            <= '9' by {
            if i < d.len() {
                assert(decimal(n)[i] == d[i]);
            }
        }
        assert(decimal(n)[0] == d[0]);
        assert(decimal_value(decimal(n)) == decimal_value(d) * 10 + digit_value(digit_char(n % 10)));
        assert(n == (n / 10) * 10 + n % 10);
    }
}

/// `true` or `false` with any whitespace around it trims and parses to that
/// `bool`.
pub proof fn lemma_padded_word_parses(p: Seq<char>, q: Seq<char>)
    requires
        all_white_space(p),
        all_white_space(q),
    ensures
        parsed_bool(trimmed(p + "true"@ + q)) == Some(true),
        parsed_bool(trimmed(p + "false"@ + q)) == Some(false),
{
    reveal_strlit("true");
    reveal_strlit("false");
    lemma_trimmed_padded(p, "true"@, q);
    lemma_trimmed_padded(p, "false"@, q);
    lemma_parsed_bool_words("true"@);
    lemma_parsed_bool_words("false"@);
}

/// A text trims and parses to a `bool` only where it is that `bool`'s word
/// with whitespace around it.
pub proof fn lemma_parsed_only_padded_word(s: Seq<char>)
    ensures
        parsed_bool(trimmed(s)) == Some(true) ==> exists|p: Seq<char>, q: Seq<char>|
            all_white_space(p) && all_white_space(q) && s == p + "true"@ + q,
        parsed_bool(trimmed(s)) == Some(false) ==> exists|p: Seq<char>, q: Seq<char>|
            all_white_space(p) && all_white_space(q) && s == p + "false"@ + q,
{
    let (p, q) = lemma_trimmed_split(s);
    lemma_parsed_bool_words(trimmed(s));
}

} // verus!
