//! Text primitives for the address parser: trimming, tokenising and
//! reading small decimal numbers.

use vstd::prelude::*;

verus! {

/// A character with the Unicode property White_Space.
pub open spec fn is_white_space(c: char) -> bool {
    ||| '\u{9}' <= c <= '\u{d}'
    ||| c == ' '
    ||| c == '\u{85}'
    ||| c == '\u{a0}'
    ||| c == '\u{1680}'
    ||| '\u{2000}' <= c <= '\u{200a}'
    ||| c == '\u{2028}'
    ||| c == '\u{2029}'
    ||| c == '\u{202f}'
    ||| c == '\u{205f}'
    ||| c == '\u{3000}'
}

/// Index of the first character at or after `i` that is not white space,
/// or the length of `s`.
pub open spec fn white_run(s: Seq<char>, i: int) -> int
    decreases s.len() - i,
{
    if 0 <= i < s.len() && is_white_space(s[i]) {
        white_run(s, i + 1)
    } else {
        i
    }
}

/// Index just after the last character before `j` that is not white space,
/// or 0.
pub open spec fn white_run_back(s: Seq<char>, j: int) -> int
    decreases j,
{
    if 0 < j <= s.len() && is_white_space(s[j - 1]) {
        white_run_back(s, j - 1)
    } else {
        j
    }
}

/// What `str::trim` makes of a text: the text without leading and trailing
/// white space.
pub open spec fn trimmed(s: Seq<char>) -> Seq<char> {
    let a = white_run(s, 0);
    if a >= s.len() {
        Seq::empty()
    } else {
        s.subrange(a, white_run_back(s, s.len() as int))
    }
}

/// What `str::split_whitespace` makes of a text: its maximal runs of
/// characters that are not white space, in order.
pub open spec fn whitespace_tokens(s: Seq<char>) -> Seq<Seq<char>>
    decreases s.len(),
{
    if s.len() == 0 {
        Seq::empty()
    } else {
        let ws = whitespace_tokens(s.drop_last());
        let c = s.last();
        if is_white_space(c) {
            ws
        } else if s.len() >= 2 && !is_white_space(s[s.len() - 2]) {
            ws.drop_last().push(ws.last().push(c))
        } else {
            ws.push(seq![c])
        }
    }
}

/// Relies on `str::trim`: leading and trailing White_Space removed.
#[verifier::external_body]
pub(crate) fn trim_text(s: &str) -> (r: String)
    ensures
        r@ == trimmed(s@),
{
    s.trim().to_string()
}

/// Relies on `str::split_whitespace`: the maximal runs of characters that
/// are not White_Space, in order.
#[verifier::external_body]
pub(crate) fn split_words(s: &str) -> (r: Vec<String>)
    ensures
        texts(r@) == whitespace_tokens(s@),
{
    s.split_whitespace().map(|t| t.to_string()).collect()
}

/// The text held by an optional string.
pub open spec fn opt_text(o: Option<String>) -> Option<Seq<char>> {
    match o {
        Some(t) => Some(t@),
        None => None,
    }
}

/// The texts of a list of strings.
pub open spec fn texts(v: Seq<String>) -> Seq<Seq<char>> {
    v.map_values(|t: String| t@)
}

/// A trimmed value, or `None` when nothing but white space was there.
pub open spec fn clean_spec(s: Option<Seq<char>>) -> Option<Seq<char>> {
    match s {
        Some(t) => if trimmed(t).len() == 0 {
            None
        } else {
            Some(trimmed(t))
        },
        None => None,
    }
}

/// Trims a value and turns an empty result into `None`.
pub fn clean(s: Option<String>) -> (r: Option<String>)
    ensures
        opt_text(r) == clean_spec(opt_text(s)),
{
    match s {
        Some(t) => {
            let u = trim_text(t.as_str());
            if u.unicode_len() == 0 {
                None
            } else {
                Some(u)
            }
        },
        None => None,
    }
}

/// Index of the first space at or after `i`, or the length of `s`.
pub open spec fn space_index(s: Seq<char>, i: int) -> int
    decreases s.len() - i,
{
    if 0 <= i < s.len() && s[i] != ' ' {
        space_index(s, i + 1)
    } else {
        i
    }
}

/// The text before the first space, and what follows that space (empty
/// where there is none).
pub open spec fn split_first_space_spec(s: Seq<char>) -> (Seq<char>, Seq<char>) {
    let k = space_index(s, 0);
    if k < s.len() {
        (s.subrange(0, k), s.subrange(k + 1, s.len() as int))
    } else {
        (s, Seq::empty())
    }
}

proof fn lemma_space_index_bounds(s: Seq<char>, i: int)
    requires
        0 <= i <= s.len(),
    ensures
        i <= space_index(s, i) <= s.len(),
        space_index(s, i) < s.len() ==> s[space_index(s, i)] == ' ',
    decreases s.len() - i,
{
    if i < s.len() && s[i] != ' ' {
        lemma_space_index_bounds(s, i + 1);
    }
}

/// Splits a line at its first space.
pub fn split_first_space(s: &str) -> (r: (String, String))
    ensures
        (r.0@, r.1@) == split_first_space_spec(s@),
{
    let n = s.unicode_len();
    let mut i: usize = 0;
    while i < n && s.get_char(i) != ' '
        invariant
            n == s@.len(),
            i <= n,
            space_index(s@, i as int) == space_index(s@, 0),
        decreases n - i,
    {
        i = i + 1;
    }
    proof {
        lemma_space_index_bounds(s@, 0);
    }
    if i < n {
        let head = s.substring_char(0, i);
        let tail = s.substring_char(i + 1, n);
        (head.to_string(), tail.to_string())
    } else {
        (s.to_string(), String::new())
    }
}

/// An ASCII decimal digit.
pub open spec fn is_digit(c: char) -> bool {
    '0' <= c <= '9'
}

/// The value of a digit character.
pub open spec fn digit_value(c: char) -> nat {
    (c as u32 - '0' as u32) as nat
}

/// Every character of `s` is an ASCII digit.
pub open spec fn all_digits(s: Seq<char>) -> bool {
    forall|j: int| 0 <= j < s.len() ==> is_digit(#[trigger] s[j])
}

/// Index of the first character at or after `i` that is not a digit, or the
/// length of `s`.
pub open spec fn digit_run(s: Seq<char>, i: int) -> int
    decreases s.len() - i,
{
    if 0 <= i < s.len() && is_digit(s[i]) {
        digit_run(s, i + 1)
    } else {
        i
    }
}

/// The number that a string of decimal digits writes.
pub open spec fn decimal_value(s: Seq<char>) -> nat
    decreases s.len(),
{
    if s.len() == 0 {
        0
    } else {
        10 * decimal_value(s.drop_last()) + digit_value(s.last())
    }
}

/// Ten to the power `n`.
pub open spec fn pow10(n: nat) -> nat
    decreases n,
{
    if n == 0 {
        1
    } else {
        10 * pow10((n - 1) as nat)
    }
}

/// Where the run of digits that starts at `from` ends.
pub fn digit_run_end(s: &str, from: usize) -> (r: usize)
    requires
        from <= s@.len(),
    ensures
        r == digit_run(s@, from as int),
        from <= r <= s@.len(),
{
    let n = s.unicode_len();
    let mut i: usize = from;
    while i < n && '0' <= s.get_char(i) && s.get_char(i) <= '9'
        invariant
            n == s@.len(),
            from <= i <= n,
            digit_run(s@, i as int) == digit_run(s@, from as int),
        decreases n - i,
    {
        i = i + 1;
    }
    i
}

/// Reads a string of at most four decimal digits.
pub fn decimal_of(s: &str) -> (r: u16)
    requires
        all_digits(s@),
        s@.len() <= 4,
    ensures
        r as nat == decimal_value(s@),
        (r as nat) < pow10(s@.len()),
{
    let n = s.unicode_len();
    let mut v: u16 = 0;
    let mut i: usize = 0;
    while i < n
        invariant
            n == s@.len(),
            n <= 4,
            i <= n,
            all_digits(s@),
            v as nat == decimal_value(s@.subrange(0, i as int)),
            (v as nat) < pow10(i as nat),
        decreases n - i,
    {
        let c = s.get_char(i);
        assert(is_digit(s@[i as int]));
        proof {
            assert(s@.subrange(0, i + 1).drop_last() =~= s@.subrange(0, i as int));
            assert(pow10((i + 1) as nat) == 10 * pow10(i as nat));
            reveal_with_fuel(pow10, 5);
            assert(pow10(4) == 10000);
            assert(pow10(i as nat) <= 1000) by {
                reveal_with_fuel(pow10, 5);
            }
        }
        v = v * 10 + (c as u32 - '0' as u32) as u16;
        i = i + 1;
    }
    assert(s@.subrange(0, n as int) =~= s@);
    v
}

/// A run of digits that reaches the end covers every position after its start.
pub proof fn lemma_digit_run_to_end(s: Seq<char>, i: int)
    requires
        0 <= i <= s.len(),
        digit_run(s, i) == s.len(),
    ensures
        forall|j: int| i <= j < s.len() ==> is_digit(#[trigger] s[j]),
    decreases s.len() - i,
{
    if i < s.len() {
        lemma_digit_run_to_end(s, i + 1);
    }
}

/// A string of digits writes a number below ten to the power of its length.
pub proof fn lemma_decimal_bound(s: Seq<char>)
    requires
        all_digits(s),
    ensures
        decimal_value(s) < pow10(s.len()),
    decreases s.len(),
{
    if s.len() > 0 {
        let p = s.drop_last();
        assert(all_digits(p)) by {
            assert forall|j: int| 0 <= j < p.len() implies is_digit(#[trigger] p[j]) by {
                assert(p[j] == s[j]);
            }
        }
        lemma_decimal_bound(p);
        assert(is_digit(s[s.len() - 1]));
        assert(pow10(s.len()) == 10 * pow10(p.len()));
    }
}

proof fn lemma_white_run(s: Seq<char>, i: int)
    requires
        0 <= i <= s.len(),
    ensures
        i <= white_run(s, i) <= s.len(),
        white_run(s, i) < s.len() ==> !is_white_space(s[white_run(s, i)]),
    decreases s.len() - i,
{
    if i < s.len() && is_white_space(s[i]) {
        lemma_white_run(s, i + 1);
    }
}

proof fn lemma_white_run_back(s: Seq<char>, j: int, a: int)
    requires
        0 <= a < j <= s.len(),
        !is_white_space(s[a]),
    ensures
        a < white_run_back(s, j) <= j,
        !is_white_space(s[white_run_back(s, j) - 1]),
    decreases j,
{
    if is_white_space(s[j - 1]) {
        lemma_white_run_back(s, j - 1, a);
    }
}

/// A trimmed text has no white space left at either end.
pub proof fn trimmed_is_idempotent(s: Seq<char>)
    ensures
        trimmed(trimmed(s)) == trimmed(s),
{
    lemma_white_run(s, 0);
    let a = white_run(s, 0);
    if a < s.len() {
        lemma_white_run_back(s, s.len() as int, a);
        let t = trimmed(s);
        let b = white_run_back(s, s.len() as int);
        assert(t.len() == b - a);
        assert(t[0] == s[a]);
        assert(t[t.len() - 1] == s[b - 1]);
        assert(white_run(t, 0) == 0);
        assert(white_run_back(t, t.len() as int) == t.len());
        assert(trimmed(t) =~= t);
    }
}

/// Cleaning a value twice gives what cleaning it once gives, and a value of
/// nothing but white space cleans to `None`.
pub proof fn clean_is_idempotent(s: Option<Seq<char>>)
    ensures
        clean_spec(clean_spec(s)) == clean_spec(s),
        s matches Some(t) && (forall|k: int| 0 <= k < t.len() ==> is_white_space(#[trigger] t[k]))
            ==> clean_spec(s) is None,
{
    if let Some(t) = s {
        trimmed_is_idempotent(t);
        lemma_white_run(t, 0);
        if white_run(t, 0) < t.len() {
            assert(!is_white_space(t[white_run(t, 0)]));
        }
    }
}

} // verus!
