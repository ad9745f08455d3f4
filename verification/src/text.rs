//! Character-level helpers on strings: whitespace, words, letter case and
//! decimal numbers.

use vstd::prelude::*;
use vstd::std_specs::iter::IteratorSpec;
use vstd::string::StringExecFns;

verus! {

/// `String::push` of the standard library: appends one character.
pub assume_specification[ String::push ](s: &mut String, c: char)
    ensures
        final(s)@ == old(s)@.push(c),
;

/// The characters of a string, in order.
pub fn to_chars(s: &str) -> (chars: Vec<char>)
    ensures
        chars@ == s@,
{
    let mut chars: Vec<char> = Vec::new();
    for c in it: s.chars()
        invariant
            it.seq() == s@,
            chars@ == s@.take(it.index()),
    {
        chars.push(c);
    }
    chars
}

/// The string made of `chars[from..to]`.
pub fn from_chars(chars: &Vec<char>, from: usize, to: usize) -> (s: String)
    requires
        from <= to <= chars.len(),
    ensures
        s@ == chars@.subrange(from as int, to as int),
{
    let mut s = String::new();
    let mut i: usize = from;
    while i < to
        invariant
            from <= i <= to <= chars.len(),
            s@ == chars@.subrange(from as int, i as int),
        decreases to - i,
    {
        s.push(chars[i]);
        i = i + 1;
    }
    s
}

/// Whether two strings hold the same characters.
pub fn str_eq(a: &str, b: &str) -> (same: bool)
    ensures
        same == (a@ == b@),
{
    let x = String::from_str(a);
    let y = String::from_str(b);
    x == y
}

/// The code points with the Unicode property `White_Space`.
pub open spec fn is_whitespace_spec(c: char) -> bool {
    let n = c as u32;
    ||| 0x09 <= n <= 0x0D
    ||| n == 0x20
    ||| n == 0x85
    ||| n == 0xA0
    ||| n == 0x1680
    ||| 0x2000 <= n <= 0x200A
    ||| n == 0x2028
    ||| n == 0x2029
    ||| n == 0x202F
    ||| n == 0x205F
    ||| n == 0x3000
}

pub fn is_whitespace(c: char) -> (r: bool)
    ensures
        r == is_whitespace_spec(c),
{
    let n: u32 = c as u32;
    (0x09 <= n && n <= 0x0D) || n == 0x20 || n == 0x85 || n == 0xA0 || n == 0x1680 || (0x2000 <= n
        && n <= 0x200A) || n == 0x2028 || n == 0x2029 || n == 0x202F || n == 0x205F || n == 0x3000
}

/// The first index at or after `i` that holds no whitespace, or the length.
pub open spec fn skip_whitespace(s: Seq<char>, i: int) -> int
    decreases s.len() - i,
{
    if 0 <= i < s.len() && is_whitespace_spec(s[i]) {
        skip_whitespace(s, i + 1)
    } else {
        i
    }
}

/// The first index at or after `i` that holds whitespace, or the length.
pub open spec fn word_end(s: Seq<char>, i: int) -> int
    decreases s.len() - i,
{
    if 0 <= i < s.len() && !is_whitespace_spec(s[i]) {
        word_end(s, i + 1)
    } else {
        i
    }
}

/// The end of trailing whitespace that ends at `e`, scanning backwards.
pub open spec fn trim_end(s: Seq<char>, e: int) -> int
    decreases e,
{
    if 0 < e <= s.len() && is_whitespace_spec(s[e - 1]) {
        trim_end(s, e - 1)
    } else {
        e
    }
}

pub proof fn lemma_word_end_bounds(s: Seq<char>, i: int)
    requires
        0 <= i <= s.len(),
    ensures
        i <= word_end(s, i) <= s.len(),
        i < s.len() && !is_whitespace_spec(s[i]) ==> i < word_end(s, i),
    decreases s.len() - i,
{
    if i < s.len() && !is_whitespace_spec(s[i]) {
        lemma_word_end_bounds(s, i + 1);
    }
}

/// The maximal runs of non-whitespace characters of `s` from index `i` on.
pub open spec fn words_from(s: Seq<char>, i: int) -> Seq<Seq<char>>
    decreases s.len() - i,
{
    if 0 <= i < s.len() {
        if is_whitespace_spec(s[i]) {
            words_from(s, i + 1)
        } else {
            proof {
                lemma_word_end_bounds(s, i);
            }
            seq![s.subrange(i, word_end(s, i))] + words_from(s, word_end(s, i))
        }
    } else {
        Seq::empty()
    }
}

/// The words with one space between neighbours.
pub open spec fn join_words(words: Seq<Seq<char>>) -> Seq<char>
    decreases words.len(),
{
    if words.len() == 0 {
        Seq::empty()
    } else if words.len() == 1 {
        words[0]
    } else {
        join_words(words.drop_last()) + seq![' '] + words.last()
    }
}

/// `s` without whitespace at either end, each inner run of whitespace
/// replaced by one space.
pub open spec fn sanitized(s: Seq<char>) -> Seq<char> {
    join_words(words_from(s, 0))
}

/// `s` without whitespace at either end.
pub open spec fn trimmed(s: Seq<char>) -> Seq<char> {
    let start = skip_whitespace(s, 0);
    let end = trim_end(s, s.len() as int);
    if start < end {
        s.subrange(start, end)
    } else {
        Seq::empty()
    }
}

/// Whitespace at `i` does not count: the words from `i` on are those after
/// the whitespace that begins there, which ends within the text.
pub proof fn lemma_skip_whitespace_keeps_words(s: Seq<char>, i: int)
    requires
        0 <= i <= s.len(),
    ensures
        i <= skip_whitespace(s, i) <= s.len(),
        forall|k: int| i <= k < skip_whitespace(s, i) ==> is_whitespace_spec(s[k]),
        skip_whitespace(s, i) < s.len() ==> !is_whitespace_spec(s[skip_whitespace(s, i)]),
        words_from(s, i) == words_from(s, skip_whitespace(s, i)),
    decreases s.len() - i,
{
    if i < s.len() && is_whitespace_spec(s[i]) {
        lemma_skip_whitespace_keeps_words(s, i + 1);
    }
}

/// Between `trim_end(s, e)` and `e` there is only whitespace, and none
/// right before.
pub proof fn lemma_trim_end_bounds(s: Seq<char>, e: int)
    requires
        0 <= e <= s.len(),
    ensures
        0 <= trim_end(s, e) <= e,
        forall|k: int| trim_end(s, e) <= k < e ==> is_whitespace_spec(s[k]),
        trim_end(s, e) > 0 ==> !is_whitespace_spec(s[trim_end(s, e) - 1]),
    decreases e,
{
    if 0 < e && is_whitespace_spec(s[e - 1]) {
        lemma_trim_end_bounds(s, e - 1);
    }
}

/// Where only whitespace follows, no word does.
pub proof fn lemma_no_words_in_whitespace(s: Seq<char>, i: int)
    requires
        0 <= i,
        forall|k: int| i <= k < s.len() ==> is_whitespace_spec(s[k]),
    ensures
        words_from(s, i) == Seq::<Seq<char>>::empty(),
    decreases s.len() - i,
{
    if i < s.len() {
        lemma_no_words_in_whitespace(s, i + 1);
    }
}

/// A word that begins before `b` ends by `b` where `b` holds whitespace or
/// is the end, and it ends at the same place in the part of the text from
/// `a` to `b`.
pub proof fn lemma_word_end_in_subrange(s: Seq<char>, a: int, b: int, i: int)
    requires
        0 <= a <= i <= b <= s.len(),
        b < s.len() ==> is_whitespace_spec(s[b]),
    ensures
        word_end(s, i) <= b,
        word_end(s.subrange(a, b), i - a) == word_end(s, i) - a,
    decreases b - i,
{
    let part = s.subrange(a, b);
    if i < b && !is_whitespace_spec(s[i]) {
        assert(part[i - a] == s[i]);
        lemma_word_end_in_subrange(s, a, b, i + 1);
    } else if i < b {
        assert(part[i - a] == s[i]);
    }
}

/// The words from `i` on are those of the part of the text from `a` to `b`,
/// where only whitespace follows `b`.
pub proof fn lemma_words_in_subrange(s: Seq<char>, a: int, b: int, i: int)
    requires
        0 <= a <= i <= b <= s.len(),
        forall|k: int| b <= k < s.len() ==> is_whitespace_spec(s[k]),
    ensures
        words_from(s, i) == words_from(s.subrange(a, b), i - a),
    decreases b - i,
{
    let part = s.subrange(a, b);
    if i == b {
        lemma_no_words_in_whitespace(s, b);
    } else if is_whitespace_spec(s[i]) {
        assert(part[i - a] == s[i]);
        lemma_words_in_subrange(s, a, b, i + 1);
    } else {
        assert(part[i - a] == s[i]);
        lemma_word_end_in_subrange(s, a, b, i);
        lemma_word_end_bounds(s, i);
        let end = word_end(s, i);
        assert(part.subrange(i - a, end - a) == s.subrange(i, end));
        lemma_words_in_subrange(s, a, b, end);
    }
}

/// Trimming a text first changes nothing in its canonical form: the words
/// are the same.
pub proof fn lemma_trimming_keeps_words(s: Seq<char>)
    ensures
        words_from(trimmed(s), 0) == words_from(s, 0),
        sanitized(trimmed(s)) == sanitized(s),
{
    let start = skip_whitespace(s, 0);
    let end = trim_end(s, s.len() as int);
    lemma_skip_whitespace_keeps_words(s, 0);
    lemma_trim_end_bounds(s, s.len() as int);
    if start < end {
        lemma_words_in_subrange(s, start, end, start);
    } else {
        assert forall|k: int| start <= k < s.len() implies is_whitespace_spec(s[k]) by {
            if start < s.len() {
                assert(end <= start < s.len());
            }
        }
        lemma_no_words_in_whitespace(s, start);
    }
}

/// Removes leading and trailing whitespace.
pub fn trim(s: &str) -> (r: String)
    ensures
        r@ == trimmed(s@),
{
    let chars = to_chars(s);
    let mut start: usize = 0;
    while start < chars.len() && is_whitespace(chars[start])
        invariant
            0 <= start <= chars.len(),
            skip_whitespace(chars@, 0) == skip_whitespace(chars@, start as int),
        decreases chars.len() - start,
    {
        start = start + 1;
    }
    let mut end: usize = chars.len();
    while end > 0 && is_whitespace(chars[end - 1])
        invariant
            0 <= end <= chars.len(),
            trim_end(chars@, chars.len() as int) == trim_end(chars@, end as int),
        decreases end,
    {
        end = end - 1;
    }
    if start < end {
        from_chars(&chars, start, end)
    } else {
        String::new()
    }
}

/// Canonical whitespace for a seed phrase: the words in order, one space
/// between them. Words and their letter case are kept as they are.
pub fn sanitize_seed_phrase(seed_phrase: &str) -> (r: String)
    ensures
        r@ == sanitized(seed_phrase@),
{
    let chars = to_chars(seed_phrase);
    let ghost s = chars@;
    let mut out = String::new();
    let mut first: bool = true;
    let mut i: usize = 0;
    let ghost mut done: Seq<Seq<char>> = Seq::empty();
    while i < chars.len()
        invariant
            0 <= i <= chars.len(),
            s == chars@,
            words_from(s, 0) == done + words_from(s, i as int),
            out@ == join_words(done),
            first == (done.len() == 0),
        decreases chars.len() - i,
    {
        if is_whitespace(chars[i]) {
            i = i + 1;
        } else {
            let start: usize = i;
            if !first {
                out.push(' ');
            }
            let ghost prefix = out@;
            while i < chars.len() && !is_whitespace(chars[i])
                invariant
                    start <= i <= chars.len(),
                    s == chars@,
                    word_end(s, start as int) == word_end(s, i as int),
                    out@ == prefix + s.subrange(start as int, i as int),
                decreases chars.len() - i,
            {
                out.push(chars[i]);
                proof {
                    assert(s.subrange(start as int, i as int + 1) == s.subrange(
                        start as int,
                        i as int,
                    ).push(s[i as int]));
                }
                i = i + 1;
            }
            proof {
                let word = s.subrange(start as int, i as int);
                assert(word_end(s, start as int) == i);
                let grown = done.push(word);
                assert(grown.drop_last() == done);
                assert(grown.last() == word);
                if first {
                    assert(prefix == Seq::<char>::empty());
                    assert(out@ == word);
                } else {
                    assert(out@ == join_words(done) + seq![' '] + word);
                }
                assert(out@ == join_words(grown));
                assert(words_from(s, start as int) == seq![word] + words_from(s, i as int));
                assert(done + (seq![word] + words_from(s, i as int)) == grown + words_from(
                    s,
                    i as int,
                ));
                done = grown;
            }
            first = false;
        }
    }
    proof {
        assert(done + Seq::<Seq<char>>::empty() == done);
    }
    out
}

/// The lower-case form of an ASCII letter; any other character unchanged.
pub open spec fn ascii_lower(c: char) -> char {
    if 'A' <= c <= 'Z' {
        ((c as u8) + 32) as u8 as char
    } else {
        c
    }
}

/// `s` with every ASCII capital replaced by its lower-case letter.
pub open spec fn ascii_lowercase(s: Seq<char>) -> Seq<char> {
    s.map_values(|c: char| ascii_lower(c))
}

pub fn to_ascii_lowercase(s: &str) -> (r: String)
    ensures
        r@ == ascii_lowercase(s@),
{
    let chars = to_chars(s);
    let mut out = String::new();
    let mut i: usize = 0;
    while i < chars.len()
        invariant
            0 <= i <= chars.len(),
            chars@ == s@,
            out@ == ascii_lowercase(s@).take(i as int),
        decreases chars.len() - i,
    {
        let c: char = chars[i];
        let lower: char = if 'A' <= c && c <= 'Z' {
            ((c as u8) + 32) as char
        } else {
            c
        };
        out.push(lower);
        proof {
            assert(ascii_lowercase(s@).take(i as int + 1) == ascii_lowercase(s@).take(
                i as int,
            ).push(lower));
        }
        i = i + 1;
    }
    proof {
        assert(ascii_lowercase(s@).take(chars.len() as int) == ascii_lowercase(s@));
    }
    out
}

/// The character of a decimal digit.
pub open spec fn digit_char(d: nat) -> char {
    (48 + d) as u8 as char
}

/// The decimal numeral of `n`, without leading zeros.
pub open spec fn decimal(n: nat) -> Seq<char>
    decreases n,
{
    if n < 10 {
        seq![digit_char(n)]
    } else {
        decimal(n / 10).push(digit_char(n % 10))
    }
}

/// Appends the decimal numeral of `n`.
pub fn push_decimal(out: &mut String, n: u64)
    ensures
        final(out)@ == old(out)@ + decimal(n as nat),
    decreases n,
{
    if n >= 10 {
        push_decimal(out, n / 10);
    }
    let digit: u8 = (n % 10) as u8;
    out.push((48 + digit) as char);
    proof {
        if n >= 10 {
            assert(old(out)@ + decimal(n as nat / 10).push(digit_char(n as nat % 10)) == (old(out)@
                + decimal(n as nat / 10)).push(digit_char(n as nat % 10)));
        } else {
            assert(old(out)@ + seq![digit_char(n as nat)] == old(out)@.push(digit_char(n as nat)));
        }
    }
}

/// `s` without the single quotes that enclose it, however many pairs.
pub open spec fn unquoted(s: Seq<char>) -> Seq<char>
    decreases s.len(),
{
    if s.len() >= 2 && s.first() == '\'' && s.last() == '\'' {
        unquoted(s.subrange(1, s.len() - 1))
    } else {
        s
    }
}

/// `s` with every backslash replaced by a slash.
pub open spec fn forward_slashed(s: Seq<char>) -> Seq<char> {
    s.map_values(|c: char| if c == '\\' { '/' } else { c })
}

/// A token as a Windows shell hands it on, in the form that tokens have
/// elsewhere: enclosing single quotes removed, backslashes turned into
/// slashes.
pub fn normalize_windows_token(token: &str) -> (r: String)
    ensures
        r@ == forward_slashed(unquoted(token@)),
{
    let chars = to_chars(token);
    let mut start: usize = 0;
    let mut end: usize = chars.len();
    proof {
        assert(chars@.subrange(0, chars.len() as int) == chars@);
    }
    while end - start >= 2 && chars[start] == '\'' && chars[end - 1] == '\''
        invariant
            0 <= start <= end <= chars.len(),
            unquoted(chars@) == unquoted(chars@.subrange(start as int, end as int)),
        decreases end - start,
    {
        proof {
            assert(chars@.subrange(start as int, end as int).subrange(1, end - start - 1)
                == chars@.subrange(start as int + 1, end as int - 1));
        }
        start = start + 1;
        end = end - 1;
    }
    let ghost inner = chars@.subrange(start as int, end as int);
    let mut out = String::new();
    let mut i: usize = start;
    while i < end
        invariant
            start <= i <= end <= chars.len(),
            inner == chars@.subrange(start as int, end as int),
            out@ == forward_slashed(inner).take(i - start),
        decreases end - i,
    {
        let c: char = chars[i];
        let slashed: char = if c == '\\' {
            '/'
        } else {
            c
        };
        out.push(slashed);
        proof {
            assert(forward_slashed(inner).take(i - start + 1) == forward_slashed(inner).take(
                i - start,
            ).push(slashed));
        }
        i = i + 1;
    }
    proof {
        assert(forward_slashed(inner).take(end - start) == forward_slashed(inner));
    }
    out
}

} // verus!
