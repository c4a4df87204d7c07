//! Small operations on text that the rest of the library builds on: blanks,
//! trimming, comparison, and decimal digits.

use vstd::prelude::*;
use vstd::string::*;

verus! {

/// Whether `c` has the Unicode property White_Space.
pub open spec fn is_white_space(c: char) -> bool {
    let u = c as int;
    ||| 0x09 <= u <= 0x0D
    ||| u == 0x20
    ||| u == 0x85
    ||| u == 0xA0
    ||| u == 0x1680
    ||| 0x2000 <= u <= 0x200A
    ||| u == 0x2028
    ||| u == 0x2029
    ||| u == 0x202F
    ||| u == 0x205F
    ||| u == 0x3000
}

/// Whether `s` holds nothing but white space; the empty text is blank.
pub open spec fn is_blank(s: Seq<char>) -> bool {
    forall|i: int| 0 <= i < s.len() ==> is_white_space(#[trigger] s[i])
}

/// Index of the first character of `s` that is not white space, or the
/// length of `s` when there is none.
pub open spec fn leading_blanks(s: Seq<char>) -> int
    decreases s.len(),
{
    if s.len() == 0 || !is_white_space(s[0]) {
        0
    } else {
        1 + leading_blanks(s.drop_first())
    }
}

/// Number of white-space characters at the end of `s`.
pub open spec fn trailing_blanks(s: Seq<char>) -> int
    decreases s.len(),
{
    if s.len() == 0 || !is_white_space(s.last()) {
        0
    } else {
        1 + trailing_blanks(s.drop_last())
    }
}

/// `s` without its leading and trailing white space.
pub open spec fn trimmed(s: Seq<char>) -> Seq<char> {
    let start = leading_blanks(s);
    if start == s.len() {
        Seq::empty()
    } else {
        s.subrange(start, s.len() - trailing_blanks(s))
    }
}

/// Whether `c` is one of the ten digits `0` to `9`.
pub open spec fn is_digit(c: char) -> bool {
    '0' <= c <= '9'
}

/// The number that the digit `c` stands for.
pub open spec fn digit_value(c: char) -> int {
    c as int - '0' as int
}

/// The digit that stands for `d`, for `d` from 0 to 9.
pub open spec fn digit_char(d: int) -> char {
    if d == 0 {
        '0'
    } else if d == 1 {
        '1'
    } else if d == 2 {
        '2'
    } else if d == 3 {
        '3'
    } else if d == 4 {
        '4'
    } else if d == 5 {
        '5'
    } else if d == 6 {
        '6'
    } else if d == 7 {
        '7'
    } else if d == 8 {
        '8'
    } else {
        '9'
    }
}

/// Whether `c` is white space in the sense of Unicode.
pub fn char_is_white_space(c: char) -> (b: bool)
    ensures
        b == is_white_space(c),
{
    let u: u32 = c as u32;
    (0x09 <= u && u <= 0x0D) || u == 0x20 || u == 0x85 || u == 0xA0 || u == 0x1680 || (0x2000 <= u
        && u <= 0x200A) || u == 0x2028 || u == 0x2029 || u == 0x202F || u == 0x205F || u == 0x3000
}

/// The value of `c` as a decimal digit, or `None` when it is not one.
pub fn char_digit(c: char) -> (d: Option<u8>)
    ensures
        d is Some <==> is_digit(c),
        d is Some ==> d->0 == digit_value(c) && d->0 <= 9,
{
    if c >= '0' && c <= '9' {
        let u: u32 = c as u32;
        Some((u - 48) as u8)
    } else {
        None
    }
}

/// The one-character text of the digit `d`.
pub(crate) fn digit_text(d: u8) -> (t: &'static str)
    requires
        d <= 9,
    ensures
        t@ == seq![digit_char(d as int)],
{
    proof {
        reveal_strlit("0");
        reveal_strlit("1");
        reveal_strlit("2");
        reveal_strlit("3");
        reveal_strlit("4");
        reveal_strlit("5");
        reveal_strlit("6");
        reveal_strlit("7");
        reveal_strlit("8");
        reveal_strlit("9");
    }
    let t = match d {
        0 => "0",
        1 => "1",
        2 => "2",
        3 => "3",
        4 => "4",
        5 => "5",
        6 => "6",
        7 => "7",
        8 => "8",
        _ => "9",
    };
    assert(t@ =~= seq![digit_char(d as int)]);
    t
}

/// Whether two texts hold the same characters.
pub fn text_equal(a: &str, b: &str) -> (same: bool)
    ensures
        same == (a@ == b@),
{
    let n: usize = a.unicode_len();
    if n != b.unicode_len() {
        return false;
    }
    let mut i: usize = 0;
    while i < n
        invariant
            i <= n,
            n == a@.len(),
            n == b@.len(),
            forall|j: int| 0 <= j < i ==> a@[j] == b@[j],
        decreases n - i,
    {
        if a.get_char(i) != b.get_char(i) {
            return false;
        }
        i += 1;
    }
    assert(a@ =~= b@);
    true
}

/// Whether `text` holds nothing but white space.
pub fn text_is_blank(text: &str) -> (blank: bool)
    ensures
        blank == is_blank(text@),
{
    let n: usize = text.unicode_len();
    let mut i: usize = 0;
    while i < n
        invariant
            i <= n,
            n == text@.len(),
            forall|j: int| 0 <= j < i ==> is_white_space(#[trigger] text@[j]),
        decreases n - i,
    {
        if !char_is_white_space(text.get_char(i)) {
            return false;
        }
        i += 1;
    }
    true
}

/// `text` without its leading and trailing white space.
pub fn trim_text(text: &str) -> (inner: &str)
    ensures
        inner@ == trimmed(text@),
{
    let n: usize = text.unicode_len();
    let mut start: usize = 0;
    while start < n && char_is_white_space(text.get_char(start))
        invariant
            start <= n,
            n == text@.len(),
            forall|j: int| 0 <= j < start ==> is_white_space(#[trigger] text@[j]),
        decreases n - start,
    {
        start += 1;
    }
    proof {
        lemma_leading_blanks(text@, start as int);
    }
    if start == n {
        let inner = text.substring_char(0, 0);
        assert(inner@ =~= Seq::<char>::empty());
        return inner;
    }
    let mut end: usize = n;
    while end > start && char_is_white_space(text.get_char(end - 1))
        invariant
            start < end <= n,
            n == text@.len(),
            !is_white_space(text@[start as int]),
            forall|j: int| end <= j < n ==> is_white_space(#[trigger] text@[j]),
        decreases end,
    {
        end -= 1;
    }
    proof {
        lemma_trailing_blanks(text@, n - end);
    }
    text.substring_char(start, end)
}

/// `leading_blanks` is the index `k` at which the first run of white space
/// ends.
pub proof fn lemma_leading_blanks(s: Seq<char>, k: int)
    requires
        0 <= k <= s.len(),
        forall|j: int| 0 <= j < k ==> is_white_space(#[trigger] s[j]),
        k < s.len() ==> !is_white_space(s[k]),
    ensures
        leading_blanks(s) == k,
    decreases s.len(),
{
    if k > 0 {
        let rest = s.drop_first();
        assert forall|j: int| 0 <= j < k - 1 implies is_white_space(#[trigger] rest[j]) by {
            assert(rest[j] == s[j + 1]);
        }
        if k - 1 < rest.len() {
            assert(rest[k - 1] == s[k]);
        }
        lemma_leading_blanks(rest, k - 1);
    }
}

/// `trailing_blanks` is the length `k` of the last run of white space.
pub proof fn lemma_trailing_blanks(s: Seq<char>, k: int)
    requires
        0 <= k <= s.len(),
        forall|j: int| s.len() - k <= j < s.len() ==> is_white_space(#[trigger] s[j]),
        k < s.len() ==> !is_white_space(s[s.len() - k - 1]),
    ensures
        trailing_blanks(s) == k,
    decreases s.len(),
{
    if k > 0 {
        let rest = s.drop_last();
        assert forall|j: int| rest.len() - (k - 1) <= j < rest.len() implies is_white_space(
            #[trigger] rest[j],
        ) by {
            assert(rest[j] == s[j]);
        }
        if k - 1 < rest.len() {
            assert(rest[rest.len() - (k - 1) - 1] == s[s.len() - k - 1]);
        }
        lemma_trailing_blanks(rest, k - 1);
    }
}

/// A text is blank exactly when trimming leaves nothing of it.
pub proof fn lemma_blank_iff_trimmed_empty(s: Seq<char>)
    ensures
        is_blank(s) <==> trimmed(s).len() == 0,
{
    if is_blank(s) {
        lemma_leading_blanks(s, s.len() as int);
    } else {
        let k = choose|k: int| 0 <= k < s.len() && !is_white_space(#[trigger] s[k]);
        lemma_blanks_stop_before(s, k);
        lemma_blanks_stop_after(s, k);
    }
}

/// The leading run of white space ends at or before any character that is
/// not white space.
pub proof fn lemma_blanks_stop_before(s: Seq<char>, k: int)
    requires
        0 <= k < s.len(),
        !is_white_space(s[k]),
    ensures
        0 <= leading_blanks(s) <= k,
    decreases s.len(),
{
    if k > 0 && is_white_space(s[0]) {
        let rest = s.drop_first();
        assert(rest[k - 1] == s[k]);
        lemma_blanks_stop_before(rest, k - 1);
    }
}

/// The trailing run of white space starts after any character that is not
/// white space.
pub proof fn lemma_blanks_stop_after(s: Seq<char>, k: int)
    requires
        0 <= k < s.len(),
        !is_white_space(s[k]),
    ensures
        0 <= trailing_blanks(s) <= s.len() - k - 1,
    decreases s.len(),
{
    if k < s.len() - 1 && is_white_space(s.last()) {
        let rest = s.drop_last();
        assert(rest[k] == s[k]);
        lemma_blanks_stop_after(rest, k);
    }
}

/// A text that neither starts nor ends with white space is its own trimmed
/// form.
pub proof fn lemma_trimmed_of_tight(s: Seq<char>)
    requires
        s.len() > 0,
        !is_white_space(s[0]),
        !is_white_space(s.last()),
    ensures
        trimmed(s) == s,
{
    assert(s.subrange(0, s.len() as int) =~= s);
}

} // verus!
