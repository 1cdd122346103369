//! Text as a sequence of characters: whitespace, trimming, searching, case,
//! and what a C string can hold.

use vstd::prelude::*;
use vstd::string::*;
use vstd::utf8::encode_utf8;

verus! {

/// Whether the character is whitespace: one of the twenty-five characters
/// with the Unicode property White_Space. These are the controls from tab to
/// carriage return, the space, next line, the no-break spaces, the Ogham space
/// mark, the spaces of fixed width, the line and paragraph separators, the
/// medium mathematical space and the ideographic space.
pub open spec fn is_whitespace(c: char) -> bool {
    let u = c as u32;
    ||| 0x09 <= u <= 0x0D
    ||| u == 0x20
    ||| u == 0x85
    ||| u == 0xA0
    ||| u == 0x1680
    ||| 0x2000 <= u <= 0x200A
    ||| u == 0x2028
    ||| u == 0x2029
    ||| u == 0x202F
    ||| u == 0x205F
    ||| u == 0x3000
}

/// Whether the character is whitespace.
pub fn is_white_space(c: char) -> (r: bool)
    ensures
        r == is_whitespace(c),
{
    let u = c as u32;
    (0x09 <= u && u <= 0x0D) || u == 0x20 || u == 0x85 || u == 0xA0 || u == 0x1680 || (0x2000
        <= u && u <= 0x200A) || u == 0x2028 || u == 0x2029 || u == 0x202F || u == 0x205F || u
        == 0x3000
}

/// The text that `str::to_lowercase` makes of a text.
pub uninterp spec fn lowercase(text: Seq<char>) -> Seq<char>;

/// `str::to_lowercase` returns the lowercase equivalent of the text as a new
/// string. The result depends on the characters alone.
pub assume_specification[ str::to_lowercase ](s: &str) -> (r: String)
    ensures
        r@ == lowercase(s@),
;

/// Every character of the text is whitespace (so the empty text is blank).
pub open spec fn blank(s: Seq<char>) -> bool {
    forall|i: int| 0 <= i < s.len() ==> is_whitespace(#[trigger] s[i])
}

/// The number of whitespace characters at the start of the text.
pub open spec fn leading_whitespace(s: Seq<char>) -> nat
    decreases s.len(),
{
    if s.len() > 0 && is_whitespace(s.first()) {
        1 + leading_whitespace(s.drop_first())
    } else {
        0
    }
}

/// The number of whitespace characters at the end of the text.
pub open spec fn trailing_whitespace(s: Seq<char>) -> nat
    decreases s.len(),
{
    if s.len() > 0 && is_whitespace(s.last()) {
        1 + trailing_whitespace(s.drop_last())
    } else {
        0
    }
}

/// The text without its leading and trailing whitespace.
pub open spec fn trim(s: Seq<char>) -> Seq<char> {
    let rest = s.skip(leading_whitespace(s) as int);
    rest.take(rest.len() - trailing_whitespace(rest))
}

/// The index of the first `c` in the text, or the length of the text where
/// there is none.
pub open spec fn find(s: Seq<char>, c: char) -> int
    decreases s.len(),
{
    if s.len() == 0 || s.first() == c {
        0
    } else {
        1 + find(s.drop_first(), c)
    }
}

/// The leading whitespace ends at the first character that is not whitespace.
pub proof fn lemma_leading_whitespace(s: Seq<char>, a: int)
    requires
        0 <= a <= s.len(),
        forall|i: int| 0 <= i < a ==> is_whitespace(#[trigger] s[i]),
        a == s.len() || !is_whitespace(s[a]),
    ensures
        leading_whitespace(s) == a,
    decreases a,
{
    if a > 0 {
        let rest = s.drop_first();
        assert forall|i: int| 0 <= i < a - 1 implies is_whitespace(#[trigger] rest[i]) by {
            assert(rest[i] == s[i + 1]);
        }
        lemma_leading_whitespace(rest, a - 1);
    }
}

/// The trailing whitespace starts after the last character that is not
/// whitespace.
pub proof fn lemma_trailing_whitespace(s: Seq<char>, b: int)
    requires
        0 <= b <= s.len(),
        forall|i: int| b <= i < s.len() ==> is_whitespace(#[trigger] s[i]),
        b == 0 || !is_whitespace(s[b - 1]),
    ensures
        trailing_whitespace(s) == s.len() - b,
    decreases s.len() - b,
{
    if b < s.len() {
        let rest = s.drop_last();
        assert forall|i: int| b <= i < rest.len() implies is_whitespace(#[trigger] rest[i]) by {
            assert(rest[i] == s[i]);
        }
        lemma_trailing_whitespace(rest, b);
    }
}

/// `find` is the position before which no `c` stands and at which one does,
/// unless the text ends there.
pub proof fn lemma_find(s: Seq<char>, c: char, k: int)
    requires
        0 <= k <= s.len(),
        forall|i: int| 0 <= i < k ==> #[trigger] s[i] != c,
        k == s.len() || s[k] == c,
    ensures
        find(s, c) == k,
    decreases k,
{
    if k > 0 {
        let rest = s.drop_first();
        assert forall|i: int| 0 <= i < k - 1 implies #[trigger] rest[i] != c by {
            assert(rest[i] == s[i + 1]);
        }
        lemma_find(rest, c, k - 1);
    }
}

/// `find` stays inside the text, no `c` stands before it, and one stands at it
/// unless the text ends there.
pub proof fn lemma_find_bounds(s: Seq<char>, c: char)
    ensures
        0 <= find(s, c) <= s.len(),
        forall|i: int| 0 <= i < find(s, c) ==> #[trigger] s[i] != c,
        find(s, c) < s.len() ==> s[find(s, c)] == c,
    decreases s.len(),
{
    if s.len() > 0 && s.first() != c {
        let rest = s.drop_first();
        lemma_find_bounds(rest, c);
        assert forall|i: int| 0 <= i < find(s, c) implies #[trigger] s[i] != c by {
            if i > 0 {
                assert(s[i] == rest[i - 1]);
            }
        }
    }
}

/// A blank text trims to nothing, and only a blank text does.
pub proof fn lemma_trim_blank(s: Seq<char>)
    ensures
        blank(s) <==> trim(s).len() == 0,
{
    lemma_leading_bounds(s);
    let a = leading_whitespace(s) as int;
    let rest = s.skip(a);
    lemma_trailing_bounds(rest);
    if blank(s) {
        lemma_leading_whitespace(s, s.len() as int);
    } else {
        let i = choose|i: int| 0 <= i < s.len() && !is_whitespace(#[trigger] s[i]);
        assert(a <= i);
        assert(rest[0] == s[a]);
        if trailing_whitespace(rest) == rest.len() {
            assert(is_whitespace(rest[0]));
        }
    }
}

/// The leading whitespace is whitespace, and what follows it is not.
pub proof fn lemma_leading_bounds(s: Seq<char>)
    ensures
        leading_whitespace(s) <= s.len(),
        forall|i: int| 0 <= i < leading_whitespace(s) ==> is_whitespace(#[trigger] s[i]),
        leading_whitespace(s) < s.len() ==> !is_whitespace(s[leading_whitespace(s) as int]),
    decreases s.len(),
{
    if s.len() > 0 && is_whitespace(s.first()) {
        let rest = s.drop_first();
        lemma_leading_bounds(rest);
        assert forall|i: int| 0 <= i < leading_whitespace(s) implies is_whitespace(
            #[trigger] s[i],
        ) by {
            if i > 0 {
                assert(s[i] == rest[i - 1]);
            }
        }
    }
}

/// The trailing whitespace is whitespace, and what precedes it is not.
pub proof fn lemma_trailing_bounds(s: Seq<char>)
    ensures
        trailing_whitespace(s) <= s.len(),
        forall|i: int|
            s.len() - trailing_whitespace(s) <= i < s.len() ==> is_whitespace(#[trigger] s[i]),
        trailing_whitespace(s) < s.len() ==> !is_whitespace(
            s[s.len() - trailing_whitespace(s) - 1],
        ),
    decreases s.len(),
{
    if s.len() > 0 && is_whitespace(s.last()) {
        let rest = s.drop_last();
        lemma_trailing_bounds(rest);
        assert forall|i: int|
            s.len() - trailing_whitespace(s) <= i < s.len() implies is_whitespace(
            #[trigger] s[i],
        ) by {
            if i < s.len() - 1 {
                assert(s[i] == rest[i]);
            }
        }
    }
}

/// A text holds the character NUL, which no C string can hold.
pub open spec fn has_nul(s: Seq<char>) -> bool {
    exists|i: int| 0 <= i < s.len() && #[trigger] s[i] == '\0'
}

/// Whether the text holds the character NUL.
pub fn contains_nul(text: &str) -> (r: bool)
    ensures
        r == has_nul(text@),
{
    for c in it: text.chars()
        invariant
            it.seq() == text@,
            forall|i: int| 0 <= i < it.index() ==> #[trigger] text@[i] != '\0',
    {
        if c == '\0' {
            assert(text@[it.index() as int] == '\0');
            return true;
        }
    }
    false
}

/// The index of the first zero among the bytes, or their number where there
/// is none.
pub open spec fn first_zero(bytes: Seq<u8>) -> int
    decreases bytes.len(),
{
    if bytes.len() == 0 || bytes.first() == 0 {
        0
    } else {
        1 + first_zero(bytes.drop_first())
    }
}

/// Where a C string made of the text would end early: the index of the first
/// zero byte of its UTF-8 encoding.
pub open spec fn nul_position(text: Seq<char>) -> int {
    first_zero(encode_utf8(text))
}

/// `first_zero` is the position before which no zero stands and at which one
/// does, unless the bytes end there.
pub proof fn lemma_first_zero(bytes: Seq<u8>, k: int)
    requires
        0 <= k <= bytes.len(),
        forall|i: int| 0 <= i < k ==> #[trigger] bytes[i] != 0,
        k == bytes.len() || bytes[k] == 0,
    ensures
        first_zero(bytes) == k,
    decreases k,
{
    if k > 0 {
        let rest = bytes.drop_first();
        assert forall|i: int| 0 <= i < k - 1 implies #[trigger] rest[i] != 0 by {
            assert(rest[i] == bytes[i + 1]);
        }
        lemma_first_zero(rest, k - 1);
    }
}

/// The index of the first zero byte of the text, or the number of its bytes
/// where there is none.
pub fn nul_byte_position(text: &str) -> (p: usize)
    ensures
        p == nul_position(text@),
{
    let bytes = text.as_bytes();
    let mut k: usize = 0;
    while k < bytes.len() && bytes[k] != 0
        invariant
            k <= bytes.len(),
            bytes@ == encode_utf8(text@),
            forall|i: int| 0 <= i < k ==> #[trigger] bytes@[i] != 0,
        decreases bytes.len() - k,
    {
        k += 1;
    }
    proof {
        lemma_first_zero(bytes@, k as int);
    }
    k
}

/// The text of a digit.
pub open spec fn digit_text(d: nat) -> Seq<char> {
    if d == 0 {
        "0"@
    } else if d == 1 {
        "1"@
    } else if d == 2 {
        "2"@
    } else if d == 3 {
        "3"@
    } else if d == 4 {
        "4"@
    } else if d == 5 {
        "5"@
    } else if d == 6 {
        "6"@
    } else if d == 7 {
        "7"@
    } else if d == 8 {
        "8"@
    } else {
        "9"@
    }
}

/// A number in decimal, without leading zeros.
pub open spec fn decimal_text(n: nat) -> Seq<char>
    decreases n,
{
    if n < 10 {
        digit_text(n)
    } else {
        decimal_text(n / 10) + digit_text(n % 10)
    }
}

/// The text of a digit.
fn digit(d: usize) -> (r: &'static str)
    requires
        d < 10,
    ensures
        r@ == digit_text(d as nat),
{
    if d == 0 {
        "0"
    } else if d == 1 {
        "1"
    } else if d == 2 {
        "2"
    } else if d == 3 {
        "3"
    } else if d == 4 {
        "4"
    } else if d == 5 {
        "5"
    } else if d == 6 {
        "6"
    } else if d == 7 {
        "7"
    } else if d == 8 {
        "8"
    } else {
        "9"
    }
}

/// Writes a number in decimal.
pub fn decimal(n: usize) -> (r: String)
    ensures
        r@ == decimal_text(n as nat),
    decreases n,
{
    if n < 10 {
        String::from_str(digit(n))
    } else {
        decimal(n / 10).concat(digit(n % 10))
    }
}

/// Whether two texts are equal.
pub fn text_eq(a: &str, b: &str) -> (r: bool)
    ensures
        r == (a@ == b@),
{
    String::from_str(a) == String::from_str(b)
}

/// The characters of a string, in order.
pub fn chars_of(text: &str) -> (chars: Vec<char>)
    ensures
        chars@ == text@,
{
    let mut chars: Vec<char> = Vec::new();
    for c in it: text.chars()
        invariant
            it.seq() == text@,
            chars@ == text@.take(it.index() as int),
    {
        chars.push(c);
    }
    assert(chars@ == text@);
    chars
}

/// Whether the text holds nothing but whitespace.
pub fn is_blank(text: &str) -> (r: bool)
    ensures
        r == blank(text@),
{
    for c in it: text.chars()
        invariant
            it.seq() == text@,
            blank(text@.take(it.index() as int)),
    {
        if !is_white_space(c) {
            assert(!is_whitespace(text@[it.index() as int]));
            return false;
        }
        assert(text@.take(it.index() + 1) == text@.take(it.index() as int).push(c));
    }
    assert(text@.take(text@.len() as int) == text@);
    true
}

/// The first position in `from..to` at which `c` stands, or `to`.
pub(crate) fn find_in(chars: &Vec<char>, from: usize, to: usize, c: char) -> (k: usize)
    requires
        from <= to <= chars.len(),
    ensures
        from <= k <= to,
        k - from == find(chars@.subrange(from as int, to as int), c),
{
    let mut k: usize = from;
    while k < to && chars[k] != c
        invariant
            from <= k <= to <= chars.len(),
            forall|i: int| from <= i < k ==> #[trigger] chars@[i] != c,
        decreases to - k,
    {
        k += 1;
    }
    proof {
        lemma_find(chars@.subrange(from as int, to as int), c, k - from);
    }
    k
}

/// The bounds of what is left of `from..to` once its leading and trailing
/// whitespace is gone.
pub(crate) fn trim_range(chars: &Vec<char>, from: usize, to: usize) -> (r: (usize, usize))
    requires
        from <= to <= chars.len(),
    ensures
        from <= r.0 <= r.1 <= to,
        chars@.subrange(r.0 as int, r.1 as int) == trim(chars@.subrange(from as int, to as int)),
{
    let mut a: usize = from;
    while a < to && is_white_space(chars[a])
        invariant
            from <= a <= to <= chars.len(),
            forall|i: int| from <= i < a ==> is_whitespace(#[trigger] chars@[i]),
        decreases to - a,
    {
        a += 1;
    }
    let mut b: usize = to;
    while b > a && is_white_space(chars[b - 1])
        invariant
            a <= b <= to <= chars.len(),
            forall|i: int| b <= i < to ==> is_whitespace(#[trigger] chars@[i]),
        decreases b,
    {
        b -= 1;
    }
    proof {
        let s = chars@.subrange(from as int, to as int);
        lemma_leading_whitespace(s, a - from);
        let rest = s.skip(a - from);
        assert(rest == chars@.subrange(a as int, to as int));
        lemma_trailing_whitespace(rest, b - a);
        assert(rest.take(b - a) == chars@.subrange(a as int, b as int));
    }
    (a, b)
}

} // verus!
