//! Text building blocks: equality, decimal rendering, padding, trimming,
//! capitalisation and line scanning.
use vstd::prelude::*;

verus! {

/// Compares two string slices with `<str as PartialEq>::eq`.
/// Trusted: std's `==` on `str` is true exactly when both hold the same characters.
#[verifier::external_body]
pub(crate) fn str_eq(a: &str, b: &str) -> (r: bool)
    ensures
        r == (a@ == b@),
{
    a == b
}

/// Appends one character with `String::push`.
/// Trusted: std documents that `push` appends the character to the end of the string.
#[verifier::external_body]
pub(crate) fn push_char(s: &mut String, c: char)
    ensures
        final(s)@ == old(s)@.push(c),
{
    s.push(c)
}

/// Whether `char::is_whitespace` holds of a character (the Unicode `White_Space` property).
pub uninterp spec fn is_white_space(c: char) -> bool;

/// Calls `char::is_whitespace`.
/// Trusted: the result is the Unicode `White_Space` property of `c` (std's
/// documented meaning), named `is_white_space`. Space, tab, line feed and
/// carriage return have that property, and no ASCII letter or digit has it;
/// which other characters have it is left to the name.
#[verifier::external_body]
pub(crate) fn is_whitespace(c: char) -> (r: bool)
    ensures
        r == is_white_space(c),
        (c == ' ' || c == '\t' || c == '\n' || c == '\r') ==> r,
        (('0' <= c && c <= '9') || ('a' <= c && c <= 'z') || ('A' <= c && c <= 'Z')) ==> !r,
{
    c.is_whitespace()
}

/// What `char::to_uppercase` yields for a non-ASCII character, collected into a string.
pub uninterp spec fn uppercase_of(c: char) -> Seq<char>;

/// Whether a character is ASCII.
pub open spec fn is_ascii_char(c: char) -> bool {
    (c as u32) < 128
}

/// Whether every character of a text is ASCII.
pub open spec fn all_ascii(s: Seq<char>) -> bool {
    forall|i: int| 0 <= i < s.len() ==> is_ascii_char(#[trigger] s[i])
}

/// The uppercase mapping of a character, as `char::to_uppercase` yields it:
/// for ASCII, `a` to `z` become `A` to `Z` and every other character stays;
/// beyond ASCII, the mapping named `uppercase_of`.
pub open spec fn uppercase_mapping(c: char) -> Seq<char> {
    if 'a' <= c && c <= 'z' {
        seq![((c as u32) - 32) as char]
    } else if is_ascii_char(c) {
        seq![c]
    } else {
        uppercase_of(c)
    }
}

/// Calls `char::to_uppercase` and collects the characters it yields.
/// Trusted: the result is the Unicode uppercase mapping of `c` (std's
/// documented meaning). Within ASCII, Unicode maps `a` to `z` to `A` to `Z`
/// and leaves every other character as it is (std's own examples: 'c' gives
/// "C", '1' gives "1"); beyond ASCII the mapping is named `uppercase_of`, of
/// which std documents only that it yields one or more characters.
#[verifier::external_body]
pub(crate) fn char_uppercase(c: char) -> (r: String)
    ensures
        r@ == uppercase_mapping(c),
        !is_ascii_char(c) ==> r@ == uppercase_of(c),
        r@.len() >= 1,
{
    c.to_uppercase().collect()
}

/// The ASCII digit that stands for `d` (`0 <= d < 10`).
pub open spec fn digit_char(d: int) -> char {
    (48 + d) as char
}

/// The decimal rendering of a natural number, without sign or leading zeros.
pub open spec fn decimal(n: nat) -> Seq<char>
    decreases n,
{
    if n < 10 {
        seq![digit_char(n as int)]
    } else {
        decimal(n / 10).push(digit_char((n % 10) as int))
    }
}

/// Renders `n` in decimal, as `format!("{}", n)` does.
pub fn decimal_string(n: u64) -> (r: String)
    ensures
        r@ == decimal(n as nat),
    decreases n,
{
    let d: u8 = (n % 10) as u8;
    let c: char = (d + 48) as char;
    if n < 10 {
        let mut s = String::new();
        push_char(&mut s, c);
        assert(s@ =~= seq![digit_char(n as int)]);
        s
    } else {
        let mut s = decimal_string(n / 10);
        push_char(&mut s, c);
        s
    }
}

/// A number rendered with at least two digits, as `format!("{:02}", n)` does.
pub open spec fn two_digits(n: nat) -> Seq<char> {
    if n < 10 {
        seq!['0', digit_char(n as int)]
    } else {
        decimal(n)
    }
}

/// Renders `n` with at least two digits, padding with a leading zero.
pub fn two_digit_string(n: u32) -> (r: String)
    ensures
        r@ == two_digits(n as nat),
{
    if n < 10 {
        let mut s = String::new();
        push_char(&mut s, '0');
        push_char(&mut s, ((n as u8) + 48) as char);
        assert(s@ =~= seq!['0', digit_char(n as int)]);
        s
    } else {
        decimal_string(n as u64)
    }
}

/// `n` spaces.
pub open spec fn spaces(n: nat) -> Seq<char> {
    Seq::new(n, |i: int| ' ')
}

/// `s` padded on the right with spaces to at least `width` characters, as
/// `format!("{:<width$}", s)` does.
pub open spec fn padded_right(s: Seq<char>, width: nat) -> Seq<char> {
    if s.len() >= width {
        s
    } else {
        s + spaces((width - s.len()) as nat)
    }
}

/// Pads `s` on the right with spaces to at least `width` characters.
pub fn pad_right(s: &str, width: usize) -> (r: String)
    ensures
        r@ == padded_right(s@, width as nat),
{
    let mut r = String::from_str(s);
    let n = s.unicode_len();
    let mut count = n;
    while count < width
        invariant
            n == s@.len(),
            count >= n,
            count <= width || count == n,
            r@ == s@ + spaces((count - n) as nat),
        decreases width - count,
    {
        push_char(&mut r, ' ');
        assert(spaces((count - n) as nat).push(' ') =~= spaces((count + 1 - n) as nat));
        count = count + 1;
    }
    if n >= width {
        assert(r@ =~= s@);
    }
    r
}

/// `s` written `n` times in a row.
pub open spec fn repeated(s: Seq<char>, n: nat) -> Seq<char>
    decreases n,
{
    if n == 0 {
        Seq::empty()
    } else {
        repeated(s, (n - 1) as nat) + s
    }
}

/// Writes `s` `n` times in a row, as `str::repeat` does.
pub fn repeat_str(s: &str, n: usize) -> (r: String)
    ensures
        r@ == repeated(s@, n as nat),
{
    let mut r = String::new();
    let mut i: usize = 0;
    while i < n
        invariant
            i <= n,
            r@ == repeated(s@, i as nat),
        decreases n - i,
    {
        r.append(s);
        i = i + 1;
    }
    r
}

/// `s` without its leading white space.
pub open spec fn trim_start(s: Seq<char>) -> Seq<char>
    decreases s.len(),
{
    if s.len() > 0 && is_white_space(s[0]) {
        trim_start(s.drop_first())
    } else {
        s
    }
}

/// `s` without its trailing white space.
pub open spec fn trim_end(s: Seq<char>) -> Seq<char>
    decreases s.len(),
{
    if s.len() > 0 && is_white_space(s.last()) {
        trim_end(s.drop_last())
    } else {
        s
    }
}

/// `s` without leading and trailing white space, as `str::trim` gives it.
pub open spec fn trimmed(s: Seq<char>) -> Seq<char> {
    trim_end(trim_start(s))
}

/// Removes leading and trailing white space.
pub fn trim(s: &str) -> (r: &str)
    ensures
        r@ == trimmed(s@),
{
    let n = s.unicode_len();
    let mut i: usize = 0;
    assert(s@.subrange(0, n as int) =~= s@);
    loop
        invariant
            n == s@.len(),
            i <= n,
            trim_start(s@) == trim_start(s@.subrange(i as int, n as int)),
        ensures
            i <= n,
            trim_start(s@) == s@.subrange(i as int, n as int),
        decreases n - i,
    {
        if i == n {
            break;
        }
        let c = s.get_char(i);
        if !is_whitespace(c) {
            break;
        }
        assert(s@.subrange(i as int, n as int).drop_first() =~= s@.subrange(i + 1, n as int));
        i = i + 1;
    }
    let mut j: usize = n;
    loop
        invariant
            n == s@.len(),
            i <= j <= n,
            trim_start(s@) == s@.subrange(i as int, n as int),
            trim_end(s@.subrange(i as int, n as int)) == trim_end(s@.subrange(i as int, j as int)),
        ensures
            i <= j <= n,
            trim_end(s@.subrange(i as int, n as int)) == s@.subrange(i as int, j as int),
        decreases j - i,
    {
        if j == i {
            assert(s@.subrange(i as int, j as int).len() == 0);
            break;
        }
        let c = s.get_char(j - 1);
        if !is_whitespace(c) {
            assert(s@.subrange(i as int, j as int).last() == c);
            break;
        }
        assert(s@.subrange(i as int, j as int).drop_last() =~= s@.subrange(i as int, j - 1));
        j = j - 1;
    }
    s.substring_char(i, j)
}

/// `s` with its first character replaced by that character's uppercase mapping.
pub open spec fn capitalized(s: Seq<char>) -> Seq<char> {
    if s.len() == 0 {
        Seq::empty()
    } else {
        uppercase_mapping(s[0]) + s.drop_first()
    }
}

/// Upper-cases the first character of `s` and keeps the rest.
pub fn capitalize(s: &str) -> (r: String)
    ensures
        r@ == capitalized(s@),
{
    let n = s.unicode_len();
    if n == 0 {
        String::new()
    } else {
        let mut r = char_uppercase(s.get_char(0));
        let rest = s.substring_char(1, n);
        r.append(rest);
        assert(rest@ =~= s@.drop_first());
        r
    }
}

/// Scans the lines of a text (split at `'\n'`): `current` is the part of the
/// line read so far, `rest` the text after it. Gives the first line whose
/// trimmed text is not empty, trimmed.
pub open spec fn first_filled_line_from(current: Seq<char>, rest: Seq<char>) -> Option<Seq<char>>
    decreases rest.len(),
{
    if rest.len() == 0 || rest[0] == '\n' {
        if trimmed(current).len() > 0 {
            Some(trimmed(current))
        } else if rest.len() == 0 {
            None
        } else {
            first_filled_line_from(Seq::empty(), rest.drop_first())
        }
    } else {
        first_filled_line_from(current.push(rest[0]), rest.drop_first())
    }
}

/// The first line of `s` that holds more than white space, trimmed, as
/// `s.lines().find(|l| !l.trim().is_empty()).map(str::trim)` gives it.
pub open spec fn first_filled_line(s: Seq<char>) -> Option<Seq<char>> {
    first_filled_line_from(Seq::empty(), s)
}

/// Finds the first line of `s` that holds more than white space, and trims it.
pub fn first_filled_line_of(s: &str) -> (r: Option<String>)
    ensures
        match r {
            Some(line) => first_filled_line(s@) == Some(line@),
            None => first_filled_line(s@) is None,
        },
{
    let n = s.unicode_len();
    let mut current = String::new();
    let mut i: usize = 0;
    assert(s@.skip(0) =~= s@);
    assert(current@ =~= Seq::<char>::empty());
    while i < n
        invariant
            n == s@.len(),
            i <= n,
            first_filled_line(s@) == first_filled_line_from(current@, s@.skip(i as int)),
        decreases n - i,
    {
        let c = s.get_char(i);
        assert(s@.skip(i as int)[0] == c);
        assert(s@.skip(i as int).drop_first() =~= s@.skip(i + 1));
        if c == '\n' {
            let line = trim(current.as_str());
            if line.unicode_len() > 0 {
                return Some(String::from_str(line));
            }
            current = String::new();
            assert(current@ =~= Seq::<char>::empty());
        } else {
            push_char(&mut current, c);
        }
        i = i + 1;
    }
    assert(s@.skip(n as int).len() == 0);
    let line = trim(current.as_str());
    if line.unicode_len() > 0 {
        Some(String::from_str(line))
    } else {
        None
    }
}

/// Writing a text `n` times gives `n` times its length.
pub proof fn lemma_repeated_len(s: Seq<char>, n: nat)
    ensures
        repeated(s, n).len() == n * s.len(),
    decreases n,
{
    if n > 0 {
        lemma_repeated_len(s, (n - 1) as nat);
        assert(repeated(s, n).len() == (n - 1) * s.len() + s.len());
        assert((n - 1) * s.len() + s.len() == n * s.len()) by (nonlinear_arith)
            requires n > 0;
    } else {
        assert(0 * s.len() == 0) by (nonlinear_arith);
    }
}

/// For an ASCII text, capitalising keeps the length and the text stays ASCII,
/// and capitalising twice gives the same as capitalising once.
pub proof fn lemma_capitalize_ascii(s: Seq<char>)
    requires
        all_ascii(s),
    ensures
        capitalized(s).len() == s.len(),
        all_ascii(capitalized(s)),
        capitalized(capitalized(s)) == capitalized(s),
{
    if s.len() > 0 {
        let c = s[0];
        assert(is_ascii_char(c));
        let u = uppercase_mapping(c)[0];
        assert(uppercase_mapping(c).len() == 1);
        assert(is_ascii_char(u));
        assert(!('a' <= u && u <= 'z'));
        let t = capitalized(s);
        assert(t =~= seq![u] + s.drop_first());
        assert(t[0] == u);
        assert(uppercase_mapping(u) =~= seq![u]);
        assert(t.drop_first() =~= s.drop_first());
        assert(capitalized(t) =~= t);
        assert forall|i: int| 0 <= i < t.len() implies is_ascii_char(#[trigger] t[i]) by {
            if i > 0 {
                assert(t[i] == s[i]);
            }
        }
    } else {
        assert(capitalized(capitalized(s)) =~= capitalized(s));
    }
}

/// A number under 100 renders with exactly two digits, tens first.
pub proof fn lemma_two_digits(n: nat)
    requires
        n < 100,
    ensures
        two_digits(n) == seq![digit_char((n / 10) as int), digit_char((n % 10) as int)],
{
    if n >= 10 {
        assert(decimal(n / 10) == seq![digit_char((n / 10) as int)]);
        assert(decimal(n) =~= seq![digit_char((n / 10) as int), digit_char((n % 10) as int)]);
    } else {
        assert(n / 10 == 0);
    }
}

/// The digits are the ASCII characters '0' to '9'.
pub proof fn lemma_digit_chars(d: int)
    requires
        0 <= d < 10,
    ensures
        '0' <= digit_char(d) <= '9',
        digit_char(d) as u32 == '0' as u32 + d,
        d == 0 ==> digit_char(d) == '0',
{
}

/// Padding keeps the text at its start and gives it at least `width`
/// characters, adding nothing but spaces and nothing to a long enough text.
pub proof fn lemma_padded_right(s: Seq<char>, width: nat)
    ensures
        padded_right(s, width).len() == if s.len() >= width { s.len() } else { width },
        padded_right(s, width).subrange(0, s.len() as int) == s,
        forall|i: int| s.len() <= i < padded_right(s, width).len() ==> #[trigger] padded_right(s, width)[i] == ' ',
{
    assert(padded_right(s, width).subrange(0, s.len() as int) =~= s);
}

} // verus!
