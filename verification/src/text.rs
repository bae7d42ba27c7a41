//! Text as sequences of characters: the searching, splitting and number
//! parsing that the rest of the library needs, stated over `Seq<char>`.

use vstd::prelude::*;

verus! {

/// Appends one character to a string.
///
/// Trusted: `String::push` of the standard library, whose documentation says
/// that it appends the given character to the end of the string.
#[verifier::external_body]
pub(crate) fn push_char(s: &mut String, c: char)
    ensures
        final(s)@ == old(s)@.push(c),
{
    s.push(c);
}

/// The characters of a string slice, in order.
pub fn chars_of(s: &str) -> (out: Vec<char>)
    ensures
        out@ == s@,
{
    broadcast use vstd::string::axiom_spec_iter;

    let mut out: Vec<char> = Vec::new();
    for c in it: s.chars()
        invariant
            it.seq() == s@,
            out@ == s@.take(it.index()),
    {
        out.push(c);
    }
    out
}

/// The string made of the characters of `chars`.
pub fn string_of(chars: &[char]) -> (out: String)
    ensures
        out@ == chars@,
{
    let mut out = String::new();
    let mut i: usize = 0;
    while i < chars.len()
        invariant
            i <= chars@.len(),
            out@ == chars@.take(i as int),
        decreases chars@.len() - i,
    {
        push_char(&mut out, chars[i]);
        i += 1;
    }
    out
}

/// The text of a string slice that may be missing.
pub open spec fn text_of(content: Option<&str>) -> Option<Seq<char>> {
    match content {
        Some(text) => Some(text@),
        None => None,
    }
}

/// The lower-case form of `s` by the case mapping of Unicode, which knows
/// no locale.
pub uninterp spec fn lowercase(s: Seq<char>) -> Seq<char>;

/// Turns a text into lower case.
///
/// Trusted: `str::to_lowercase` of the standard library. The contract only
/// gives its result a name.
#[verifier::external_body]
pub(crate) fn to_lowercase(s: &str) -> (out: String)
    ensures
        out@ == lowercase(s@),
{
    s.to_lowercase()
}

/// `base` followed by `tail`.
pub fn joined(base: &str, tail: &str) -> (out: String)
    ensures
        out@ == base@ + tail@,
{
    let mut out = String::from_str(base);
    out.append(tail);
    out
}

/// The character that writes the decimal digit `d`.
pub open spec fn digit_char(d: int) -> char {
    if d == 0 {
        '0'
    } else if d == 1 {
        '1'
    } else if d == 2 {
        '2'
    } else if d == 3 {
        '3'
    } else if d == 4 {
        '4'
    } else if d == 5 {
        '5'
    } else if d == 6 {
        '6'
    } else if d == 7 {
        '7'
    } else if d == 8 {
        '8'
    } else {
        '9'
    }
}

/// The decimal notation of `n`, without sign and without leading zeros.
pub open spec fn decimal_digits(n: nat) -> Seq<char>
    decreases n,
{
    if n < 10 {
        seq![digit_char(n as int)]
    } else {
        decimal_digits(n / 10).push(digit_char((n % 10) as int))
    }
}

fn digit_to_char(d: u32) -> (c: char)
    requires
        d < 10,
    ensures
        c == digit_char(d as int),
{
    if d == 0 {
        '0'
    } else if d == 1 {
        '1'
    } else if d == 2 {
        '2'
    } else if d == 3 {
        '3'
    } else if d == 4 {
        '4'
    } else if d == 5 {
        '5'
    } else if d == 6 {
        '6'
    } else if d == 7 {
        '7'
    } else if d == 8 {
        '8'
    } else {
        '9'
    }
}

/// Appends the decimal notation of `n` to `out`.
pub fn push_decimal(out: &mut String, n: u32)
    ensures
        final(out)@ == old(out)@ + decimal_digits(n as nat),
    decreases n,
{
    if n >= 10 {
        push_decimal(out, n / 10);
    }
    push_char(out, digit_to_char(n % 10));
}

/// The decimal notation of `n` as a string.
pub fn decimal(n: u32) -> (out: String)
    ensures
        out@ == decimal_digits(n as nat),
{
    let mut out = String::new();
    push_decimal(&mut out, n);
    out
}

/// The kinds of character that the parsers of this library stop at or strip.
#[derive(Clone, Copy, Debug)]
pub enum CharClass {
    /// The line feed.
    Newline,
    /// The comma that parts the fields of a record.
    Comma,
    /// The double quote that may stand round a field.
    Quote,
    /// A slash or a backslash.
    PathSeparator,
    /// A character with the Unicode property `White_Space`.
    Whitespace,
}

/// `c` has the Unicode property `White_Space`.
pub open spec fn is_whitespace(c: char) -> bool {
    let n = c as u32;
    ||| 0x09 <= n <= 0x0d
    ||| n == 0x20
    ||| n == 0x85
    ||| n == 0xa0
    ||| n == 0x1680
    ||| 0x2000 <= n <= 0x200a
    ||| n == 0x2028
    ||| n == 0x2029
    ||| n == 0x202f
    ||| n == 0x205f
    ||| n == 0x3000
}

impl CharClass {
    /// `c` belongs to this class.
    pub open spec fn has(self, c: char) -> bool {
        match self {
            CharClass::Newline => c == '\n',
            CharClass::Comma => c == ',',
            CharClass::Quote => c == '"',
            CharClass::PathSeparator => c == '/' || c == '\\',
            CharClass::Whitespace => is_whitespace(c),
        }
    }

    /// Tells whether `c` belongs to this class.
    pub fn holds(self, c: char) -> (r: bool)
        ensures
            r == self.has(c),
    {
        match self {
            CharClass::Newline => c == '\n',
            CharClass::Comma => c == ',',
            CharClass::Quote => c == '"',
            CharClass::PathSeparator => c == '/' || c == '\\',
            CharClass::Whitespace => {
                let n: u32 = c as u32;
                (0x09 <= n && n <= 0x0d) || n == 0x20 || n == 0x85 || n == 0xa0 || n == 0x1680
                    || (0x2000 <= n && n <= 0x200a) || n == 0x2028 || n == 0x2029 || n == 0x202f
                    || n == 0x205f || n == 0x3000
            },
        }
    }
}

/// The index of the first character of `s` in `class`, or the length of `s`
/// where it holds none.
pub open spec fn find_first(s: Seq<char>, class: CharClass) -> int
    decreases s.len(),
{
    if s.len() == 0 || class.has(s[0]) {
        0
    } else {
        1 + find_first(s.skip(1), class)
    }
}

/// `at` is where `find_first` stops: nothing before it is in `class`, and it
/// is the end of `s` or a character in `class`.
pub open spec fn is_first(s: Seq<char>, class: CharClass, at: int) -> bool {
    &&& 0 <= at <= s.len()
    &&& forall|i: int| 0 <= i < at ==> !class.has(#[trigger] s[i])
    &&& at < s.len() ==> class.has(s[at])
}

/// `find_first` is the one index that `is_first` describes.
pub proof fn lemma_find_first(s: Seq<char>, class: CharClass, at: int)
    ensures
        is_first(s, class, find_first(s, class)),
        is_first(s, class, at) ==> at == find_first(s, class),
    decreases s.len(),
{
    if s.len() == 0 || class.has(s[0]) {
        if is_first(s, class, at) && at > 0 {
            assert(!class.has(s[0]));
        }
    } else {
        let rest = s.skip(1);
        lemma_find_first(rest, class, at - 1);
        let f = find_first(rest, class);
        assert forall|i: int| 0 <= i < 1 + f implies !class.has(#[trigger] s[i]) by {
            if i > 0 {
                assert(rest[i - 1] == s[i]);
            }
        }
        if f < rest.len() {
            assert(rest[f] == s[1 + f]);
        }
        if is_first(s, class, at) {
            assert(at > 0);
            assert forall|i: int| 0 <= i < at - 1 implies !class.has(#[trigger] rest[i]) by {
                assert(rest[i] == s[i + 1]);
            }
            if at - 1 < rest.len() {
                assert(rest[at - 1] == s[at]);
            }
            assert(is_first(rest, class, at - 1));
        }
    }
}

/// Finds the first character of `chars` in `class`.
pub fn find(chars: &[char], class: CharClass) -> (at: usize)
    ensures
        at == find_first(chars@, class),
        at <= chars@.len(),
{
    let mut at: usize = 0;
    while at < chars.len() && !class.holds(chars[at])
        invariant
            at <= chars@.len(),
            forall|i: int| 0 <= i < at ==> !class.has(#[trigger] chars@[i]),
        decreases chars@.len() - at,
    {
        at += 1;
    }
    proof {
        lemma_find_first(chars@, class, at as int);
    }
    at
}

/// `s` without the characters of `class` at its start.
pub open spec fn trim_start(s: Seq<char>, class: CharClass) -> Seq<char>
    decreases s.len(),
{
    if s.len() > 0 && class.has(s[0]) {
        trim_start(s.skip(1), class)
    } else {
        s
    }
}

/// `s` without the characters of `class` at its end.
pub open spec fn trim_end(s: Seq<char>, class: CharClass) -> Seq<char>
    decreases s.len(),
{
    if s.len() > 0 && class.has(s.last()) {
        trim_end(s.drop_last(), class)
    } else {
        s
    }
}

/// `s` without the characters of `class` at its start and at its end.
pub open spec fn trimmed(s: Seq<char>, class: CharClass) -> Seq<char> {
    trim_end(trim_start(s, class), class)
}

/// The part of `chars` that is left when the characters of `class` are
/// taken from both ends.
pub fn trim<'a>(chars: &'a [char], class: CharClass) -> (out: &'a [char])
    ensures
        out@ == trimmed(chars@, class),
{
    let mut from: usize = 0;
    assert(chars@.skip(0) == chars@);
    while from < chars.len() && class.holds(chars[from])
        invariant
            from <= chars@.len(),
            trim_start(chars@, class) == trim_start(chars@.skip(from as int), class),
        decreases chars@.len() - from,
    {
        assert(chars@.skip(from as int).skip(1) == chars@.skip(from + 1));
        from += 1;
    }
    let ghost front = chars@.skip(from as int);
    assert(trim_start(chars@, class) == front);
    let mut to: usize = chars.len();
    while from < to && class.holds(chars[to - 1])
        invariant
            from <= to <= chars@.len(),
            front == chars@.skip(from as int),
            trim_end(front, class) == trim_end(chars@.subrange(from as int, to as int), class),
        decreases to - from,
    {
        assert(chars@.subrange(from as int, to as int).drop_last() == chars@.subrange(
            from as int,
            to - 1,
        ));
        to -= 1;
    }
    vstd::slice::slice_subrange(chars, from, to)
}

/// `needle` stands in `hay` at index `at`.
pub open spec fn occurs_at(hay: Seq<char>, needle: Seq<char>, at: int) -> bool {
    &&& 0 <= at
    &&& at + needle.len() <= hay.len()
    &&& hay.subrange(at, at + needle.len()) == needle
}

/// `needle` stands somewhere in `hay`.
pub open spec fn contains_text(hay: Seq<char>, needle: Seq<char>) -> bool {
    exists|at: int| occurs_at(hay, needle, at)
}

fn matches_at(hay: &[char], needle: &[char], at: usize) -> (r: bool)
    requires
        at + needle@.len() <= hay@.len(),
    ensures
        r == occurs_at(hay@, needle@, at as int),
{
    let size: usize = hay.len();
    let mut i: usize = 0;
    while i < needle.len()
        invariant
            i <= needle@.len(),
            at + needle@.len() <= hay@.len() == size,
            forall|j: int| 0 <= j < i ==> hay@[at + j] == needle@[j],
        decreases needle@.len() - i,
    {
        if hay[at + i] != needle[i] {
            assert(hay@.subrange(at as int, at + needle@.len())[i as int] == hay@[at + i]);
            return false;
        }
        i += 1;
    }
    assert(hay@.subrange(at as int, at + needle@.len()) =~= needle@);
    true
}

/// Tells whether `needle` stands somewhere in `hay`.
pub fn contains(hay: &[char], needle: &[char]) -> (r: bool)
    ensures
        r == contains_text(hay@, needle@),
{
    if needle.len() > hay.len() {
        return false;
    }
    let last: usize = hay.len() - needle.len();
    let mut at: usize = 0;
    loop
        invariant
            at <= last,
            last == hay@.len() - needle@.len(),
            forall|k: int| 0 <= k < at ==> !occurs_at(hay@, needle@, k),
        decreases last - at,
    {
        if matches_at(hay, needle, at) {
            return true;
        }
        if at == last {
            return false;
        }
        at += 1;
    }
}

/// `c` is one of the ten decimal digits.
pub open spec fn is_digit(c: char) -> bool {
    48 <= c as u32 <= 57
}

/// The number that the digit `c` stands for, and 0 for any other character.
pub open spec fn digit_value(c: char) -> nat {
    if is_digit(c) {
        (c as u32 - 48) as nat
    } else {
        0
    }
}

/// Every character of `s` is a decimal digit.
pub open spec fn all_digits(s: Seq<char>) -> bool {
    forall|i: int| 0 <= i < s.len() ==> is_digit(#[trigger] s[i])
}

/// The number that `s` writes in decimal notation.
pub open spec fn digits_value(s: Seq<char>) -> nat
    decreases s.len(),
{
    if s.len() == 0 {
        0
    } else {
        digits_value(s.drop_last()) * 10 + digit_value(s.last())
    }
}

/// The number that `s` writes: an optional `+`, then one decimal digit or
/// more, nothing else, and a value that fits in 32 bits.
pub open spec fn parse_u32(s: Seq<char>) -> Option<u32> {
    let body = if s.len() > 0 && s[0] == '+' {
        s.skip(1)
    } else {
        s
    };
    if body.len() > 0 && all_digits(body) && digits_value(body) <= u32::MAX {
        Some(digits_value(body) as u32)
    } else {
        None
    }
}

/// More digits never write a smaller number.
pub proof fn lemma_digits_value_grows(s: Seq<char>, k: int)
    requires
        0 <= k <= s.len(),
    ensures
        digits_value(s.take(k)) <= digits_value(s),
    decreases s.len(),
{
    if k == s.len() {
        assert(s.take(k) == s);
    } else {
        lemma_digits_value_grows(s.drop_last(), k);
        assert(s.drop_last().take(k) == s.take(k));
    }
}

/// The decimal digit for `d` stands for `d`.
pub proof fn lemma_digit_char_value(d: int)
    requires
        0 <= d < 10,
    ensures
        is_digit(digit_char(d)),
        digit_value(digit_char(d)) == d,
{
}

/// What `decimal_digits` writes is read back as the same number: it is
/// made of digits only, of one at least, and their value is the number.
pub proof fn lemma_decimal_reads_back(n: nat)
    ensures
        decimal_digits(n).len() > 0,
        all_digits(decimal_digits(n)),
        digits_value(decimal_digits(n)) == n,
        n <= u32::MAX ==> parse_u32(decimal_digits(n)) == Some(n as u32),
    decreases n,
{
    let written = decimal_digits(n);
    lemma_digit_char_value((n % 10) as int);
    if n < 10 {
        assert(written.drop_last() == Seq::<char>::empty());
        assert(written.last() == digit_char(n as int));
        assert(digits_value(written.drop_last()) == 0);
        assert(digits_value(written) == n);
    } else {
        let front = decimal_digits(n / 10);
        lemma_decimal_reads_back(n / 10);
        assert(written.drop_last() == front);
        assert(written.last() == digit_char((n % 10) as int));
        assert forall|i: int| 0 <= i < written.len() implies is_digit(#[trigger] written[i]) by {
            if i < front.len() {
                assert(written[i] == front[i]);
            }
        }
        assert(digits_value(written) == digits_value(front) * 10 + (n % 10));
    }
    assert(is_digit(written[0]));
    assert(written[0] != '+');
}

/// Reads a number as `parse_u32` describes it.
pub fn parse_decimal(chars: &[char]) -> (r: Option<u32>)
    ensures
        r == parse_u32(chars@),
{
    let size: usize = chars.len();
    let start: usize = if size > 0 && chars[0] == '+' {
        1
    } else {
        0
    };
    let ghost body = chars@.skip(start as int);
    assert(chars@.skip(0) == chars@);
    if start == size {
        return None;
    }
    let mut value: u64 = 0;
    let mut i: usize = start;
    assert(body.take(0) == Seq::<char>::empty());
    while i < size
        invariant
            start <= i <= size == chars@.len(),
            body == chars@.skip(start as int),
            body == if chars@.len() > 0 && chars@[0] == '+' {
                chars@.skip(1)
            } else {
                chars@
            },
            all_digits(body.take(i - start)),
            value == digits_value(body.take(i - start)),
            value <= u32::MAX,
        decreases size - i,
    {
        let c: char = chars[i];
        let code: u32 = c as u32;
        assert(body[i - start] == c);
        if code < 48 || code > 57 {
            return None;
        }
        let ghost seen = body.take(i - start + 1);
        assert(seen.drop_last() == body.take(i - start));
        assert(seen.last() == c);
        assert forall|j: int| 0 <= j < seen.len() implies is_digit(#[trigger] seen[j]) by {
            if j < i - start {
                assert(body.take(i - start)[j] == seen[j]);
            }
        }
        value = value * 10 + (code - 48) as u64;
        if value > 0xffff_ffff {
            proof {
                lemma_digits_value_grows(body, i - start + 1);
            }
            return None;
        }
        i += 1;
    }
    assert(body.take(i - start) == body);
    Some(value as u32)
}

/// `line` without a carriage return at its end.
pub open spec fn without_cr(line: Seq<char>) -> Seq<char> {
    if line.len() > 0 && line.last() == '\r' {
        line.drop_last()
    } else {
        line
    }
}

/// The lines of `s`. A line ends at a line feed, or at a carriage return
/// that a line feed follows; neither belongs to the line. The last line needs
/// no line feed, and then keeps a carriage return at its end.
pub open spec fn lines_of(s: Seq<char>) -> Seq<Seq<char>>
    decreases s.len(),
{
    if s.len() == 0 {
        Seq::empty()
    } else {
        let end = find_first(s, CharClass::Newline);
        if 0 <= end < s.len() {
            seq![without_cr(s.take(end))] + lines_of(s.skip(end + 1))
        } else {
            seq![s]
        }
    }
}

/// What follows the first line of `s` and the line feed that ends it.
pub open spec fn after_first_line(s: Seq<char>) -> Seq<char> {
    let end = find_first(s, CharClass::Newline);
    if 0 <= end < s.len() {
        s.skip(end + 1)
    } else {
        Seq::empty()
    }
}

/// Parts `chars` into its first line and what follows that line; `None`
/// where `chars` is empty and so has no line.
pub fn first_line<'a>(chars: &'a [char]) -> (r: Option<(&'a [char], &'a [char])>)
    ensures
        r is None <==> chars@.len() == 0,
        r matches Some((line, rest)) ==> {
            &&& line@ == lines_of(chars@)[0]
            &&& rest@ == after_first_line(chars@)
            &&& lines_of(chars@) == seq![line@] + lines_of(rest@)
            &&& rest@.len() < chars@.len()
        },
{
    let size: usize = chars.len();
    if size == 0 {
        return None;
    }
    let end: usize = find(chars, CharClass::Newline);
    if end < size {
        let stop: usize = if end > 0 && chars[end - 1] == '\r' {
            end - 1
        } else {
            end
        };
        let line = vstd::slice::slice_subrange(chars, 0, stop);
        let rest = vstd::slice::slice_subrange(chars, end + 1, size);
        proof {
            let whole = chars@.take(end as int);
            assert(chars@.subrange(0, end as int) == whole);
            if end > 0 && chars@[end - 1] == '\r' {
                assert(whole.last() == '\r');
                assert(whole.drop_last() == line@);
            } else {
                assert(line@ == whole);
            }
            assert(rest@ == chars@.skip(end + 1));
        }
        Some((line, rest))
    } else {
        let rest = vstd::slice::slice_subrange(chars, size, size);
        proof {
            assert(rest@ == Seq::<char>::empty());
            assert(lines_of(rest@) == Seq::<Seq<char>>::empty());
            assert(seq![chars@] + Seq::<Seq<char>>::empty() == seq![chars@]);
        }
        Some((chars, rest))
    }
}

/// A text holds what stands in its middle.
pub proof fn lemma_contains_middle(front: Seq<char>, needle: Seq<char>, back: Seq<char>)
    ensures
        contains_text(front + needle + back, needle),
{
    let whole = front + needle + back;
    let at = front.len() as int;
    assert(whole.subrange(at, at + needle.len()) =~= needle);
    assert(occurs_at(whole, needle, at));
}

/// The first line of a text that begins with `line`, a carriage return
/// and a line feed is `line`, and the other lines are those of what
/// follows.
pub proof fn lemma_lines_after_first(line: Seq<char>, tail: Seq<char>)
    requires
        forall|i: int| 0 <= i < line.len() ==> #[trigger] line[i] != '\n',
    ensures
        lines_of(line + seq!['\r', '\n'] + tail) == seq![line] + lines_of(tail),
{
    let whole = line + seq!['\r', '\n'] + tail;
    let end = line.len() as int + 1;
    assert(whole[end] == '\n');
    assert forall|i: int| 0 <= i < end implies !CharClass::Newline.has(#[trigger] whole[i]) by {
        if i < line.len() {
            assert(whole[i] == line[i]);
        }
    }
    lemma_find_first(whole, CharClass::Newline, end);
    let taken = whole.take(end);
    assert(taken =~= line + seq!['\r']);
    assert(taken.last() == '\r');
    assert(taken.drop_last() =~= line);
    assert(whole.skip(end + 1) =~= tail);
}

/// The first line of a text that begins with `line` and a line feed is
/// `line`, where `line` does not end in a carriage return, and the other
/// lines are those of what follows.
pub proof fn lemma_lines_after_line_feed(line: Seq<char>, tail: Seq<char>)
    requires
        forall|i: int| 0 <= i < line.len() ==> #[trigger] line[i] != '\n',
        line.len() == 0 || line.last() != '\r',
    ensures
        lines_of(line + seq!['\n'] + tail) == seq![line] + lines_of(tail),
{
    let whole = line + seq!['\n'] + tail;
    let end = line.len() as int;
    assert(whole[end] == '\n');
    assert forall|i: int| 0 <= i < end implies !CharClass::Newline.has(#[trigger] whole[i]) by {
        assert(whole[i] == line[i]);
    }
    lemma_find_first(whole, CharClass::Newline, end);
    assert(whole.take(end) =~= line);
    assert(whole.skip(end + 1) =~= tail);
}

/// A number in decimal notation has no white space to take away.
pub proof fn lemma_decimal_trims_to_itself(n: nat)
    ensures
        trimmed(decimal_digits(n), CharClass::Whitespace) == decimal_digits(n),
{
    let digits = decimal_digits(n);
    lemma_decimal_reads_back(n);
    assert(is_digit(digits[0]));
    assert(trim_start(digits, CharClass::Whitespace) == digits);
    assert(is_digit(digits.last()));
    assert(trim_end(digits, CharClass::Whitespace) == digits);
}

} // verus!
