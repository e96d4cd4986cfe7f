//! Small verified routines on text: every one is specified over the sequence
//! of characters that a string holds.
use vstd::prelude::*;
use vstd::std_specs::iter::IteratorSpec;
use vstd::string::StringExecFns;

verus! {

/// `String::push` appends one character to the end of the string.
pub assume_specification[ String::push ](s: &mut String, c: char)
    ensures
        final(s)@ == old(s)@.push(c),
;

/// `count` copies of the character `c`.
pub open spec fn repeat_char(c: char, count: nat) -> Seq<char> {
    Seq::new(count, |i: int| c)
}

/// The characters with Unicode's `White_Space` property.
pub open spec fn is_white_space(c: char) -> bool {
    let code = c as u32;
    ||| 0x09 <= code <= 0x0D
    ||| code == 0x20
    ||| code == 0x85
    ||| code == 0xA0
    ||| code == 0x1680
    ||| 0x2000 <= code <= 0x200A
    ||| code == 0x2028
    ||| code == 0x2029
    ||| code == 0x202F
    ||| code == 0x205F
    ||| code == 0x3000
}

/// `text` without the white space at its end.
pub open spec fn trim_end_of(text: Seq<char>) -> Seq<char>
    decreases text.len(),
{
    if text.len() > 0 && is_white_space(text.last()) {
        trim_end_of(text.drop_last())
    } else {
        text
    }
}

/// Whether `at` is where the first line of `text` ends: at its first line feed,
/// or at the end of the text if it holds none.
pub open spec fn is_line_end(text: Seq<char>, at: int) -> bool {
    &&& 0 <= at <= text.len()
    &&& forall|i: int| 0 <= i < at ==> text[i] != '\n'
    &&& at < text.len() ==> text[at] == '\n'
}

/// Where the first line of `text` ends.
pub open spec fn line_end(text: Seq<char>) -> int {
    choose|at: int| is_line_end(text, at)
}

/// A terminated line without the carriage return that stood before its line feed.
pub open spec fn without_carriage_return(line: Seq<char>) -> Seq<char> {
    if line.len() > 0 && line.last() == '\r' {
        line.drop_last()
    } else {
        line
    }
}

/// The lines of `text`. A line ends at a line feed, or at a carriage return
/// directly followed by one; neither belongs to the line. What follows the last
/// line feed is a line only if it is not empty, and keeps a carriage return at
/// its end.
pub open spec fn lines_of(text: Seq<char>) -> Seq<Seq<char>>
    decreases text.len(),
{
    if text.len() == 0 {
        Seq::empty()
    } else {
        let at = line_end(text);
        if 0 <= at < text.len() {
            seq![without_carriage_return(text.take(at))] + lines_of(text.skip(at + 1))
        } else {
            seq![text]
        }
    }
}

/// The character of the decimal digit `digit`.
pub open spec fn digit_char(digit: nat) -> char {
    if digit == 0 {
        '0'
    } else if digit == 1 {
        '1'
    } else if digit == 2 {
        '2'
    } else if digit == 3 {
        '3'
    } else if digit == 4 {
        '4'
    } else if digit == 5 {
        '5'
    } else if digit == 6 {
        '6'
    } else if digit == 7 {
        '7'
    } else if digit == 8 {
        '8'
    } else {
        '9'
    }
}

/// `number` written in decimal, without sign or leading zeros.
pub open spec fn decimal(number: nat) -> Seq<char>
    decreases number,
{
    if number < 10 {
        seq![digit_char(number)]
    } else {
        decimal(number / 10).push(digit_char(number % 10))
    }
}

/// `text` with every occurrence of `pattern` replaced by `with`. Occurrences
/// are found from the left and do not overlap.
pub open spec fn replaced(text: Seq<char>, pattern: Seq<char>, with: Seq<char>) -> Seq<char>
    recommends
        pattern.len() > 0,
    decreases text.len(),
{
    if pattern.len() == 0 || text.len() < pattern.len() {
        text
    } else if text.take(pattern.len() as int) == pattern {
        with + replaced(text.skip(pattern.len() as int), pattern, with)
    } else {
        seq![text[0]] + replaced(text.skip(1), pattern, with)
    }
}

/// There is one place only where the first line of a text ends.
pub proof fn lemma_line_end(text: Seq<char>, at: int)
    requires
        is_line_end(text, at),
    ensures
        line_end(text) == at,
{
    let chosen = line_end(text);
    assert(is_line_end(text, chosen));
    if chosen < at {
        assert(text[chosen] == '\n');
    }
    if at < chosen {
        assert(text[at] == '\n');
    }
}

/// Nothing is trimmed from a text that does not end in white space.
pub proof fn lemma_trim_end_no_space(text: Seq<char>)
    requires
        text.len() == 0 || !is_white_space(text.last()),
    ensures
        trim_end_of(text) == text,
{
}

/// The characters of `text`, in order.
pub fn chars_of(text: &str) -> (chars: Vec<char>)
    ensures
        chars@ == text@,
{
    broadcast use vstd::string::group_string_axioms;

    let mut chars: Vec<char> = Vec::new();
    let mut rest = text.chars();
    loop
        invariant
            rest.obeys_prophetic_iter_laws(),
            rest.decrease() is Some,
            chars@ + rest.remaining() == text@,
        ensures
            chars@ == text@,
        decreases rest.decrease()->0,
    {
        match rest.next() {
            Some(c) => {
                chars.push(c);
            },
            None => {
                break ;
            },
        }
    }
    chars
}

/// The string of the characters of `chars` from `from` up to `to`.
pub fn string_of(chars: &Vec<char>, from: usize, to: usize) -> (text: String)
    requires
        from <= to <= chars@.len(),
    ensures
        text@ == chars@.subrange(from as int, to as int),
{
    let mut text = String::new();
    let mut at: usize = from;
    while at < to
        invariant
            from <= at <= to <= chars@.len(),
            text@ == chars@.subrange(from as int, at as int),
        decreases to - at,
    {
        text.push(chars[at]);
        at = at + 1;
    }
    text
}

/// Appends `count` copies of `c` to `text`.
pub fn push_repeated(text: &mut String, c: char, count: usize)
    ensures
        final(text)@ == old(text)@ + repeat_char(c, count as nat),
{
    let mut done: usize = 0;
    while done < count
        invariant
            done <= count,
            text@ == old(text)@ + repeat_char(c, done as nat),
        decreases count - done,
    {
        text.push(c);
        done = done + 1;
    }
}

/// `count` copies of the character `c`.
pub fn repeated(c: char, count: usize) -> (text: String)
    ensures
        text@ == repeat_char(c, count as nat),
{
    let mut text = String::new();
    push_repeated(&mut text, c, count);
    text
}

/// `first` followed by `second`.
pub fn joined(first: &str, second: &str) -> (text: String)
    ensures
        text@ == first@ + second@,
{
    let mut text = String::from_str(first);
    text.append(second);
    text
}

/// Whether `c` is one of the characters of `text`.
pub fn contains_char(text: &str, c: char) -> (found: bool)
    ensures
        found == text@.contains(c),
{
    let chars = chars_of(text);
    let mut at: usize = 0;
    while at < chars.len()
        invariant
            at <= chars@.len(),
            chars@ == text@,
            forall|i: int| 0 <= i < at ==> chars@[i] != c,
        decreases chars@.len() - at,
    {
        if chars[at] == c {
            return true;
        }
        at = at + 1;
    }
    false
}

/// Whether `first` and `second` hold the same characters.
pub fn same_text(first: &str, second: &str) -> (same: bool)
    ensures
        same == (first@ == second@),
{
    let left = chars_of(first);
    let right = chars_of(second);
    if left.len() != right.len() {
        return false;
    }
    let mut at: usize = 0;
    while at < left.len()
        invariant
            at <= left@.len(),
            left@.len() == right@.len(),
            left@ == first@,
            right@ == second@,
            forall|i: int| 0 <= i < at ==> left@[i] == right@[i],
        decreases left@.len() - at,
    {
        if left[at] != right[at] {
            return false;
        }
        at = at + 1;
    }
    assert(left@ =~= right@);
    true
}

/// Whether `c` is white space.
pub fn is_whitespace(c: char) -> (white: bool)
    ensures
        white == is_white_space(c),
{
    let code = c as u32;
    (0x09 <= code && code <= 0x0D) || code == 0x20 || code == 0x85 || code == 0xA0 || code
        == 0x1680 || (0x2000 <= code && code <= 0x200A) || code == 0x2028 || code == 0x2029 || code
        == 0x202F || code == 0x205F || code == 0x3000
}

/// `text` without the white space at its end.
pub fn trim_end(text: &str) -> (trimmed: String)
    ensures
        trimmed@ == trim_end_of(text@),
{
    let chars = chars_of(text);
    let mut end: usize = chars.len();
    assert(text@.take(end as int) == text@);
    while end > 0 && is_whitespace(chars[end - 1])
        invariant
            end <= chars@.len(),
            chars@ == text@,
            trim_end_of(text@) == trim_end_of(text@.take(end as int)),
        decreases end,
    {
        assert(text@.take(end as int).drop_last() == text@.take(end - 1));
        end = end - 1;
    }
    proof {
        lemma_trim_end_no_space(text@.take(end as int));
    }
    string_of(&chars, 0, end)
}

/// The lines of `text`.
pub fn lines(text: &str) -> (found: Vec<String>)
    ensures
        found.deep_view() == lines_of(text@),
{
    let chars = chars_of(text);
    let mut found: Vec<String> = Vec::new();
    let mut start: usize = 0;
    let mut at: usize = 0;
    assert(text@.skip(0) == text@);
    assert(found.deep_view() + lines_of(text@) == lines_of(text@));
    while at < chars.len()
        invariant
            start <= at <= chars@.len(),
            chars@ == text@,
            forall|i: int| start <= i < at ==> chars@[i] != '\n',
            found.deep_view() + lines_of(text@.skip(start as int)) == lines_of(text@),
        decreases chars@.len() - at,
    {
        if chars[at] == '\n' {
            let ghost rest = text@.skip(start as int);
            proof {
                lemma_line_end(rest, at - start);
                assert(rest.take(at - start) == text@.subrange(start as int, at as int));
                assert(rest.skip(at - start + 1) == text@.skip(at + 1));
            }
            let end = if at > start && chars[at - 1] == '\r' {
                at - 1
            } else {
                at
            };
            let line = string_of(&chars, start, end);
            assert(line@ == without_carriage_return(rest.take(at - start)));
            let ghost before = found.deep_view();
            found.push(line);
            assert(found.deep_view() == before.push(line@));
            start = at + 1;
        }
        at = at + 1;
    }
    if start < chars.len() {
        let ghost rest = text@.skip(start as int);
        proof {
            lemma_line_end(rest, rest.len() as int);
            assert(rest == text@.subrange(start as int, chars@.len() as int));
        }
        let line = string_of(&chars, start, chars.len());
        let ghost before = found.deep_view();
        found.push(line);
        assert(found.deep_view() == before.push(line@));
    } else {
        assert(text@.skip(start as int).len() == 0);
    }
    found
}

/// The character of the decimal digit `value`.
pub fn digit(value: usize) -> (c: char)
    requires
        value < 10,
    ensures
        c == digit_char(value as nat),
{
    if value == 0 {
        '0'
    } else if value == 1 {
        '1'
    } else if value == 2 {
        '2'
    } else if value == 3 {
        '3'
    } else if value == 4 {
        '4'
    } else if value == 5 {
        '5'
    } else if value == 6 {
        '6'
    } else if value == 7 {
        '7'
    } else if value == 8 {
        '8'
    } else {
        '9'
    }
}

/// Appends `number`, written in decimal, to `text`.
pub fn push_decimal(text: &mut String, number: u128)
    ensures
        final(text)@ == old(text)@ + decimal(number as nat),
    decreases number,
{
    if number >= 10 {
        push_decimal(text, number / 10);
    }
    text.push(digit((number % 10) as usize));
}

/// `number` written in decimal.
pub fn decimal_string(number: u128) -> (text: String)
    ensures
        text@ == decimal(number as nat),
{
    let mut text = String::new();
    push_decimal(&mut text, number);
    text
}

/// Whether `pattern` stands in `chars` at `at`.
fn matches_at(chars: &Vec<char>, at: usize, pattern: &Vec<char>) -> (found: bool)
    requires
        at <= chars@.len(),
    ensures
        found == (at + pattern@.len() <= chars@.len() && chars@.subrange(
            at as int,
            at + pattern@.len(),
        ) == pattern@),
{
    if pattern.len() > chars.len() - at {
        return false;
    }
    let mut i: usize = 0;
    while i < pattern.len()
        invariant
            i <= pattern@.len(),
            at + pattern@.len() <= chars@.len() <= usize::MAX,
            forall|j: int| 0 <= j < i ==> chars@[at + j] == pattern@[j],
        decreases pattern@.len() - i,
    {
        if chars[at + i] != pattern[i] {
            assert(chars@.subrange(at as int, at + pattern@.len())[i as int] != pattern@[i as int]);
            return false;
        }
        i = i + 1;
    }
    assert(chars@.subrange(at as int, at + pattern@.len()) =~= pattern@);
    true
}

/// `text` with every occurrence of `pattern` replaced by `with`.
pub fn replace(text: &str, pattern: &str, with: &str) -> (out: String)
    requires
        pattern@.len() > 0,
    ensures
        out@ == replaced(text@, pattern@, with@),
{
    let chars = chars_of(text);
    let wanted = chars_of(pattern);
    let mut out = String::new();
    let mut at: usize = 0;
    assert(text@.skip(0) == text@);
    while at < chars.len()
        invariant
            at <= chars@.len(),
            chars@ == text@,
            wanted@ == pattern@,
            wanted@.len() > 0,
            out@ + replaced(text@.skip(at as int), pattern@, with@) == replaced(
                text@,
                pattern@,
                with@,
            ),
        decreases chars@.len() - at,
    {
        let ghost rest = text@.skip(at as int);
        if matches_at(&chars, at, &wanted) {
            proof {
                assert(rest.take(pattern@.len() as int) == chars@.subrange(
                    at as int,
                    at + pattern@.len(),
                ));
                assert(rest.skip(pattern@.len() as int) == text@.skip(at + pattern@.len()));
            }
            out.append(with);
            at = at + wanted.len();
        } else {
            proof {
                if rest.len() >= pattern@.len() {
                    assert(rest.take(pattern@.len() as int) == chars@.subrange(
                        at as int,
                        at + pattern@.len(),
                    ));
                }
                assert(rest.skip(1) == text@.skip(at + 1));
                if rest.len() < pattern@.len() {
                    lemma_replaced_short(rest, pattern@, with@);
                }
            }
            out.push(chars[at]);
            at = at + 1;
        }
    }
    assert(text@.skip(at as int).len() == 0);
    out
}

/// A text shorter than the pattern is copied character by character.
proof fn lemma_replaced_short(text: Seq<char>, pattern: Seq<char>, with: Seq<char>)
    requires
        0 < text.len() < pattern.len(),
    ensures
        replaced(text, pattern, with) == seq![text[0]] + replaced(text.skip(1), pattern, with),
{
    assert(replaced(text, pattern, with) == text);
    assert(replaced(text.skip(1), pattern, with) == text.skip(1));
    assert(text =~= seq![text[0]] + text.skip(1));
}

} // verus!
