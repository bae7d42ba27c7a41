//! Reading the process lists that the operating system prints: which
//! process, if any, runs the worker's image.

use crate::command::Platform;
use crate::text::contains;
use crate::text::contains_text;
use crate::text::decimal_digits;
use crate::text::is_digit;
use crate::text::lemma_decimal_reads_back;
use crate::text::lemma_decimal_trims_to_itself;
use crate::text::lemma_lines_after_line_feed;
use crate::text::lemma_lines_after_first;
use crate::text::lemma_find_first;
use crate::text::occurs_at;
use crate::text::trim_end;
use crate::text::trim_start;
use crate::text::find;
use crate::text::find_first;
use crate::text::first_line;
use crate::text::lines_of;
use crate::text::parse_decimal;
use crate::text::parse_u32;
use crate::text::trim;
use crate::text::trimmed;
use crate::text::CharClass;
use vstd::prelude::*;

verus! {

/// The second of the fields of `line` that commas part, where there is a
/// comma at all.
pub open spec fn second_field(line: Seq<char>) -> Option<Seq<char>> {
    let comma = find_first(line, CharClass::Comma);
    if 0 <= comma < line.len() {
        let rest = line.skip(comma + 1);
        Some(rest.take(find_first(rest, CharClass::Comma)))
    } else {
        None
    }
}

/// The process identifier in one record of a process list in CSV form, for
/// a record that names `image`: the number in its second field, which may
/// stand in double quotes.
pub open spec fn pid_in_record(line: Seq<char>, image: Seq<char>) -> Option<u32> {
    if contains_text(line, image) {
        match second_field(line) {
            Some(field) => parse_u32(trimmed(field, CharClass::Quote)),
            None => None,
        }
    } else {
        None
    }
}

/// The process identifier of the first of `lines` that gives one for
/// `image`.
pub open spec fn first_pid(lines: Seq<Seq<char>>, image: Seq<char>) -> Option<u32>
    decreases lines.len(),
{
    if lines.len() == 0 {
        None
    } else {
        match pid_in_record(lines[0], image) {
            Some(pid) => Some(pid),
            None => first_pid(lines.skip(1), image),
        }
    }
}

/// The name of the worker's image in process lists.
pub open spec fn worker_image() -> Seq<char> {
    "winws.exe"@
}

/// The number that `line` holds, with white space round it at most.
pub open spec fn number_in_line(line: Seq<char>) -> Option<u32> {
    parse_u32(trimmed(line, CharClass::Whitespace))
}

/// The number of the first of `lines` that holds one.
pub open spec fn first_number(lines: Seq<Seq<char>>) -> Option<u32>
    decreases lines.len(),
{
    if lines.len() == 0 {
        None
    } else {
        match number_in_line(lines[0]) {
            Some(pid) => Some(pid),
            None => first_number(lines.skip(1)),
        }
    }
}

/// The worker's process as the reply to the scan command shows it, where
/// it may show none, one or several: the first one counts. On Windows the
/// reply is a list of records in CSV form, and the first record that names
/// the worker's image and gives a number counts. Elsewhere the reply holds
/// one process identifier on each line, and the first line that holds a
/// number counts.
pub open spec fn orphan_in(platform: Platform, output: Seq<char>) -> Option<u32> {
    match platform {
        Platform::Windows => first_pid(lines_of(output), worker_image()),
        Platform::Unix => first_number(lines_of(output)),
    }
}

fn pid_in_line(line: &[char], image: &[char]) -> (pid: Option<u32>)
    ensures
        pid == pid_in_record(line@, image@),
{
    if !contains(line, image) {
        return None;
    }
    let size: usize = line.len();
    let comma: usize = find(line, CharClass::Comma);
    if comma >= size {
        return None;
    }
    let rest = vstd::slice::slice_subrange(line, comma + 1, size);
    assert(rest@ == line@.skip(comma + 1));
    let end: usize = find(rest, CharClass::Comma);
    let field = vstd::slice::slice_subrange(rest, 0, end);
    assert(field@ == rest@.take(end as int));
    parse_decimal(trim(field, CharClass::Quote))
}

/// Finds the worker's process in the reply to the scan command.
pub fn find_orphan(platform: Platform, output: &[char]) -> (pid: Option<u32>)
    ensures
        pid == orphan_in(platform, output@),
{
    match platform {
        Platform::Windows => {
            let image_text = crate::text::chars_of("winws.exe");
            let image = image_text.as_slice();
            let mut rest: &[char] = output;
            loop
                invariant
                    platform == Platform::Windows,
                    image@ == worker_image(),
                    first_pid(lines_of(output@), image@) == first_pid(lines_of(rest@), image@),
                decreases rest@.len(),
            {
                match first_line(rest) {
                    None => {
                        return None;
                    },
                    Some((line, tail)) => {
                        assert((seq![line@] + lines_of(tail@)).skip(1) == lines_of(tail@));
                        let found = pid_in_line(line, image);
                        if found.is_some() {
                            return found;
                        }
                        rest = tail;
                    },
                }
            }
        },
        Platform::Unix => {
            let mut rest: &[char] = output;
            loop
                invariant
                    platform == Platform::Unix,
                    first_number(lines_of(output@)) == first_number(lines_of(rest@)),
                decreases rest@.len(),
            {
                match first_line(rest) {
                    None => {
                        return None;
                    },
                    Some((line, tail)) => {
                        assert((seq![line@] + lines_of(tail@)).skip(1) == lines_of(tail@));
                        let found = parse_decimal(trim(line, CharClass::Whitespace));
                        if found.is_some() {
                            return found;
                        }
                        rest = tail;
                    },
                }
            }
        },
    }
}

/// A record as the process list in CSV form writes it: the image's name
/// and the process identifier, each in double quotes with a comma between
/// them, then the other fields.
pub open spec fn csv_record(image: Seq<char>, pid: u32, rest: Seq<char>) -> Seq<char> {
    seq!['"'] + image + seq!['"', ',', '"'] + decimal_digits(pid as nat) + seq!['"'] + rest
}

/// A record of the process list that names the worker's image gives the
/// identifier written in it.
pub proof fn lemma_record_gives_pid(image: Seq<char>, pid: u32, rest: Seq<char>)
    requires
        contains_text(image, worker_image()),
        forall|i: int| 0 <= i < image.len() ==> #[trigger] image[i] != ',',
        rest.len() == 0 || rest[0] == ',',
    ensures
        pid_in_record(csv_record(image, pid, rest), worker_image()) == Some(pid),
{
    let digits = decimal_digits(pid as nat);
    let line = csv_record(image, pid, rest);
    let name = worker_image();
    lemma_decimal_reads_back(pid as nat);
    let size = image.len() as int;
    let count = digits.len() as int;

    assert(contains_text(line, name)) by {
        let at = choose|at: int| occurs_at(image, name, at);
        assert(line.subrange(at + 1, at + 1 + name.len()) =~= image.subrange(at, at + name.len()));
        assert(occurs_at(line, name, at + 1));
    }

    let comma = size + 2;
    assert(line[comma] == ',');
    assert forall|i: int| 0 <= i < comma implies !CharClass::Comma.has(#[trigger] line[i]) by {
        if 1 <= i <= size {
            assert(line[i] == image[i - 1]);
        }
    }
    lemma_find_first(line, CharClass::Comma, comma);

    let after = line.skip(comma + 1);
    assert(after =~= seq!['"'] + digits + seq!['"'] + rest);
    let end = count + 2;
    assert forall|i: int| 0 <= i < end implies !CharClass::Comma.has(#[trigger] after[i]) by {
        if 1 <= i <= count {
            assert(after[i] == digits[i - 1]);
            assert(is_digit(digits[i - 1]));
        }
    }
    if end < after.len() {
        assert(after[end] == rest[0]);
    }
    lemma_find_first(after, CharClass::Comma, end);

    let field = after.take(end);
    assert(field =~= seq!['"'] + digits + seq!['"']);
    assert(second_field(line) == Some(field));

    let inner = digits + seq!['"'];
    assert(field.skip(1) =~= inner);
    assert(is_digit(inner[0])) by {
        assert(inner[0] == digits[0]);
    }
    assert(trim_start(inner, CharClass::Quote) == inner);
    assert(trim_start(field, CharClass::Quote) == inner);
    assert(inner.drop_last() =~= digits);
    assert(is_digit(digits.last()));
    assert(trim_end(digits, CharClass::Quote) == digits);
    assert(trim_end(inner, CharClass::Quote) == digits);
    assert(trimmed(field, CharClass::Quote) == digits);
}

/// A process list whose first line is a record that names the worker's
/// image shows the process of that record, whatever follows.
pub proof fn lemma_first_record_is_found(
    image: Seq<char>,
    pid: u32,
    rest: Seq<char>,
    later: Seq<Seq<char>>,
)
    requires
        contains_text(image, worker_image()),
        forall|i: int| 0 <= i < image.len() ==> #[trigger] image[i] != ',',
        rest.len() == 0 || rest[0] == ',',
    ensures
        first_pid(seq![csv_record(image, pid, rest)] + later, worker_image()) == Some(pid),
{
    lemma_record_gives_pid(image, pid, rest);
    let lines = seq![csv_record(image, pid, rest)] + later;
    assert(lines[0] == csv_record(image, pid, rest));
}

/// On Windows a worker that the process list names first is found: where
/// the reply begins with a record of the worker's image, ended by a
/// carriage return and a line feed, the scan gives the identifier in that
/// record.
pub proof fn lemma_listed_worker_is_found(
    image: Seq<char>,
    pid: u32,
    rest: Seq<char>,
    tail: Seq<char>,
)
    requires
        contains_text(image, worker_image()),
        forall|i: int| 0 <= i < image.len() ==> #[trigger] image[i] != ',' && image[i] != '\n',
        forall|i: int| 0 <= i < rest.len() ==> #[trigger] rest[i] != '\n',
        rest.len() == 0 || rest[0] == ',',
    ensures
        orphan_in(
            Platform::Windows,
            csv_record(image, pid, rest) + seq!['\r', '\n'] + tail,
        ) == Some(pid),
{
    let record = csv_record(image, pid, rest);
    let digits = decimal_digits(pid as nat);
    lemma_decimal_reads_back(pid as nat);
    assert forall|i: int| 0 <= i < record.len() implies #[trigger] record[i] != '\n' by {
        let size = image.len() as int;
        let count = digits.len() as int;
        if 1 <= i <= size {
            assert(record[i] == image[i - 1]);
        } else if size + 4 <= i < size + 4 + count {
            assert(record[i] == digits[i - size - 4]);
            assert(is_digit(digits[i - size - 4]));
        } else if i >= size + 5 + count {
            assert(record[i] == rest[i - size - 5 - count]);
        }
    }
    lemma_lines_after_first(record, tail);
    lemma_first_record_is_found(image, pid, rest, lines_of(tail));
}

/// Elsewhere a worker whose identifier stands on the first line of the
/// reply is found, whatever follows that line.
pub proof fn lemma_printed_worker_is_found(pid: u32, tail: Seq<char>)
    ensures
        orphan_in(Platform::Unix, decimal_digits(pid as nat) + seq!['\n'] + tail) == Some(pid),
{
    let digits = decimal_digits(pid as nat);
    lemma_decimal_reads_back(pid as nat);
    lemma_decimal_trims_to_itself(pid as nat);
    assert forall|i: int| 0 <= i < digits.len() implies #[trigger] digits[i] != '\n' by {
        assert(is_digit(digits[i]));
    }
    assert(is_digit(digits.last()));
    lemma_lines_after_line_feed(digits, tail);
    let lines = seq![digits] + lines_of(tail);
    assert(lines[0] == digits);
}

} // verus!
