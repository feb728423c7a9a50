//! Plain text: comparing it, cutting it at a character, and printing numbers.

use vstd::prelude::*;
use vstd::string::*;

verus! {

/// The text of an optional string.
pub open spec fn optional_text(value: Option<String>) -> Option<Seq<char>> {
    match value {
        Some(text) => Some(text@),
        None => None,
    }
}

/// The texts of a list of strings, in order.
pub open spec fn texts(values: Seq<String>) -> Seq<Seq<char>> {
    values.map_values(|value: String| value@)
}

/// What follows the last `mark` in `text`, or all of `text` if it has none.
pub open spec fn after_last(text: Seq<char>, mark: char) -> Seq<char> {
    match text.index_of_last(mark) {
        Some(index) => text.subrange(index + 1, text.len() as int),
        None => text,
    }
}

/// The parts of `text` before and after its first `mark`.
pub open spec fn split_first(text: Seq<char>, mark: char) -> Option<(Seq<char>, Seq<char>)> {
    match text.index_of_first(mark) {
        Some(index) => Some(
            (text.subrange(0, index), text.subrange(index + 1, text.len() as int)),
        ),
        None => None,
    }
}

/// The character for one decimal digit.
pub open spec fn digit(value: nat) -> char {
    if value == 0 {
        '0'
    } else if value == 1 {
        '1'
    } else if value == 2 {
        '2'
    } else if value == 3 {
        '3'
    } else if value == 4 {
        '4'
    } else if value == 5 {
        '5'
    } else if value == 6 {
        '6'
    } else if value == 7 {
        '7'
    } else if value == 8 {
        '8'
    } else {
        '9'
    }
}

/// A number in decimal, with no leading zeros.
pub open spec fn decimal(value: nat) -> Seq<char>
    decreases value,
{
    if value < 10 {
        seq![digit(value)]
    } else {
        decimal(value / 10).push(digit(value % 10))
    }
}

/// `needle` occurs in `text`, starting at `at`.
pub open spec fn occurs_at(text: Seq<char>, needle: Seq<char>, at: int) -> bool {
    0 <= at && at + needle.len() <= text.len() && text.subrange(at, at + needle.len()) == needle
}

/// `needle` occurs somewhere in `text`.
pub open spec fn occurs_in(text: Seq<char>, needle: Seq<char>) -> bool {
    exists|at: int| occurs_at(text, needle, at)
}

/// A number in decimal is made of digits.
pub proof fn lemma_decimal_digits(value: nat)
    ensures
        forall|index: int|
            0 <= index < decimal(value).len() ==> '0' <= #[trigger] decimal(value)[index] <= '9',
    decreases value,
{
    assert('0' <= digit(value % 10) <= '9');
    if value >= 10 {
        lemma_decimal_digits(value / 10);
        assert(decimal(value) == decimal(value / 10).push(digit(value % 10)));
    } else {
        assert(decimal(value) == seq![digit(value)]);
        assert(value % 10 == value);
    }
}

/// Returns whether two texts are the same.
pub fn same_text(left: &str, right: &str) -> (same: bool)
    ensures
        same == (left@ == right@),
{
    left.to_owned() == right.to_owned()
}

/// Copies a list of strings.
pub fn copy_texts(values: &Vec<String>) -> (copies: Vec<String>)
    ensures
        copies@ == values@,
{
    let mut copies: Vec<String> = Vec::new();
    let mut index: usize = 0;
    while index < values.len()
        invariant
            index <= values.len(),
            copies@ == values@.subrange(0, index as int),
        decreases values.len() - index,
    {
        copies.push(values[index].clone());
        index += 1;
    }
    copies
}

/// Returns what follows the last `mark` in `text`, or all of `text` if it has
/// none.
pub fn text_after_last(text: &str, mark: char) -> (rest: &str)
    ensures
        rest@ == after_last(text@, mark),
{
    let length: usize = text.unicode_len();
    let mut index: usize = length;
    proof {
        text@.index_of_last_ensures(mark);
    }
    while index > 0
        invariant
            index <= length,
            length == text@.len(),
            forall|later: int| index <= later < length ==> text@[later] != mark,
            match text@.index_of_last(mark) {
                Some(last) => 0 <= last < text@.len() && text@[last] == mark && (forall|later: int|
                    last < later < text@.len() ==> text@[later] != mark),
                None => !text@.contains(mark),
            },
        decreases index,
    {
        index -= 1;
        if text.get_char(index) == mark {
            assert(text@.contains(mark));
            return text.substring_char(index + 1, length);
        }
    }
    text
}

/// Splits `text` at its first `mark`, leaving the mark out of both parts.
pub fn split_text_first(text: &str, mark: char) -> (parts: Option<(&str, &str)>)
    ensures
        match parts {
            Some((before, after)) => split_first(text@, mark) == Some((before@, after@)),
            None => split_first(text@, mark) is None,
        },
{
    let length: usize = text.unicode_len();
    let mut index: usize = 0;
    proof {
        text@.index_of_first_ensures(mark);
    }
    while index < length
        invariant
            index <= length,
            length == text@.len(),
            forall|earlier: int| 0 <= earlier < index ==> text@[earlier] != mark,
            match text@.index_of_first(mark) {
                Some(first) => 0 <= first < text@.len() && text@[first] == mark && (forall|
                    earlier: int,
                | 0 <= earlier < first ==> text@[earlier] != mark),
                None => !text@.contains(mark),
            },
        decreases length - index,
    {
        if text.get_char(index) == mark {
            assert(text@.contains(mark));
            return Some((text.substring_char(0, index), text.substring_char(index + 1, length)));
        }
        index += 1;
    }
    None
}

/// Returns the text of one decimal digit.
fn digit_text(value: u64) -> (text: &'static str)
    requires
        value < 10,
    ensures
        text@ == seq![digit(value as nat)],
{
    proof {
        reveal_strlit("0");
        reveal_strlit("1");
        reveal_strlit("2");
        reveal_strlit("3");
        reveal_strlit("4");
        reveal_strlit("5");
        reveal_strlit("6");
        reveal_strlit("7");
        reveal_strlit("8");
        reveal_strlit("9");
    }
    if value == 0 {
        "0"
    } else if value == 1 {
        "1"
    } else if value == 2 {
        "2"
    } else if value == 3 {
        "3"
    } else if value == 4 {
        "4"
    } else if value == 5 {
        "5"
    } else if value == 6 {
        "6"
    } else if value == 7 {
        "7"
    } else if value == 8 {
        "8"
    } else {
        "9"
    }
}

/// Appends a number in decimal.
pub fn push_decimal(buf: &mut String, value: u64)
    ensures
        final(buf)@ == old(buf)@ + decimal(value as nat),
    decreases value,
{
    if value >= 10 {
        push_decimal(buf, value / 10);
    }
    buf.append(digit_text(value % 10));
    assert(decimal(value as nat) == if value < 10 {
        seq![digit(value as nat)]
    } else {
        decimal(value as nat / 10).push(digit(value as nat % 10))
    });
    assert(value < 10 ==> value % 10 == value);
}

/// The number that some decimal digits stand for.
pub open spec fn number_of(digits: Seq<char>) -> int
    decreases digits.len(),
{
    if digits.len() == 0 {
        0
    } else {
        10 * number_of(digits.drop_last()) + (digits.last() as int - '0' as int)
    }
}

/// A number in decimal reads back as that number, and starts with a zero only if it
/// is zero.
pub proof fn law_decimals_read_back(value: nat)
    ensures
        number_of(decimal(value)) == value,
        decimal(value).len() > 0,
        decimal(value)[0] == '0' <==> value == 0,
        value == 0 ==> decimal(value).len() == 1,
    decreases value,
{
    assert(digit(value % 10) as int - '0' as int == value % 10);
    if value < 10 {
        let single = decimal(value);
        assert(single.drop_last() == Seq::<char>::empty());
        assert(number_of(single.drop_last()) == 0);
        assert(value % 10 == value);
    } else {
        law_decimals_read_back(value / 10);
        let all = decimal(value);
        assert(all.drop_last() == decimal(value / 10));
        assert(all[0] == decimal(value / 10)[0]);
    }
}

/// What follows the last mark has no mark in it; putting it back behind what came
/// before, with the mark between, gives the text again. A text without a mark is
/// kept whole.
pub proof fn law_nothing_is_lost_before_the_last_mark(text: Seq<char>, mark: char)
    ensures
        ({
            let rest = after_last(text, mark);
            let cut = text.len() - rest.len();
            &&& !rest.contains(mark)
            &&& !text.contains(mark) ==> rest == text
            &&& text.contains(mark) ==> {
                &&& cut > 0
                &&& text[cut - 1] == mark
                &&& text == text.subrange(0, cut - 1).push(mark) + rest
            }
        }),
{
    text.index_of_last_ensures(mark);
    let rest = after_last(text, mark);
    if let Some(index) = text.index_of_last(mark) {
        assert(text.contains(mark));
        assert forall|at: int| 0 <= at < rest.len() implies rest[at] != mark by {
            assert(rest[at] == text[index + 1 + at]);
        }
        assert(text =~= text.subrange(0, index).push(mark) + rest);
    }
}

/// Splitting a text at a mark that occurs in it gives two parts that make up the
/// text again with the mark between them, the first of them without a mark; a text
/// that has no mark is not split.
pub proof fn law_splits_join_back(text: Seq<char>, mark: char)
    ensures
        match split_first(text, mark) {
            Some((before, after)) => {
                &&& text == before.push(mark) + after
                &&& !before.contains(mark)
            },
            None => !text.contains(mark),
        },
{
    text.index_of_first_ensures(mark);
    if let Some(index) = text.index_of_first(mark) {
        let before = text.subrange(0, index);
        let after = text.subrange(index + 1, text.len() as int);
        assert(text =~= before.push(mark) + after);
        assert forall|at: int| 0 <= at < before.len() implies before[at] != mark by {
            assert(before[at] == text[at]);
        }
    }
}

/// The texts of strings are those of each string in turn.
pub proof fn law_texts_keep_their_places(values: Seq<String>, index: int)
    requires
        0 <= index < values.len(),
    ensures
        texts(values).len() == values.len(),
        texts(values)[index] == values[index]@,
        optional_text(Some(values[index])) == Some(values[index]@),
        optional_text(None) is None,
{
}

} // verus!
