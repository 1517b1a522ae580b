use vstd::prelude::*;
use vstd::std_specs::iter::IteratorSpec;

verus! {

/// The character that writes the digit `d` in base ten.
pub open spec fn digit_char(d: nat) -> char
    recommends
        d < 10,
{
    if d == 0 {
        '0'
    } else if d == 1 {
        '1'
    } else if d == 2 {
        '2'
    } else if d == 3 {
        '3'
    } else if d == 4 {
        '4'
    } else if d == 5 {
        '5'
    } else if d == 6 {
        '6'
    } else if d == 7 {
        '7'
    } else if d == 8 {
        '8'
    } else {
        '9'
    }
}

/// The base-ten numeral of `n`, most significant digit first, without leading zeros.
pub open spec fn decimal_digits(n: nat) -> Seq<char>
    decreases n,
{
    if n < 10 {
        seq![digit_char(n)]
    } else {
        decimal_digits(n / 10).push(digit_char(n % 10))
    }
}

fn digit_text(d: u8) -> (text: &'static str)
    requires
        d < 10,
    ensures
        text@ == seq![digit_char(d as nat)],
{
    proof {
        reveal_strlit("0");
        reveal_strlit("1");
        reveal_strlit("2");
        reveal_strlit("3");
        reveal_strlit("4");
        reveal_strlit("5");
        reveal_strlit("6");
        reveal_strlit("7");
        reveal_strlit("8");
        reveal_strlit("9");
    }
    let text = if d == 0 {
        "0"
    } else if d == 1 {
        "1"
    } else if d == 2 {
        "2"
    } else if d == 3 {
        "3"
    } else if d == 4 {
        "4"
    } else if d == 5 {
        "5"
    } else if d == 6 {
        "6"
    } else if d == 7 {
        "7"
    } else if d == 8 {
        "8"
    } else {
        "9"
    };
    assert(text@ =~= seq![digit_char(d as nat)]);
    text
}

/// Writes `n` in base ten.
pub fn decimal_text(n: u128) -> (text: String)
    ensures
        text@ == decimal_digits(n as nat),
    decreases n,
{
    if n < 10 {
        String::from_str(digit_text(n as u8))
    } else {
        let mut text = decimal_text(n / 10);
        text.append(digit_text((n % 10) as u8));
        assert(text@ =~= decimal_digits(n as nat));
        text
    }
}

/// What a list of strings holds: the characters of each, in the order of the list.
pub open spec fn texts(list: Seq<String>) -> Seq<Seq<char>> {
    list.map_values(|text: String| text@)
}

/// The parts written one after another with the separator between each two of them.
pub open spec fn joined(parts: Seq<Seq<char>>, separator: Seq<char>) -> Seq<char>
    decreases parts.len(),
{
    if parts.len() == 0 {
        Seq::empty()
    } else if parts.len() == 1 {
        parts[0]
    } else {
        joined(parts.drop_last(), separator) + separator + parts.last()
    }
}

/// Copies a list of strings: the same strings in the same order.
pub fn clone_texts(list: &[String]) -> (copy: Vec<String>)
    ensures
        texts(copy@) == texts(list@),
{
    let mut copy: Vec<String> = Vec::new();
    let mut index: usize = 0;
    while index < list.len()
        invariant
            index <= list.len(),
            copy@.len() == index,
            forall|k: int| 0 <= k < index ==> copy@[k]@ == list@[k]@,
        decreases list.len() - index,
    {
        copy.push(list[index].clone());
        index = index + 1;
    }
    assert(texts(copy@) =~= texts(list@));
    copy
}

/// Joins the strings of a list into one, with the separator between each two of them.
pub fn join_texts(list: &[String], separator: &str) -> (text: String)
    ensures
        text@ == joined(texts(list@), separator@),
{
    let mut text = String::new();
    let mut index: usize = 0;
    while index < list.len()
        invariant
            index <= list.len(),
            text@ == joined(texts(list@).take(index as int), separator@),
        decreases list.len() - index,
    {
        let ghost before = texts(list@).take(index as int);
        let ghost after = texts(list@).take(index + 1);
        proof {
            assert(after.drop_last() =~= before);
            assert(after.last() == list@[index as int]@);
        }
        if index > 0 {
            text.append(separator);
        }
        text.append(list[index].as_str());
        proof {
            if index == 0 {
                assert(text@ =~= list@[0]@);
            }
        }
        index = index + 1;
    }
    assert(texts(list@).take(list.len() as int) =~= texts(list@));
    text
}

/// The characters of a string, one by one.
pub fn chars_of(text: &str) -> (chars: Vec<char>)
    ensures
        chars@ == text@,
{
    let mut chars: Vec<char> = Vec::new();
    let mut rest = text.chars();
    loop
        invariant
            chars@ + rest.remaining() == text@,
            rest.decrease() is Some,
        ensures
            chars@ == text@,
        decreases rest.decrease()->0,
    {
        let ghost before = rest;
        match rest.next() {
            Some(c) => {
                proof {
                    assert(before.remaining().len() > 0);
                    assert(chars@.push(c) + rest.remaining() =~= chars@ + before.remaining());
                }
                chars.push(c);
            },
            None => {
                proof {
                    assert(before.remaining().len() == 0);
                    assert(chars@ + before.remaining() =~= chars@);
                }
                break ;
            },
        }
    }
    chars
}

/// The segments of a name: the runs of characters between its dots. Read from the left, a
/// dot closes a segment and opens an empty one, and any other character joins the last
/// segment. A name without a dot is one segment, and so is the empty name.
pub open spec fn split_at_dots(text: Seq<char>) -> Seq<Seq<char>>
    decreases text.len(),
{
    if text.len() == 0 {
        seq![Seq::<char>::empty()]
    } else {
        let before = split_at_dots(text.drop_last());
        if text.last() == '.' {
            before.push(Seq::<char>::empty())
        } else {
            before.drop_last().push(before.last().push(text.last()))
        }
    }
}

/// Where each segment of `chars` starts and ends: `bounds[k]` holds the index of the first
/// character of segment `k` and the index after its last.
pub fn segment_bounds(chars: &Vec<char>) -> (bounds: Vec<(usize, usize)>)
    ensures
        bounds@.len() == split_at_dots(chars@).len(),
        bounds@[0].0 == 0,
        bounds@.last().1 == chars@.len(),
        forall|k: int|
            0 <= k < bounds@.len() - 1 ==> (#[trigger] bounds@[k]).1 + 1 == bounds@[k + 1].0,
        forall|k: int|
            0 <= k < bounds@.len() ==> (#[trigger] bounds@[k]).0 <= bounds@[k].1 <= chars@.len()
                && split_at_dots(chars@)[k] == chars@.subrange(
                bounds@[k].0 as int,
                bounds@[k].1 as int,
            ),
{
    let mut bounds: Vec<(usize, usize)> = Vec::new();
    let mut start: usize = 0;
    let mut index: usize = 0;
    proof {
        assert(chars@.take(0) =~= Seq::<char>::empty());
        assert(chars@.subrange(0, 0) =~= Seq::<char>::empty());
    }
    while index < chars.len()
        invariant
            start <= index <= chars@.len(),
            bounds@.len() > 0 ==> bounds@[0].0 == 0 && bounds@.last().1 + 1 == start,
            bounds@.len() == 0 ==> start == 0,
            forall|k: int|
                0 <= k < bounds@.len() - 1 ==> (#[trigger] bounds@[k]).1 + 1 == bounds@[k + 1].0,
            split_at_dots(chars@.take(index as int)).len() == bounds@.len() + 1,
            split_at_dots(chars@.take(index as int)).last() == chars@.subrange(
                start as int,
                index as int,
            ),
            forall|k: int|
                0 <= k < bounds@.len() ==> (#[trigger] bounds@[k]).0 <= bounds@[k].1
                    <= chars@.len() && split_at_dots(chars@.take(index as int))[k]
                    == chars@.subrange(bounds@[k].0 as int, bounds@[k].1 as int),
        decreases chars@.len() - index,
    {
        let ghost before = split_at_dots(chars@.take(index as int));
        proof {
            assert(chars@.take(index + 1).drop_last() =~= chars@.take(index as int));
            assert(chars@.take(index + 1).last() == chars@[index as int]);
        }
        if chars[index] == '.' {
            bounds.push((start, index));
            start = index + 1;
            proof {
                assert(chars@.subrange(start as int, start as int) =~= Seq::<char>::empty());
            }
        } else {
            proof {
                assert(chars@.subrange(start as int, index as int).push(chars@[index as int])
                    =~= chars@.subrange(start as int, index + 1));
            }
        }
        index = index + 1;
    }
    proof {
        assert(chars@.take(index as int) =~= chars@);
    }
    bounds.push((start, index));
    bounds
}

/// `std::num::ParseIntError`: why a text is no number. Carried through as it came.
#[verifier::external_type_specification]
#[verifier::external_body]
pub struct ExParseIntError(std::num::ParseIntError);

/// The digit that a character writes in base ten, if any.
pub open spec fn digit_value(c: char) -> Option<nat> {
    if c == '0' {
        Some(0)
    } else if c == '1' {
        Some(1)
    } else if c == '2' {
        Some(2)
    } else if c == '3' {
        Some(3)
    } else if c == '4' {
        Some(4)
    } else if c == '5' {
        Some(5)
    } else if c == '6' {
        Some(6)
    } else if c == '7' {
        Some(7)
    } else if c == '8' {
        Some(8)
    } else if c == '9' {
        Some(9)
    } else {
        None
    }
}

/// The number that a run of base-ten digits writes. There is none for an empty run, nor
/// for one that holds anything but digits.
pub open spec fn digits_value(digits: Seq<char>) -> Option<nat>
    decreases digits.len(),
{
    if digits.len() == 0 {
        None
    } else {
        match digit_value(digits.last()) {
            None => None,
            Some(digit) => if digits.len() == 1 {
                Some(digit)
            } else {
                match digits_value(digits.drop_last()) {
                    Some(value) => Some(value * 10 + digit),
                    None => None,
                }
            },
        }
    }
}

/// The 128-bit number that a text writes in base ten: digits alone, or a plus sign and
/// digits, with a value that fits in 128 bits.
pub open spec fn parsed_u128(text: Seq<char>) -> Option<u128> {
    let digits = if text.len() > 0 && text[0] == '+' {
        text.drop_first()
    } else {
        text
    };
    match digits_value(digits) {
        Some(value) => if value <= u128::MAX {
            Some(value as u128)
        } else {
            None
        },
        None => None,
    }
}

/// Calls `str::parse::<u128>` of std. By its documentation the text is an optional plus
/// sign followed by digits only, anything else is an error, and so is a value that does
/// not fit: the contract says that the call returns the number where [parsed_u128] gives
/// one, and an error where it gives none.
#[verifier::external_body]
pub(crate) fn parse_u128(text: &str) -> (result: Result<u128, std::num::ParseIntError>)
    ensures
        match parsed_u128(text@) {
            Some(value) => result == Ok::<u128, std::num::ParseIntError>(value),
            None => result is Err,
        },
{
    text.parse::<u128>()
}

/// A base-ten numeral is made of digits, and writes the number that it was made from.
proof fn lemma_decimal_digits_value(n: nat)
    ensures
        decimal_digits(n).len() >= 1,
        digit_value(decimal_digits(n)[0]) is Some,
        digits_value(decimal_digits(n)) == Some(n),
    decreases n,
{
    if n >= 10 {
        lemma_decimal_digits_value(n / 10);
        let shorter = decimal_digits(n / 10);
        let longer = decimal_digits(n);
        assert(longer.drop_last() =~= shorter);
        assert(longer.last() == digit_char(n % 10));
        assert(longer[0] == shorter[0]);
    }
}

/// What the library writes of an amount, it reads as the same amount: the base-ten numeral
/// of a 128-bit number is read back as that number.
pub proof fn lemma_decimal_digits_read_back(amount: u128)
    ensures
        parsed_u128(decimal_digits(amount as nat)) == Some(amount),
{
    lemma_decimal_digits_value(amount as nat);
}

/// Nothing is lost where a text is split at its dots: the segments, joined by dots again,
/// are the text.
pub proof fn lemma_segments_join_to_text(text: Seq<char>)
    ensures
        split_at_dots(text).len() >= 1,
        joined(split_at_dots(text), seq!['.']) == text,
    decreases text.len(),
{
    let dot = seq!['.'];
    if text.len() == 0 {
        assert(joined(split_at_dots(text), dot) =~= text);
    } else {
        lemma_segments_join_to_text(text.drop_last());
        let before = split_at_dots(text.drop_last());
        let parts = split_at_dots(text);
        if text.last() == '.' {
            assert(parts.drop_last() =~= before);
            assert(joined(parts, dot) =~= text.drop_last() + dot);
            assert(text.drop_last() + dot =~= text);
        } else if before.len() == 1 {
            assert(joined(before, dot) == before[0]);
            assert(parts[0] =~= text);
        } else {
            assert(parts.drop_last() =~= before.drop_last());
            assert(parts.last() == before.last().push(text.last()));
            assert(joined(parts, dot) =~= (joined(before.drop_last(), dot) + dot
                + before.last()).push(text.last()));
            assert(text.drop_last().push(text.last()) =~= text);
        }
    }
}

} // verus!
