//! Operations on text that the rest of the library is written with.

use vstd::prelude::*;

verus! {

/// Whether `c` is white space: it has the Unicode property `White_Space`.
pub open spec fn white_space(c: char) -> bool {
    let code = c as u32;
    ||| 0x9 <= code <= 0xD
    ||| code == 0x20
    ||| code == 0x85
    ||| code == 0xA0
    ||| code == 0x1680
    ||| 0x2000 <= code <= 0x200A
    ||| code == 0x2028
    ||| code == 0x2029
    ||| code == 0x202F
    ||| code == 0x205F
    ||| code == 0x3000
}

/// Whether `c` is white space.
pub fn is_white_space(c: char) -> (answer: bool)
    ensures
        answer == white_space(c),
{
    let code: u32 = c as u32;
    (0x9 <= code && code <= 0xD) || code == 0x20 || code == 0x85 || code == 0xA0 || code == 0x1680
        || (0x2000 <= code && code <= 0x200A) || code == 0x2028 || code == 0x2029 || code == 0x202F
        || code == 0x205F || code == 0x3000
}

/// `text` without the white space that it begins with.
pub open spec fn trim_front(text: Seq<char>) -> Seq<char>
    decreases text.len(),
{
    if text.len() > 0 && white_space(text.first()) {
        trim_front(text.drop_first())
    } else {
        text
    }
}

/// `text` without the white space that it ends with.
pub open spec fn trim_back(text: Seq<char>) -> Seq<char>
    decreases text.len(),
{
    if text.len() > 0 && white_space(text.last()) {
        trim_back(text.drop_last())
    } else {
        text
    }
}

/// `text` without the white space around it.
pub open spec fn trimmed(text: Seq<char>) -> Seq<char> {
    trim_back(trim_front(text))
}

/// The characters of `text` in a vector.
fn characters(text: &str) -> (chars: Vec<char>)
    ensures
        chars@ == text@,
{
    let mut chars: Vec<char> = Vec::new();
    for c in it: text.chars()
        invariant
            it.seq() == text@,
            chars@ == text@.take(it.index()),
    {
        proof {
            assert(text@.take(it.index() + 1) =~= text@.take(it.index()).push(c));
        }
        chars.push(c);
    }
    proof {
        assert(text@.take(text@.len() as int) =~= text@);
    }
    chars
}

/// A copy of `text` without the white space around it.
pub fn trim(text: &str) -> (inner: String)
    ensures
        inner@ == trimmed(text@),
{
    let chars: Vec<char> = characters(text);
    let mut low: usize = 0;
    proof {
        assert(text@.skip(0) =~= text@);
    }
    while low < chars.len() && is_white_space(chars[low])
        invariant
            chars@ == text@,
            low <= chars.len(),
            trim_front(text@) == trim_front(text@.skip(low as int)),
        ensures
            low <= chars.len(),
            trim_front(text@) == text@.skip(low as int),
        decreases chars.len() - low,
    {
        proof {
            assert(text@.skip(low as int).drop_first() =~= text@.skip(low + 1));
        }
        low = low + 1;
    }
    let mut high: usize = chars.len();
    let ghost front = text@.skip(low as int);
    proof {
        assert(text@.subrange(low as int, high as int) =~= front);
    }
    while low < high && is_white_space(chars[high - 1])
        invariant
            chars@ == text@,
            low <= high <= chars.len(),
            trim_back(front) == trim_back(text@.subrange(low as int, high as int)),
        ensures
            low <= high <= chars.len(),
            trim_back(front) == text@.subrange(low as int, high as int),
        decreases high,
    {
        proof {
            assert(text@.subrange(low as int, high as int).drop_last() =~= text@.subrange(
                low as int,
                high - 1,
            ));
        }
        high = high - 1;
    }
    text.substring_char(low, high).to_owned()
}

/// A text that may be absent, as data.
pub open spec fn text_model(text: Option<String>) -> Option<Seq<char>> {
    match text {
        Some(text) => Some(text@),
        None => None,
    }
}

/// Whether two texts are the same.
pub fn same_text(left: &str, right: &str) -> (same: bool)
    ensures
        same == (left@ == right@),
{
    left.to_owned() == right.to_owned()
}

/// Whether `piece` stands somewhere in `text`.
pub open spec fn has_piece(text: Seq<char>, piece: Seq<char>) -> bool {
    exists|at: int|
        0 <= at <= text.len() - piece.len() && #[trigger] text.subrange(at, at + piece.len())
            == piece
}

/// Whether `piece` stands in `text` from `at` on.
fn stands_at(text: &Vec<char>, piece: &Vec<char>, at: usize) -> (found: bool)
    requires
        at + piece@.len() <= text@.len(),
    ensures
        found == (text@.subrange(at as int, at + piece@.len()) == piece@),
{
    let len: usize = text.len();
    for i in 0..piece.len()
        invariant
            at + piece@.len() <= text@.len(),
            text@.len() == len,
            forall|j: int| 0 <= j < i ==> text@[at + j] == #[trigger] piece@[j],
    {
        if text[at + i] != piece[i] {
            proof {
                assert(text@.subrange(at as int, at + piece@.len())[i as int] != piece@[i as int]);
            }
            return false;
        }
    }
    proof {
        assert(text@.subrange(at as int, at + piece@.len()) =~= piece@);
    }
    true
}

/// Whether `piece` stands somewhere in `text`.
pub fn contains_text(text: &str, piece: &str) -> (found: bool)
    ensures
        found == has_piece(text@, piece@),
{
    let text_chars: Vec<char> = characters(text);
    let piece_chars: Vec<char> = characters(piece);
    if piece_chars.len() > text_chars.len() {
        return false;
    }
    let last: usize = text_chars.len() - piece_chars.len();
    let mut at: usize = 0;
    while at < last
        invariant
            text_chars@ == text@,
            piece_chars@ == piece@,
            last == text@.len() - piece@.len(),
            at <= last,
            forall|earlier: int|
                0 <= earlier < at ==> #[trigger] text@.subrange(earlier, earlier + piece@.len())
                    != piece@,
        decreases last - at,
    {
        if stands_at(&text_chars, &piece_chars, at) {
            return true;
        }
        at = at + 1;
    }
    stands_at(&text_chars, &piece_chars, last)
}

/// The lower-case form of an ASCII capital; any other character is its own.
pub open spec fn ascii_lower(c: char) -> char {
    if 'A' <= c <= 'Z' {
        (c as u32 + 32) as char
    } else {
        c
    }
}

/// `text` with every ASCII capital in lower case.
pub open spec fn ascii_lowered(text: Seq<char>) -> Seq<char> {
    text.map_values(|c: char| ascii_lower(c))
}

fn lower(c: char) -> (lowered: char)
    ensures
        lowered == ascii_lower(c),
{
    if 'A' <= c && c <= 'Z' {
        (c as u8 + 32) as char
    } else {
        c
    }
}

/// Whether `text` reads `lowered` once its ASCII capitals are in lower case.
pub fn reads_in_lower_case(text: &str, lowered: &str) -> (same: bool)
    ensures
        same == (ascii_lowered(text@) == lowered@),
{
    let chars: Vec<char> = characters(text);
    let expected: Vec<char> = characters(lowered);
    if chars.len() != expected.len() {
        proof {
            assert(ascii_lowered(text@).len() == text@.len());
        }
        return false;
    }
    for i in 0..chars.len()
        invariant
            chars@ == text@,
            expected@ == lowered@,
            chars@.len() == expected@.len(),
            forall|j: int| 0 <= j < i ==> ascii_lower(#[trigger] chars@[j]) == expected@[j],
    {
        if lower(chars[i]) != expected[i] {
            proof {
                assert(ascii_lowered(text@)[i as int] != lowered@[i as int]);
            }
            return false;
        }
    }
    proof {
        assert(ascii_lowered(text@) =~= lowered@);
    }
    true
}

/// The text that the standard library shows for bytes that are not UTF-8.
pub uninterp spec fn utf8_fault(bytes: Seq<u8>) -> Seq<char>;

/// Calls `String::from_utf8`: valid UTF-8 gives the text that it encodes, anything else the
/// message of the `FromUtf8Error`.
#[verifier::external_body]
pub(crate) fn decode_text(bytes: Vec<u8>) -> (decoded: Result<String, String>)
    ensures
        decoded is Ok <==> vstd::utf8::valid_utf8(bytes@),
        decoded matches Ok(text) ==> text@ == vstd::utf8::decode_utf8(bytes@),
        decoded matches Err(message) ==> message@ == utf8_fault(bytes@),
{
    String::from_utf8(bytes).map_err(|error| error.to_string())
}

/// The character of one decimal digit.
pub open spec fn digit(value: int) -> char {
    if value == 0 {
        '0'
    } else if value == 1 {
        '1'
    } else if value == 2 {
        '2'
    } else if value == 3 {
        '3'
    } else if value == 4 {
        '4'
    } else if value == 5 {
        '5'
    } else if value == 6 {
        '6'
    } else if value == 7 {
        '7'
    } else if value == 8 {
        '8'
    } else {
        '9'
    }
}

/// A natural number in decimal.
pub open spec fn natural_text(value: int) -> Seq<char>
    decreases value,
{
    if value < 10 {
        seq![digit(value)]
    } else {
        natural_text(value / 10).push(digit(value % 10))
    }
}

/// An integer in decimal, with a minus sign where it is negative.
pub open spec fn integer_text(value: int) -> Seq<char> {
    if value < 0 {
        seq!['-'] + natural_text(-value)
    } else {
        natural_text(value)
    }
}

fn digit_str(value: u64) -> (text: &'static str)
    requires
        value < 10,
    ensures
        text@ == seq![digit(value as int)],
{
    proof {
        reveal_strlit("0");
        reveal_strlit("1");
        reveal_strlit("2");
        reveal_strlit("3");
        reveal_strlit("4");
        reveal_strlit("5");
        reveal_strlit("6");
        reveal_strlit("7");
        reveal_strlit("8");
        reveal_strlit("9");
    }
    let text: &'static str = match value {
        0 => "0",
        1 => "1",
        2 => "2",
        3 => "3",
        4 => "4",
        5 => "5",
        6 => "6",
        7 => "7",
        8 => "8",
        _ => "9",
    };
    proof {
        assert(text@ =~= seq![digit(value as int)]);
    }
    text
}

fn write_natural(value: u64) -> (text: String)
    ensures
        text@ == natural_text(value as int),
    decreases value,
{
    if value < 10 {
        digit_str(value).to_owned()
    } else {
        let mut text: String = write_natural(value / 10);
        text.append(digit_str(value % 10));
        proof {
            assert(text@ =~= natural_text(value as int));
        }
        text
    }
}

/// `value` in decimal.
pub fn write_integer(value: i32) -> (text: String)
    ensures
        text@ == integer_text(value as int),
{
    if value < 0 {
        let mut text: String = "-".to_owned();
        text.append(write_natural((-(value as i64)) as u64).as_str());
        proof {
            reveal_strlit("-");
            assert(text@ =~= integer_text(value as int));
        }
        text
    } else {
        write_natural(value as u64)
    }
}

} // verus!
