//! What holds of the operations on text, and of the members of JSON values.

use vstd::prelude::*;

use crate::json::{
    find_member, JsonKind, JsonKindModel, JsonMemberModel, JsonModel, JsonValue,
};
use crate::text::{
    ascii_lowered, digit, has_piece, integer_text, natural_text, trim_back, trim_front, trimmed,
    white_space,
};

verus! {

/// Whether everything in `text` is white space.
pub open spec fn is_blank(text: Seq<char>) -> bool {
    forall|i: int| 0 <= i < text.len() ==> white_space(#[trigger] text[i])
}

/// Whether `inner` is `text` without the white space around it: the part that begins with the
/// first character that is none and ends with the last.
pub open spec fn is_inner(text: Seq<char>, inner: Seq<char>) -> bool {
    exists|low: int, high: int|
        {
            &&& 0 <= low <= high <= text.len()
            &&& inner == #[trigger] text.subrange(low, high)
            &&& is_blank(text.take(low))
            &&& is_blank(text.skip(high))
            &&& inner.len() > 0 ==> !white_space(inner.first()) && !white_space(inner.last())
        }
}

proof fn lemma_front(text: Seq<char>) -> (low: int)
    ensures
        0 <= low <= text.len(),
        trim_front(text) == text.skip(low),
        is_blank(text.take(low)),
        low < text.len() ==> !white_space(text[low]),
    decreases text.len(),
{
    if text.len() > 0 && white_space(text.first()) {
        let low = lemma_front(text.drop_first());
        assert(text.drop_first().skip(low) =~= text.skip(low + 1));
        assert forall|i: int| 0 <= i < low + 1 implies white_space(
            #[trigger] text.take(low + 1)[i],
        ) by {
            if i > 0 {
                assert(text.drop_first().take(low)[i - 1] == text[i]);
            }
        }
        low + 1
    } else {
        assert(text.skip(0) =~= text);
        0
    }
}

proof fn lemma_back(text: Seq<char>) -> (high: int)
    ensures
        0 <= high <= text.len(),
        trim_back(text) == text.take(high),
        is_blank(text.skip(high)),
        high > 0 ==> !white_space(text[high - 1]),
    decreases text.len(),
{
    if text.len() > 0 && white_space(text.last()) {
        let high = lemma_back(text.drop_last());
        assert(text.drop_last().take(high) =~= text.take(high));
        assert forall|i: int| 0 <= i < text.len() - high implies white_space(
            #[trigger] text.skip(high)[i],
        ) by {
            if i < text.len() - high - 1 {
                assert(text.drop_last().skip(high)[i] == text[high + i]);
            }
        }
        high
    } else {
        assert(text.take(text.len() as int) =~= text);
        text.len() as int
    }
}

/// Trimming takes away the white space at both ends, all of it and nothing else.
pub proof fn law_trimming_takes_the_white_space_around(text: Seq<char>)
    ensures
        is_inner(text, trimmed(text)),
        trimmed(text).len() == 0 <==> is_blank(text),
{
    let low = lemma_front(text);
    let front = text.skip(low);
    let length = lemma_back(front);
    let high = low + length;
    let inner = trimmed(text);
    assert(front.take(length) =~= text.subrange(low, high));
    assert(front.skip(length) =~= text.skip(high));
    if inner.len() > 0 {
        assert(inner.first() == text[low]);
        assert(inner.last() == front[length - 1]);
        assert(!white_space(text[low]));
    } else {
        assert(text.take(low) + text.skip(high) =~= text);
        assert forall|i: int| 0 <= i < text.len() implies white_space(#[trigger] text[i]) by {
            if i < low {
                assert(text.take(low)[i] == text[i]);
            } else {
                assert(text.skip(high)[i - high] == text[i]);
            }
        }
    }
}

/// A text has a piece exactly if it is some text, the piece and some text.
pub proof fn law_pieces_stand_between(front: Seq<char>, piece: Seq<char>, back: Seq<char>)
    ensures
        has_piece(front + piece + back, piece),
{
    let text = front + piece + back;
    let at = front.len() as int;
    assert(text.subrange(at, at + piece.len()) =~= piece);
}

/// A text that has a piece can be parted around it.
pub proof fn law_texts_part_at_their_pieces(text: Seq<char>, piece: Seq<char>)
    requires
        has_piece(text, piece),
    ensures
        exists|front: Seq<char>, back: Seq<char>| #[trigger] (front + piece + back) == text,
{
    let at = choose|at: int|
        0 <= at <= text.len() - piece.len() && #[trigger] text.subrange(at, at + piece.len())
            == piece;
    assert(text.take(at) + piece + text.skip(at + piece.len()) =~= text);
}

/// Lowering leaves every character in its place and changes the capitals from A to Z alone.
pub proof fn law_lowering_changes_capitals_only(text: Seq<char>, i: int)
    requires
        0 <= i < text.len(),
    ensures
        ascii_lowered(text).len() == text.len(),
        65 <= text[i] as int <= 90 ==> ascii_lowered(text)[i] as int == text[i] as int + 32,
        !(65 <= text[i] as int <= 90) ==> ascii_lowered(text)[i] == text[i],
{
    assert('A' as int == 65);
    assert('Z' as int == 90);
}

/// What a row of decimal digits says; `None` where something else stands in it.
pub open spec fn decimal_value(text: Seq<char>) -> Option<int>
    decreases text.len(),
{
    if text.len() == 0 {
        Some(0)
    } else {
        match decimal_value(text.drop_last()) {
            Some(value) => if 48 <= text.last() as int <= 57 {
                Some(10 * value + (text.last() as int - 48))
            } else {
                None
            },
            None => None,
        }
    }
}

proof fn lemma_natural_text_is_read(value: int)
    requires
        value >= 0,
    ensures
        decimal_value(natural_text(value)) == Some(value),
        natural_text(value).len() > 0,
        natural_text(value).len() > 1 ==> natural_text(value).first() != '0',
        natural_text(value).len() == 1 && natural_text(value).first() == '0' ==> value == 0,
    decreases value,
{
    reveal_with_fuel(decimal_value, 2);
    if value < 10 {
        assert(natural_text(value).drop_last() =~= Seq::<char>::empty());
        assert('0' as int == 48 && '1' as int == 49 && '2' as int == 50 && '3' as int == 51);
        assert('4' as int == 52 && '5' as int == 53 && '6' as int == 54 && '7' as int == 55);
        assert('8' as int == 56 && '9' as int == 57);
    } else {
        lemma_natural_text_is_read(value / 10);
        let last = digit(value % 10);
        assert(natural_text(value).drop_last() =~= natural_text(value / 10));
        assert(natural_text(value).last() == last);
        assert('0' as int == 48 && '1' as int == 49 && '2' as int == 50 && '3' as int == 51);
        assert('4' as int == 52 && '5' as int == 53 && '6' as int == 54 && '7' as int == 55);
        assert('8' as int == 56 && '9' as int == 57);
        assert(last as int - 48 == value % 10);
        assert(natural_text(value).first() == natural_text(value / 10).first());
    }
}

/// A number is written in decimal, so that it can be read back, with a minus sign in front where it
/// is negative and without needless zeros.
pub proof fn law_integers_are_read_back(value: int)
    ensures
        value >= 0 ==> decimal_value(integer_text(value)) == Some(value),
        value < 0 ==> integer_text(value).first() == '-' && decimal_value(
            integer_text(value).skip(1),
        ) == Some(-value),
        value > 0 ==> integer_text(value).first() != '0',
{
    if value < 0 {
        lemma_natural_text_is_read(-value);
        assert(integer_text(value).skip(1) =~= natural_text(-value));
    } else {
        lemma_natural_text_is_read(value);
    }
}

/// Whether `value` is an object whose first member called `name` is `found`.
pub open spec fn holds(value: JsonModel, name: Seq<char>, found: JsonModel) -> bool {
    value.kind matches JsonKindModel::Object(members) && exists|i: int|
        {
            &&& 0 <= i < members.len()
            &&& (#[trigger] members[i]).name == name
            &&& members[i].value == found
            &&& forall|j: int| 0 <= j < i ==> (#[trigger] members[j]).name != name
        }
}

/// Whether `value` is no object, or one without a member called `name`.
pub open spec fn lacks(value: JsonModel, name: Seq<char>) -> bool {
    value.kind matches JsonKindModel::Object(members) ==> forall|i: int|
        0 <= i < members.len() ==> (#[trigger] members[i]).name != name
}

proof fn lemma_find_member(members: Seq<JsonMemberModel>, name: Seq<char>)
    ensures
        match find_member(members, name) {
            Some(found) => exists|i: int|
                {
                    &&& 0 <= i < members.len()
                    &&& (#[trigger] members[i]).name == name
                    &&& members[i].value == found
                    &&& forall|j: int| 0 <= j < i ==> (#[trigger] members[j]).name != name
                },
            None => forall|i: int| 0 <= i < members.len() ==> (#[trigger] members[i]).name != name,
        },
    decreases members.len(),
{
    if members.len() > 0 {
        if members.first().name == name {
            assert(members[0].name == name);
        } else {
            let later = members.drop_first();
            lemma_find_member(later, name);
            match find_member(later, name) {
                Some(found) => {
                    let i = choose|i: int|
                        {
                            &&& 0 <= i < later.len()
                            &&& (#[trigger] later[i]).name == name
                            &&& later[i].value == found
                            &&& forall|j: int| 0 <= j < i ==> (#[trigger] later[j]).name != name
                        };
                    assert(members[i + 1].name == name);
                    assert forall|j: int| 0 <= j < i + 1 implies (#[trigger] members[j]).name
                        != name by {
                        if j > 0 {
                            assert(later[j - 1] == members[j]);
                        }
                    }
                },
                None => {
                    assert forall|i: int| 0 <= i < members.len() implies (#[trigger] members[i]).name
                        != name by {
                        if i > 0 {
                            assert(later[i - 1] == members[i]);
                        }
                    }
                },
            }
        }
    }
}

/// A member is found exactly where an object has one of that name, and it is the first of them.
pub proof fn law_members_are_found(value: JsonModel, name: Seq<char>)
    ensures
        forall|found: JsonModel| #[trigger]
            holds(value, name, found) <==> value.member(name) == Some(found),
        lacks(value, name) <==> value.member(name) is None,
{
    if let JsonKindModel::Object(members) = value.kind {
        lemma_find_member(members, name);
        assert forall|found: JsonModel| #[trigger] holds(value, name, found) implies value.member(
            name,
        ) == Some(found) by {
            let i = choose|i: int|
                {
                    &&& 0 <= i < members.len()
                    &&& (#[trigger] members[i]).name == name
                    &&& members[i].value == found
                    &&& forall|j: int| 0 <= j < i ==> (#[trigger] members[j]).name != name
                };
            let other = value.member(name)->0;
            let k = choose|k: int|
                {
                    &&& 0 <= k < members.len()
                    &&& (#[trigger] members[k]).name == name
                    &&& members[k].value == other
                    &&& forall|j: int| 0 <= j < k ==> (#[trigger] members[j]).name != name
                };
            assert(members[i].name == name && members[k].name == name);
            assert(i == k);
        }
    }
}

/// What is known of a JSON value is what it holds: its rendering, its text or number, and every item
/// or member in its place.
pub proof fn law_values_are_what_they_hold(value: JsonValue, at: int)
    ensures
        value@.rendered == value.rendered@,
        match value.kind {
            JsonKind::Null => value@.kind is Null,
            JsonKind::Bool(truth) => value@.kind == JsonKindModel::Bool(truth),
            JsonKind::Number(number) => value@.kind == JsonKindModel::Number(number),
            JsonKind::Text(text) => value@.kind == JsonKindModel::Text(text@),
            JsonKind::Array(items) => value@.kind matches JsonKindModel::Array(known)
                && known.len() == items@.len() && (0 <= at < items@.len() ==> known[at]
                == items@[at]@),
            JsonKind::Object(members) => value@.kind matches JsonKindModel::Object(known)
                && known.len() == members@.len() && (0 <= at < members@.len() ==> known[at].name
                == members@[at].name@ && known[at].value == members@[at].value@),
        },
{
    assert(value@ == value.model());
    assert(value@.kind == value.kind.model());
    match value.kind {
        JsonKind::Array(items) => {
            let known = value.kind.model()->Array_0;
            assert(known.len() == items@.len());
            assert(0 <= at < items@.len() ==> known[at] == items@[at].model());
        },
        JsonKind::Object(members) => {
            let known = value.kind.model()->Object_0;
            assert(known.len() == members@.len());
            assert(0 <= at < members@.len() ==> known[at] == members@[at].model());
        },
        _ => {},
    }
}

} // verus!
