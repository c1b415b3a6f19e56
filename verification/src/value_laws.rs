//! What holds of the JSON values that are sent for attributes.
use crate::exporter::resource_views;
use crate::value::{
    attribute_views, field_of, is_finite_double, AttributeArray, AttributeValue, AttributeView,
    FieldValue, FieldView, KeyValue, Scalar, ScalarView,
};
use vstd::prelude::*;

verus! {

/// A double is finite exactly if its magnitude, which is its bits without the
/// sign, is below that of the infinities.
pub proof fn finite_doubles_are_below_infinity(bits: u64)
    ensures
        is_finite_double(bits) <==> bits % 0x8000_0000_0000_0000 < 0x7ff0_0000_0000_0000,
{
    assert((bits / 0x10_0000_0000_0000) % 0x800 != 0x7ff <==> bits % 0x8000_0000_0000_0000
        < 0x7ff0_0000_0000_0000) by (bit_vector);
}

/// A truth value, an integer, a finite double and a text are sent as that very
/// value. An infinity or a NaN, which JSON cannot write, is sent as null.
pub proof fn scalars_are_sent_as_they_are(flag: bool, number: i64, bits: u64, text: Seq<char>)
    ensures
        field_of(AttributeView::Bool(flag)) == FieldView::Scalar(ScalarView::Bool(flag)),
        field_of(AttributeView::I64(number)) == FieldView::Scalar(ScalarView::Int(number as int)),
        bits % 0x8000_0000_0000_0000 < 0x7ff0_0000_0000_0000 ==> field_of(AttributeView::F64(bits))
            == FieldView::Scalar(ScalarView::Float(bits)),
        bits % 0x8000_0000_0000_0000 >= 0x7ff0_0000_0000_0000 ==> field_of(AttributeView::F64(bits))
            == FieldView::Null,
        field_of(AttributeView::String(text)) == FieldView::Scalar(ScalarView::Text(text)),
{
    finite_doubles_are_below_infinity(bits);
}

/// A list of truth values, integers or texts is sent item by item, in order.
pub proof fn lists_are_sent_item_by_item(
    flags: Seq<bool>,
    numbers: Seq<i64>,
    texts: Seq<Seq<char>>,
)
    ensures
        field_of(AttributeView::BoolArray(flags)) matches FieldView::Array(sent) && sent.len()
            == flags.len() && forall|i: int|
            0 <= i < flags.len() ==> #[trigger] sent[i] == ScalarView::Bool(flags[i]),
        field_of(AttributeView::I64Array(numbers)) matches FieldView::Array(sent) && sent.len()
            == numbers.len() && forall|i: int|
            0 <= i < numbers.len() ==> #[trigger] sent[i] == ScalarView::Int(numbers[i] as int),
        field_of(AttributeView::StringArray(texts)) matches FieldView::Array(sent) && sent.len()
            == texts.len() && forall|i: int|
            0 <= i < texts.len() ==> #[trigger] sent[i] == ScalarView::Text(texts[i]),
{
}

/// A list of doubles is sent in order, without those that JSON cannot write:
/// nothing is sent of an empty list, one more double at the end adds itself to
/// what is sent if it is finite and nothing otherwise, and a list of finite
/// doubles is sent item by item.
pub proof fn lists_of_doubles_are_sent_without_gaps(doubles: Seq<u64>, more: u64)
    ensures
        field_of(AttributeView::F64Array(Seq::empty())) == FieldView::Array(Seq::empty()),
        field_of(AttributeView::F64Array(doubles)) is Array,
        field_of(AttributeView::F64Array(doubles.push(more))) == FieldView::Array(
            if more % 0x8000_0000_0000_0000 < 0x7ff0_0000_0000_0000 {
                field_of(AttributeView::F64Array(doubles))->Array_0.push(ScalarView::Float(more))
            } else {
                field_of(AttributeView::F64Array(doubles))->Array_0
            },
        ),
        (forall|i: int|
            0 <= i < doubles.len() ==> #[trigger] doubles[i] % 0x8000_0000_0000_0000
                < 0x7ff0_0000_0000_0000) ==> {
            let sent = field_of(AttributeView::F64Array(doubles))->Array_0;
            &&& sent.len() == doubles.len()
            &&& forall|i: int|
                0 <= i < doubles.len() ==> #[trigger] sent[i] == ScalarView::Float(doubles[i])
        },
    decreases doubles.len(),
{
    reveal(Seq::filter);
    let finite = |bits: u64| is_finite_double(bits);
    let float = |bits: u64| ScalarView::Float(bits);
    let longer = doubles.push(more);
    finite_doubles_are_below_infinity(more);
    assert(Seq::<u64>::empty().filter(finite).map_values(float) =~= Seq::<ScalarView>::empty());
    assert(longer.drop_last() =~= doubles);
    assert(longer.last() == more);
    if finite(more) {
        assert(longer.filter(finite) == doubles.filter(finite).push(more));
        assert(longer.filter(finite).map_values(float) =~= doubles.filter(finite).map_values(
            float,
        ).push(ScalarView::Float(more)));
    } else {
        assert(longer.filter(finite) == doubles.filter(finite));
    }
    if doubles.len() > 0 {
        let rest = doubles.drop_last();
        let last = doubles.last();
        lists_of_doubles_are_sent_without_gaps(rest, last);
        assert(rest.push(last) =~= doubles);
        if forall|i: int|
            0 <= i < doubles.len() ==> #[trigger] doubles[i] % 0x8000_0000_0000_0000
                < 0x7ff0_0000_0000_0000 {
            assert forall|i: int| 0 <= i < rest.len() implies #[trigger] rest[i]
                % 0x8000_0000_0000_0000 < 0x7ff0_0000_0000_0000 by {
                assert(rest[i] == doubles[i]);
            }
            assert(doubles[doubles.len() - 1] == last);
            let sent = field_of(AttributeView::F64Array(doubles))->Array_0;
            let before = field_of(AttributeView::F64Array(rest))->Array_0;
            assert(sent == before.push(ScalarView::Float(last)));
            assert forall|i: int| 0 <= i < doubles.len() implies #[trigger] sent[i]
                == ScalarView::Float(doubles[i]) by {
                if i < rest.len() {
                    assert(before[i] == ScalarView::Float(rest[i]));
                }
            }
        }
    }
}

/// Whether a value is an empty list.
pub open spec fn is_empty_list(value: AttributeView) -> bool {
    match value {
        AttributeView::BoolArray(items) => items.len() == 0,
        AttributeView::I64Array(items) => items.len() == 0,
        AttributeView::F64Array(items) => items.len() == 0,
        AttributeView::StringArray(items) => items.len() == 0,
        _ => false,
    }
}

/// Whether a value holds no infinity and no NaN.
pub open spec fn is_writable(value: AttributeView) -> bool {
    match value {
        AttributeView::F64(bits) => bits % 0x8000_0000_0000_0000 < 0x7ff0_0000_0000_0000,
        AttributeView::F64Array(items) => forall|i: int|
            0 <= i < items.len() ==> #[trigger] items[i] % 0x8000_0000_0000_0000
                < 0x7ff0_0000_0000_0000,
        _ => true,
    }
}

/// Nothing that JSON can write is lost: two values without infinities and NaNs
/// are sent as the same JSON value only if they are equal. Empty lists are left
/// out, since JSON has only one.
pub proof fn nothing_writable_is_lost(one: AttributeView, other: AttributeView)
    requires
        is_writable(one),
        is_writable(other),
        !is_empty_list(one),
        !is_empty_list(other),
        field_of(one) == field_of(other),
    ensures
        one == other,
{
    lemma_sent_items(one);
    lemma_sent_items(other);
    match one {
        AttributeView::F64(bits) => {
            finite_doubles_are_below_infinity(bits);
        },
        _ => {},
    }
    match other {
        AttributeView::F64(bits) => {
            finite_doubles_are_below_infinity(bits);
        },
        _ => {},
    }
    match (one, other) {
        (AttributeView::BoolArray(a), AttributeView::BoolArray(b)) => {
            lists_are_sent_item_by_item(a, Seq::empty(), Seq::empty());
            lists_are_sent_item_by_item(b, Seq::empty(), Seq::empty());
            let sent = field_of(one)->Array_0;
            assert forall|i: int| 0 <= i < a.len() implies a[i] == b[i] by {
                assert(sent[i] == ScalarView::Bool(a[i]));
                assert(sent[i] == ScalarView::Bool(b[i]));
            }
            assert(a =~= b);
        },
        (AttributeView::I64Array(a), AttributeView::I64Array(b)) => {
            lists_are_sent_item_by_item(Seq::empty(), a, Seq::empty());
            lists_are_sent_item_by_item(Seq::empty(), b, Seq::empty());
            let sent = field_of(one)->Array_0;
            assert forall|i: int| 0 <= i < a.len() implies a[i] == b[i] by {
                assert(sent[i] == ScalarView::Int(a[i] as int));
                assert(sent[i] == ScalarView::Int(b[i] as int));
            }
            assert(a =~= b);
        },
        (AttributeView::F64Array(a), AttributeView::F64Array(b)) => {
            lists_of_doubles_are_sent_without_gaps(a, 0);
            lists_of_doubles_are_sent_without_gaps(b, 0);
            let sent = field_of(one)->Array_0;
            assert forall|i: int| 0 <= i < a.len() implies a[i] == b[i] by {
                assert(sent[i] == ScalarView::Float(a[i]));
                assert(sent[i] == ScalarView::Float(b[i]));
            }
            assert(a =~= b);
        },
        (AttributeView::StringArray(a), AttributeView::StringArray(b)) => {
            lists_are_sent_item_by_item(Seq::empty(), Seq::empty(), a);
            lists_are_sent_item_by_item(Seq::empty(), Seq::empty(), b);
            let sent = field_of(one)->Array_0;
            assert forall|i: int| 0 <= i < a.len() implies a[i] == b[i] by {
                assert(sent[i] == ScalarView::Text(a[i]));
                assert(sent[i] == ScalarView::Text(b[i]));
            }
            assert(a =~= b);
        },
        _ => {},
    }
}

/// The first item that is sent of a list tells the kind of its items.
proof fn lemma_sent_items(value: AttributeView)
    requires
        is_writable(value),
        !is_empty_list(value),
    ensures
        value is BoolArray ==> field_of(value)->Array_0.len() > 0 && field_of(
            value,
        )->Array_0[0] is Bool,
        value is I64Array ==> field_of(value)->Array_0.len() > 0 && field_of(
            value,
        )->Array_0[0] is Int,
        value is F64Array ==> field_of(value)->Array_0.len() > 0 && field_of(
            value,
        )->Array_0[0] is Float,
        value is StringArray ==> field_of(value)->Array_0.len() > 0 && field_of(
            value,
        )->Array_0[0] is Text,
{
    match value {
        AttributeView::F64Array(items) => {
            lists_of_doubles_are_sent_without_gaps(items, 0);
            let sent = field_of(value)->Array_0;
            assert(sent[0] == ScalarView::Float(items[0]));
        },
        _ => {},
    }
}

/// An attribute stands for the very value that it holds, and a list of texts
/// for the texts in order.
pub proof fn attributes_stand_for_what_they_hold(
    flag: bool,
    number: i64,
    bits: u64,
    text: String,
    flags: Vec<bool>,
    numbers: Vec<i64>,
    doubles: Vec<u64>,
    texts: Vec<String>,
)
    ensures
        AttributeValue::Bool(flag)@ == AttributeView::Bool(flag),
        AttributeValue::I64(number)@ == AttributeView::I64(number),
        AttributeValue::F64(bits)@ == AttributeView::F64(bits),
        AttributeValue::String(text)@ == AttributeView::String(text@),
        AttributeValue::Array(AttributeArray::Bool(flags))@ == AttributeView::BoolArray(flags@),
        AttributeValue::Array(AttributeArray::I64(numbers))@ == AttributeView::I64Array(numbers@),
        AttributeValue::Array(AttributeArray::F64(doubles))@ == AttributeView::F64Array(doubles@),
        AttributeValue::Array(AttributeArray::String(texts))@ matches AttributeView::StringArray(
            items,
        ) && items.len() == texts@.len() && forall|i: int|
            0 <= i < texts@.len() ==> #[trigger] items[i] == texts@[i]@,
{
}

/// A field's value stands for the very value that it holds: integers for their
/// number, signed or not, and a list for its items in order.
pub proof fn fields_stand_for_what_they_hold(
    flag: bool,
    signed: i64,
    unsigned: u64,
    bits: u64,
    text: String,
    scalar: Scalar,
    items: Vec<Scalar>,
)
    ensures
        Scalar::Bool(flag)@ == ScalarView::Bool(flag),
        Scalar::Signed(signed)@ == ScalarView::Int(signed as int),
        Scalar::Unsigned(unsigned)@ == ScalarView::Int(unsigned as int),
        Scalar::Float(bits)@ == ScalarView::Float(bits),
        Scalar::Text(text)@ == ScalarView::Text(text@),
        FieldValue::Null@ == FieldView::Null,
        FieldValue::Scalar(scalar)@ == FieldView::Scalar(scalar@),
        FieldValue::Array(items)@ matches FieldView::Array(held) && held.len() == items@.len()
            && forall|i: int| 0 <= i < items@.len() ==> #[trigger] held[i] == items@[i]@,
{
}

/// A list of attributes stands for its names and values, in order, and so does
/// a resource; without a resource there are none.
pub proof fn attribute_lists_stand_for_their_items(attributes: Vec<KeyValue>)
    ensures
        attribute_views(attributes@).len() == attributes@.len(),
        forall|i: int|
            0 <= i < attributes@.len() ==> #[trigger] attribute_views(attributes@)[i] == (
                attributes@[i].key@,
                attributes@[i].value@,
            ),
        resource_views(None) is None,
        resource_views(Some(attributes)) matches Some(items) && items.len() == attributes@.len()
            && forall|i: int|
            0 <= i < attributes@.len() ==> #[trigger] items[i] == (
                attributes@[i].key@,
                attributes@[i].value@,
            ),
{
}

} // verus!
