//! Attribute values as the tracing SDK records them, and the JSON values that
//! are sent for them.
use vstd::prelude::*;

verus! {

/// The attribute value that a span, a span event, a link or a resource carries.
///
/// A double is held by its IEEE 754 bit pattern.
#[derive(Debug)]
pub enum AttributeValue {
    Bool(bool),
    I64(i64),
    F64(u64),
    String(String),
    Array(AttributeArray),
}

/// An attribute value that is a list of values of one kind.
#[derive(Debug)]
pub enum AttributeArray {
    Bool(Vec<bool>),
    I64(Vec<i64>),
    F64(Vec<u64>),
    String(Vec<String>),
}

/// What an [`AttributeValue`] stands for.
pub enum AttributeView {
    Bool(bool),
    I64(i64),
    F64(u64),
    String(Seq<char>),
    BoolArray(Seq<bool>),
    I64Array(Seq<i64>),
    F64Array(Seq<u64>),
    StringArray(Seq<Seq<char>>),
}

/// A named attribute.
#[derive(Debug)]
pub struct KeyValue {
    pub key: String,
    pub value: AttributeValue,
}

/// A JSON value that is neither null nor an array.
///
/// A number is an integer, signed or unsigned, or a finite double held by its bit pattern.
#[derive(Debug, PartialEq, Eq)]
pub enum Scalar {
    Bool(bool),
    Signed(i64),
    Unsigned(u64),
    Float(u64),
    Text(String),
}

/// The JSON value of an event's field.
#[derive(Debug, PartialEq, Eq)]
pub enum FieldValue {
    Null,
    Scalar(Scalar),
    Array(Vec<Scalar>),
}

/// What a [`Scalar`] stands for: an integer is the same number whether it was
/// held signed or unsigned.
pub enum ScalarView {
    Bool(bool),
    Int(int),
    Float(u64),
    Text(Seq<char>),
}

/// What a [`FieldValue`] stands for.
pub enum FieldView {
    Null,
    Scalar(ScalarView),
    Array(Seq<ScalarView>),
}

impl View for AttributeValue {
    type V = AttributeView;

    open spec fn view(&self) -> AttributeView {
        match self {
            AttributeValue::Bool(b) => AttributeView::Bool(*b),
            AttributeValue::I64(n) => AttributeView::I64(*n),
            AttributeValue::F64(bits) => AttributeView::F64(*bits),
            AttributeValue::String(s) => AttributeView::String(s@),
            AttributeValue::Array(AttributeArray::Bool(v)) => AttributeView::BoolArray(v@),
            AttributeValue::Array(AttributeArray::I64(v)) => AttributeView::I64Array(v@),
            AttributeValue::Array(AttributeArray::F64(v)) => AttributeView::F64Array(v@),
            AttributeValue::Array(AttributeArray::String(v)) => AttributeView::StringArray(
                v@.map_values(|s: String| s@),
            ),
        }
    }
}

impl View for KeyValue {
    type V = (Seq<char>, AttributeView);

    open spec fn view(&self) -> (Seq<char>, AttributeView) {
        (self.key@, self.value@)
    }
}

impl View for Scalar {
    type V = ScalarView;

    open spec fn view(&self) -> ScalarView {
        match self {
            Scalar::Bool(b) => ScalarView::Bool(*b),
            Scalar::Signed(n) => ScalarView::Int(*n as int),
            Scalar::Unsigned(n) => ScalarView::Int(*n as int),
            Scalar::Float(bits) => ScalarView::Float(*bits),
            Scalar::Text(s) => ScalarView::Text(s@),
        }
    }
}

impl View for FieldValue {
    type V = FieldView;

    open spec fn view(&self) -> FieldView {
        match self {
            FieldValue::Null => FieldView::Null,
            FieldValue::Scalar(s) => FieldView::Scalar(s@),
            FieldValue::Array(v) => FieldView::Array(v@.map_values(|s: Scalar| s@)),
        }
    }
}

impl Clone for AttributeValue {
    fn clone(&self) -> (r: Self)
        ensures
            r@ == self@,
    {
        match self {
            AttributeValue::Bool(b) => AttributeValue::Bool(*b),
            AttributeValue::I64(n) => AttributeValue::I64(*n),
            AttributeValue::F64(bits) => AttributeValue::F64(*bits),
            AttributeValue::String(s) => AttributeValue::String(s.clone()),
            AttributeValue::Array(AttributeArray::Bool(v)) => {
                let c = v.clone();
                assert(c@ =~= v@);
                AttributeValue::Array(AttributeArray::Bool(c))
            },
            AttributeValue::Array(AttributeArray::I64(v)) => {
                let c = v.clone();
                assert(c@ =~= v@);
                AttributeValue::Array(AttributeArray::I64(c))
            },
            AttributeValue::Array(AttributeArray::F64(v)) => {
                let c = v.clone();
                assert(c@ =~= v@);
                AttributeValue::Array(AttributeArray::F64(c))
            },
            AttributeValue::Array(AttributeArray::String(v)) => {
                let c = v.clone();
                assert(c@ =~= v@);
                AttributeValue::Array(AttributeArray::String(c))
            },
        }
    }
}

impl Clone for KeyValue {
    fn clone(&self) -> (r: Self)
        ensures
            r@ == self@,
    {
        KeyValue { key: self.key.clone(), value: self.value.clone() }
    }
}

/// The attributes that a list of [`KeyValue`] stands for, in order.
pub open spec fn attribute_views(attributes: Seq<KeyValue>) -> Seq<(Seq<char>, AttributeView)> {
    attributes.map_values(|kv: KeyValue| kv@)
}

/// Whether a bit pattern is that of a finite double: the eleven exponent bits
/// below the sign are not all ones.
pub open spec fn is_finite_double(bits: u64) -> bool {
    (bits / 0x10_0000_0000_0000) % 0x800 != 0x7ff
}

/// The JSON value that is sent for an attribute.
///
/// JSON has no number for an infinity or a NaN: such a value alone becomes
/// null, and inside a list it is left out.
pub open spec fn field_of(value: AttributeView) -> FieldView {
    match value {
        AttributeView::Bool(b) => FieldView::Scalar(ScalarView::Bool(b)),
        AttributeView::I64(n) => FieldView::Scalar(ScalarView::Int(n as int)),
        AttributeView::F64(bits) => if is_finite_double(bits) {
            FieldView::Scalar(ScalarView::Float(bits))
        } else {
            FieldView::Null
        },
        AttributeView::String(s) => FieldView::Scalar(ScalarView::Text(s)),
        AttributeView::BoolArray(v) => FieldView::Array(v.map_values(|b: bool| ScalarView::Bool(b))),
        AttributeView::I64Array(v) => FieldView::Array(
            v.map_values(|n: i64| ScalarView::Int(n as int)),
        ),
        AttributeView::F64Array(v) => FieldView::Array(
            v.filter(|bits: u64| is_finite_double(bits)).map_values(
                |bits: u64| ScalarView::Float(bits),
            ),
        ),
        AttributeView::StringArray(v) => FieldView::Array(
            v.map_values(|s: Seq<char>| ScalarView::Text(s)),
        ),
    }
}

/// Whether a double, given by its bits, is a number that JSON can write.
fn is_finite(bits: u64) -> (r: bool)
    ensures
        r == is_finite_double(bits),
{
    (bits / 0x10_0000_0000_0000) % 0x800 != 0x7ff
}

/// Converts an attribute value to the JSON value that is sent for it.
pub fn otel_value_to_serde_json(value: AttributeValue) -> (r: FieldValue)
    ensures
        r@ == field_of(value@),
        value matches AttributeValue::Bool(b) ==> r == FieldValue::Scalar(Scalar::Bool(b)),
        value matches AttributeValue::I64(n) ==> r == FieldValue::Scalar(Scalar::Signed(n)),
        value matches AttributeValue::F64(bits) ==> r == (if bits % 0x8000_0000_0000_0000
            < 0x7ff0_0000_0000_0000 {
            FieldValue::Scalar(Scalar::Float(bits))
        } else {
            FieldValue::Null
        }),
        value matches AttributeValue::String(s) ==> r == FieldValue::Scalar(Scalar::Text(s)),
        value is Array ==> r is Array,
{
    proof {
        if let AttributeValue::F64(bits) = value {
            crate::value_laws::finite_doubles_are_below_infinity(bits);
        }
    }
    match value {
        AttributeValue::Bool(b) => FieldValue::Scalar(Scalar::Bool(b)),
        AttributeValue::I64(n) => FieldValue::Scalar(Scalar::Signed(n)),
        AttributeValue::F64(bits) => {
            if is_finite(bits) {
                FieldValue::Scalar(Scalar::Float(bits))
            } else {
                FieldValue::Null
            }
        },
        AttributeValue::Array(AttributeArray::Bool(v)) => FieldValue::Array(bool_scalars(&v)),
        AttributeValue::Array(AttributeArray::F64(v)) => FieldValue::Array(float_scalars(&v)),
        AttributeValue::Array(AttributeArray::I64(v)) => FieldValue::Array(i64_scalars(&v)),
        AttributeValue::Array(AttributeArray::String(v)) => FieldValue::Array(text_scalars(&v)),
        AttributeValue::String(s) => FieldValue::Scalar(Scalar::Text(s)),
    }
}

fn bool_scalars(values: &Vec<bool>) -> (r: Vec<Scalar>)
    ensures
        r@.map_values(|s: Scalar| s@) == values@.map_values(|b: bool| ScalarView::Bool(b)),
{
    let mut r: Vec<Scalar> = Vec::new();
    for i in 0..values.len()
        invariant
            r@.len() == i,
            forall|j: int| 0 <= j < i ==> (#[trigger] r@[j])@ == ScalarView::Bool(values@[j]),
    {
        r.push(Scalar::Bool(values[i]));
    }
    r
}

fn i64_scalars(values: &Vec<i64>) -> (r: Vec<Scalar>)
    ensures
        r@.map_values(|s: Scalar| s@) == values@.map_values(|n: i64| ScalarView::Int(n as int)),
{
    let mut r: Vec<Scalar> = Vec::new();
    for i in 0..values.len()
        invariant
            r@.len() == i,
            forall|j: int| 0 <= j < i ==> (#[trigger] r@[j])@ == ScalarView::Int(values@[j] as int),
    {
        r.push(Scalar::Signed(values[i]));
    }
    r
}

fn float_scalars(values: &Vec<u64>) -> (r: Vec<Scalar>)
    ensures
        r@.map_values(|s: Scalar| s@) == values@.filter(
            |bits: u64| is_finite_double(bits),
        ).map_values(|bits: u64| ScalarView::Float(bits)),
{
    let ghost finite = |bits: u64| is_finite_double(bits);
    let ghost float = |bits: u64| ScalarView::Float(bits);
    let mut r: Vec<Scalar> = Vec::new();
    assert(values@.take(0).filter(finite) =~= Seq::<u64>::empty()) by {
        reveal(Seq::filter);
    }
    for i in 0..values.len()
        invariant
            finite == (|bits: u64| is_finite_double(bits)),
            float == (|bits: u64| ScalarView::Float(bits)),
            r@.map_values(|s: Scalar| s@) =~= values@.take(i as int).filter(finite).map_values(float),
    {
        let ghost before = r@;
        if is_finite(values[i]) {
            r.push(Scalar::Float(values[i]));
        }
        proof {
            let next = values@.take(i + 1);
            assert(next.drop_last() =~= values@.take(i as int));
            assert(next.last() == values@[i as int]);
            reveal(Seq::filter);
            if finite(values@[i as int]) {
                assert(r@.map_values(|s: Scalar| s@) =~= before.map_values(|s: Scalar| s@).push(
                    ScalarView::Float(values@[i as int]),
                ));
            }
        }
    }
    assert(values@.take(values@.len() as int) =~= values@);
    r
}

fn text_scalars(values: &Vec<String>) -> (r: Vec<Scalar>)
    ensures
        r@.map_values(|s: Scalar| s@) == values@.map_values(|s: String| s@).map_values(
            |s: Seq<char>| ScalarView::Text(s),
        ),
{
    let mut r: Vec<Scalar> = Vec::new();
    for i in 0..values.len()
        invariant
            r@.len() == i,
            forall|j: int| 0 <= j < i ==> (#[trigger] r@[j])@ == ScalarView::Text(values@[j]@),
    {
        r.push(Scalar::Text(values[i].clone()));
    }
    r
}

} // verus!
