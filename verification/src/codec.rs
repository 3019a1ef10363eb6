//! Conversion between dynamic values and the values of a column, in both
//! directions.
//!
//! Outbound, a dynamic value becomes the binding of one placeholder. Inbound,
//! the value that a column holds becomes a dynamic value, by the affinity of
//! the column; a value that cannot be read as that affinity asks becomes
//! `Null`, and never an error.

use vstd::prelude::*;
use vstd::string::*;
use vstd::utf8::encode_utf8;
use crate::value::{DynValue, DynValueView, Number};

verus! {

/// What is bound to one placeholder of a statement.
#[derive(Clone, Debug, PartialEq, Eq)]
pub enum Binding {
    /// A null; the driver binds it under whichever type it takes for one.
    Null,
    Bool(bool),
    Integer(i64),
    /// A double precision number, by its bits.
    Real(u64),
    Text(String),
    /// Nothing is bound for this value.
    Skip,
}

/// The mathematical value of a [`Binding`].
pub enum BindingView {
    Null,
    Bool(bool),
    Integer(i64),
    Real(u64),
    Text(Seq<char>),
    Skip,
}

impl View for Binding {
    type V = BindingView;

    open spec fn view(&self) -> BindingView {
        match *self {
            Binding::Null => BindingView::Null,
            Binding::Bool(b) => BindingView::Bool(b),
            Binding::Integer(i) => BindingView::Integer(i),
            Binding::Real(bits) => BindingView::Real(bits),
            Binding::Text(s) => BindingView::Text(s@),
            Binding::Skip => BindingView::Skip,
        }
    }
}

/// The value that a column holds in one row, by its storage class.
#[derive(Clone, Debug, PartialEq, Eq)]
pub enum ColumnValue {
    Null,
    Integer(i64),
    /// A double precision number, by its bits.
    Real(u64),
    Text(String),
    Blob(Vec<u8>),
}

/// The mathematical value of a [`ColumnValue`].
pub enum ColumnValueView {
    Null,
    Integer(i64),
    Real(u64),
    Text(Seq<char>),
    Blob(Seq<u8>),
}

impl View for ColumnValue {
    type V = ColumnValueView;

    open spec fn view(&self) -> ColumnValueView {
        match *self {
            ColumnValue::Null => ColumnValueView::Null,
            ColumnValue::Integer(i) => ColumnValueView::Integer(i),
            ColumnValue::Real(bits) => ColumnValueView::Real(bits),
            ColumnValue::Text(s) => ColumnValueView::Text(s@),
            ColumnValue::Blob(b) => ColumnValueView::Blob(b@),
        }
    }
}

/// The coarse type family of a column, which decides how its values are read.
#[derive(Clone, Copy, Debug, PartialEq, Eq, Structural)]
pub enum Affinity {
    Integer,
    Real,
    Text,
    Binary,
    /// Any family that is none of the four.
    Other,
}

/// The binding of a dynamic value: null, booleans, numbers and texts are bound
/// as they are, and for any other shape nothing is bound.
pub open spec fn binding_of(value: DynValueView) -> BindingView {
    match value {
        DynValueView::Null => BindingView::Null,
        DynValueView::Bool(b) => BindingView::Bool(b),
        DynValueView::Number(Number::Integer(i)) => BindingView::Integer(i),
        DynValueView::Number(Number::Real(bits)) => BindingView::Real(bits),
        DynValueView::Text(s) => BindingView::Text(s),
        DynValueView::Other => BindingView::Skip,
    }
}

/// The views of a sequence of bindings, in order.
pub open spec fn binding_views(bindings: Seq<Binding>) -> Seq<BindingView> {
    bindings.map_values(|b: Binding| b@)
}

/// The bindings of a sequence of values, position by position.
pub open spec fn bindings_of(values: Seq<DynValueView>) -> Seq<BindingView> {
    values.map_values(|v: DynValueView| binding_of(v))
}

/// Converts one dynamic value to the binding of its placeholder.
pub fn bind_value(value: &DynValue) -> (binding: Binding)
    ensures
        binding@ == binding_of(value@),
{
    match value {
        DynValue::Null => Binding::Null,
        DynValue::Bool(b) => Binding::Bool(*b),
        DynValue::Number(Number::Integer(i)) => Binding::Integer(*i),
        DynValue::Number(Number::Real(bits)) => Binding::Real(*bits),
        DynValue::Text(s) => Binding::Text(s.clone()),
        DynValue::Other => Binding::Skip,
    }
}

/// Converts the parameters of a statement to their bindings, in order: the
/// binding at a position is that of the parameter at the same position.
pub fn bind_values(values: &Vec<DynValue>) -> (bindings: Vec<Binding>)
    ensures
        binding_views(bindings@) == bindings_of(crate::value::views_of(values@)),
{
    let mut bindings: Vec<Binding> = Vec::new();
    let mut i: usize = 0;
    while i < values.len()
        invariant
            i <= values.len(),
            bindings@.len() == i,
            forall|k: int| 0 <= k < i ==> (#[trigger] bindings@[k])@ == binding_of(values@[k]@),
        decreases values.len() - i,
    {
        bindings.push(bind_value(&values[i]));
        i += 1;
    }
    assert(binding_views(bindings@) =~= bindings_of(crate::value::views_of(values@)));
    bindings
}

/// The bits of the exponent of a double precision number.
pub const EXPONENT_BITS: u64 = 0x7ff0_0000_0000_0000;

/// Whether `bits` are those of a finite double precision number: neither an
/// infinity nor a NaN, whose exponent bits are all set.
pub open spec fn finite_bits(bits: u64) -> bool {
    bits & EXPONENT_BITS != EXPONENT_BITS
}

/// Tells whether `bits` are those of a finite double precision number.
pub fn is_finite_bits(bits: u64) -> (finite: bool)
    ensures
        finite == finite_bits(bits),
{
    bits & EXPONENT_BITS != EXPONENT_BITS
}

/// The affinity that a declared type tag names. Tags are matched as the
/// driver writes them; a tag that is none of the four names no family.
pub open spec fn tag_affinity(tag: Seq<char>) -> Affinity {
    if tag == "INTEGER"@ {
        Affinity::Integer
    } else if tag == "REAL"@ {
        Affinity::Real
    } else if tag == "TEXT"@ {
        Affinity::Text
    } else if tag == "BLOB"@ {
        Affinity::Binary
    } else {
        Affinity::Other
    }
}

/// The affinity that a value has by itself, where its column declares no type.
pub open spec fn storage_affinity(value: ColumnValueView) -> Affinity {
    match value {
        ColumnValueView::Null => Affinity::Other,
        ColumnValueView::Integer(_) => Affinity::Integer,
        ColumnValueView::Real(_) => Affinity::Real,
        ColumnValueView::Text(_) => Affinity::Text,
        ColumnValueView::Blob(_) => Affinity::Binary,
    }
}

/// Whether a column declares a type: it has a tag, and the tag is not `NULL`,
/// which the driver writes for a column without a declared type.
pub open spec fn declares_type(declared: Option<Seq<char>>) -> bool {
    match declared {
        Some(tag) => tag != "NULL"@,
        None => false,
    }
}

/// The affinity under which a value is read: that of the declared type tag
/// of its column, and that of the value itself where the column declares none.
pub open spec fn affinity_of(declared: Option<Seq<char>>, value: ColumnValueView) -> Affinity {
    if declares_type(declared) {
        tag_affinity(declared->Some_0)
    } else {
        storage_affinity(value)
    }
}

/// The text that base64 with the standard alphabet and padding gives for
/// `bytes`: what `encode` of the `base64` crate returns on its `STANDARD`
/// engine. The text is named here and not spelled out.
pub uninterp spec fn base64_standard(bytes: Seq<u8>) -> Seq<char>;

/// Whether `c` is a character of the standard base64 alphabet, or the sign
/// that pads a text to a multiple of four.
pub open spec fn base64_char(c: char) -> bool {
    ('A' <= c && c <= 'Z') || ('a' <= c && c <= 'z') || ('0' <= c && c <= '9') || c == '+'
        || c == '/' || c == '='
}

/// Whether `text` has the shape of the padded base64 text of `len` bytes:
/// four characters for every three bytes begun, each of the alphabet or the
/// padding sign.
pub open spec fn base64_shaped(text: Seq<char>, len: nat) -> bool {
    &&& text.len() == 4 * ((len + 2) / 3)
    &&& forall|i: int| 0 <= i < text.len() ==> base64_char(#[trigger] text[i])
}

/// Whether the base64 text of `len` bytes has a length that a `usize` holds:
/// four characters for every three bytes, and four more for a rest.
pub open spec fn encodable_len(len: nat) -> bool {
    len / 3 * 4 + (if len % 3 == 0 { 0int } else { 4int }) <= usize::MAX
}

/// The bytes that a value yields when read as raw bytes: a blob yields its
/// own, a text its UTF-8 form, and nothing else can be read so.
pub open spec fn bytes_of(value: ColumnValueView) -> Option<Seq<u8>> {
    match value {
        ColumnValueView::Blob(b) => Some(b),
        ColumnValueView::Text(s) => Some(encode_utf8(s)),
        _ => None,
    }
}

/// The dynamic value of raw bytes: their base64 text, and `Null` where that
/// text would be too long to exist.
pub open spec fn binary_value(bytes: Seq<u8>) -> DynValueView {
    if encodable_len(bytes.len()) {
        DynValueView::Text(base64_standard(bytes))
    } else {
        DynValueView::Null
    }
}

/// The dynamic value of a column value read under an affinity.
///
/// An integer column yields a number from an integer, a real column from a
/// finite real, a text column a text from a text, and a binary column the
/// base64 text of its bytes. Under any other affinity the value is read as a
/// text. Whatever cannot be read so, a stored null first of all, is `Null`;
/// so is an infinity or a NaN, which no dynamic number holds.
pub open spec fn decoded(affinity: Affinity, value: ColumnValueView) -> DynValueView {
    match affinity {
        Affinity::Integer => match value {
            ColumnValueView::Integer(i) => DynValueView::Number(Number::Integer(i)),
            _ => DynValueView::Null,
        },
        Affinity::Real => match value {
            ColumnValueView::Real(bits) => if finite_bits(bits) {
                DynValueView::Number(Number::Real(bits))
            } else {
                DynValueView::Null
            },
            _ => DynValueView::Null,
        },
        Affinity::Binary => match bytes_of(value) {
            Some(bytes) => binary_value(bytes),
            None => DynValueView::Null,
        },
        Affinity::Text | Affinity::Other => match value {
            ColumnValueView::Text(s) => DynValueView::Text(s),
            _ => DynValueView::Null,
        },
    }
}

/// The dynamic value of a column value, given the declared type tag of its
/// column if it has one.
pub open spec fn inbound(declared: Option<Seq<char>>, value: ColumnValueView) -> DynValueView {
    decoded(affinity_of(declared, value), value)
}

/// Calls `Engine::encode` of the `base64` crate on its `STANDARD` engine.
///
/// Believed and not proved: that the text which comes back depends on the
/// bytes alone, so that it is [`base64_standard`] of them; that it has four
/// characters for every three bytes begun, which is the length that `encode`
/// allocates with padding; and that each character is of the alphabet of
/// the engine or the padding sign. `encode` panics where the length of the
/// text overflows a `usize`; `requires` keeps such lengths away.
#[verifier::external_body]
fn encode_base64(bytes: &[u8]) -> (text: String)
    requires
        encodable_len(bytes@.len()),
    ensures
        text@ == base64_standard(bytes@),
        base64_shaped(text@, bytes@.len()),
{
    base64::Engine::encode(&base64::engine::general_purpose::STANDARD, bytes)
}

/// Encodes raw bytes as a dynamic value.
pub fn encode_binary(bytes: &[u8]) -> (value: DynValue)
    ensures
        value@ == binary_value(bytes@),
        value@ matches DynValueView::Text(text) ==> base64_shaped(text, bytes@.len()),
{
    let chunks = bytes.len() / 3;
    let fits = if bytes.len() % 3 == 0 {
        chunks <= usize::MAX / 4
    } else {
        chunks <= (usize::MAX - 4) / 4
    };
    if fits {
        DynValue::Text(encode_base64(bytes))
    } else {
        DynValue::Null
    }
}

/// Names the affinity of a declared type tag.
pub fn affinity_of_tag(tag: &String) -> (affinity: Affinity)
    ensures
        affinity == tag_affinity(tag@),
{
    if *tag == String::from_str("INTEGER") {
        Affinity::Integer
    } else if *tag == String::from_str("REAL") {
        Affinity::Real
    } else if *tag == String::from_str("TEXT") {
        Affinity::Text
    } else if *tag == String::from_str("BLOB") {
        Affinity::Binary
    } else {
        Affinity::Other
    }
}

/// Names the affinity that a value has by itself.
pub fn affinity_of_value(value: &ColumnValue) -> (affinity: Affinity)
    ensures
        affinity == storage_affinity(value@),
{
    match value {
        ColumnValue::Null => Affinity::Other,
        ColumnValue::Integer(_) => Affinity::Integer,
        ColumnValue::Real(_) => Affinity::Real,
        ColumnValue::Text(_) => Affinity::Text,
        ColumnValue::Blob(_) => Affinity::Binary,
    }
}

/// Reads a column value under an affinity.
pub fn decode_value(affinity: Affinity, value: &ColumnValue) -> (result: DynValue)
    ensures
        result@ == decoded(affinity, value@),
        affinity == Affinity::Binary ==> (result@ matches DynValueView::Text(text)
            ==> base64_shaped(text, bytes_of(value@)->Some_0.len())),
{
    match affinity {
        Affinity::Integer => match value {
            ColumnValue::Integer(i) => DynValue::Number(Number::Integer(*i)),
            _ => DynValue::Null,
        },
        Affinity::Real => match value {
            ColumnValue::Real(bits) => if is_finite_bits(*bits) {
                DynValue::Number(Number::Real(*bits))
            } else {
                DynValue::Null
            },
            _ => DynValue::Null,
        },
        Affinity::Binary => match value {
            ColumnValue::Blob(bytes) => encode_binary(bytes.as_slice()),
            ColumnValue::Text(s) => encode_binary(s.as_str().as_bytes()),
            _ => DynValue::Null,
        },
        Affinity::Text | Affinity::Other => match value {
            ColumnValue::Text(s) => DynValue::Text(s.clone()),
            _ => DynValue::Null,
        },
    }
}

/// The view of a declared type tag that may be absent.
pub open spec fn tag_view(declared: Option<String>) -> Option<Seq<char>> {
    match declared {
        Some(tag) => Some(tag@),
        None => None,
    }
}

/// Converts the value of one result cell to a dynamic value, by the declared
/// type tag of its column, or by the value itself where none is declared. A
/// binary cell comes out as a text in the shape of padded base64.
pub fn column_to_dynamic(declared: &Option<String>, value: &ColumnValue) -> (result: DynValue)
    ensures
        result@ == inbound(tag_view(*declared), value@),
        affinity_of(tag_view(*declared), value@) == Affinity::Binary ==> (result@ matches DynValueView::Text(
            text,
        ) ==> base64_shaped(text, bytes_of(value@)->Some_0.len())),
{
    let affinity = match declared {
        Some(tag) => if *tag == String::from_str("NULL") {
            affinity_of_value(value)
        } else {
            affinity_of_tag(tag)
        },
        None => affinity_of_value(value),
    };
    decode_value(affinity, value)
}

/// What a column holds once a binding has been stored in it unchanged: the
/// bound value in its own storage class, a boolean as the integer 1 or 0.
/// Where nothing is bound nothing is stored.
pub open spec fn stored(binding: BindingView) -> Option<ColumnValueView> {
    match binding {
        BindingView::Null => Some(ColumnValueView::Null),
        BindingView::Bool(b) => Some(ColumnValueView::Integer(if b { 1i64 } else { 0i64 })),
        BindingView::Integer(i) => Some(ColumnValueView::Integer(i)),
        BindingView::Real(bits) => Some(ColumnValueView::Real(bits)),
        BindingView::Text(s) => Some(ColumnValueView::Text(s)),
        BindingView::Skip => None,
    }
}

/// An integer number that is bound, stored and read back from a column of
/// integer affinity comes back as the same number.
pub proof fn lemma_integer_round_trip(i: i64, declared: Option<Seq<char>>)
    requires
        affinity_of(declared, ColumnValueView::Integer(i)) == Affinity::Integer,
    ensures
        stored(binding_of(DynValueView::Number(Number::Integer(i)))) == Some(
            ColumnValueView::Integer(i),
        ),
        inbound(declared, ColumnValueView::Integer(i)) == DynValueView::Number(
            Number::Integer(i),
        ),
{
}

/// A boolean is bound as it is. Stored in a column of integer affinity and
/// read back, it comes back as the number 1 for `true` and 0 for `false`, so
/// the two booleans come back apart and each can be told from its number.
pub proof fn lemma_bool_round_trip(b: bool, declared: Option<Seq<char>>)
    requires
        affinity_of(declared, stored(binding_of(DynValueView::Bool(b)))->Some_0)
            == Affinity::Integer,
    ensures
        binding_of(DynValueView::Bool(b)) == BindingView::Bool(b),
        inbound(declared, stored(binding_of(DynValueView::Bool(b)))->Some_0)
            == DynValueView::Number(Number::Integer(if b { 1i64 } else { 0i64 })),
        inbound(declared, stored(binding_of(DynValueView::Bool(true)))->Some_0) != inbound(
            declared,
            stored(binding_of(DynValueView::Bool(false)))->Some_0,
        ),
{
}

/// A finite real number that is bound, stored and read back from a column of
/// real affinity comes back as the same number.
pub proof fn lemma_real_round_trip(bits: u64, declared: Option<Seq<char>>)
    requires
        finite_bits(bits),
        affinity_of(declared, ColumnValueView::Real(bits)) == Affinity::Real,
    ensures
        stored(binding_of(DynValueView::Number(Number::Real(bits)))) == Some(
            ColumnValueView::Real(bits),
        ),
        inbound(declared, ColumnValueView::Real(bits)) == DynValueView::Number(Number::Real(bits)),
{
}

/// An infinity or a NaN that a column holds is read as `Null`, whatever the
/// column declares.
pub proof fn lemma_non_finite_is_null(bits: u64, declared: Option<Seq<char>>)
    requires
        !finite_bits(bits),
    ensures
        inbound(declared, ColumnValueView::Real(bits)) == DynValueView::Null,
{
}

/// Bytes of a length that base64 can encode come out of a column of binary
/// affinity as the text of their base64 form, and equal bytes as equal texts.
pub proof fn lemma_binary_inbound(bytes: Seq<u8>, declared: Option<Seq<char>>)
    requires
        affinity_of(declared, ColumnValueView::Blob(bytes)) == Affinity::Binary,
        encodable_len(bytes.len()),
    ensures
        inbound(declared, ColumnValueView::Blob(bytes)) == DynValueView::Text(
            base64_standard(bytes),
        ),
{
}

/// A null is bound as a null whatever the column, and a stored null is read
/// back as `Null` whatever type tag the column declares.
pub proof fn lemma_null_round_trip(declared: Option<Seq<char>>)
    ensures
        binding_of(DynValueView::Null) == BindingView::Null,
        stored(binding_of(DynValueView::Null)) == Some(ColumnValueView::Null),
        inbound(declared, ColumnValueView::Null) == DynValueView::Null,
{
}

/// No column value makes the inbound conversion fail: it yields a null, a
/// number or a text, and never a boolean or an unhandled shape. A real number
/// that it yields is finite.
pub proof fn lemma_inbound_total(declared: Option<Seq<char>>, value: ColumnValueView)
    ensures
        inbound(declared, value) is Null || inbound(declared, value) is Number || inbound(
            declared,
            value,
        ) is Text,
        inbound(declared, value) matches DynValueView::Number(Number::Real(bits)) ==> finite_bits(
            bits,
        ),
{
}

/// A column whose tag is `NULL` declares no type: its values are read as
/// those of a column without a tag.
pub proof fn lemma_null_tag_declares_nothing(value: ColumnValueView)
    ensures
        inbound(Some("NULL"@), value) == inbound(None, value),
{
}

} // verus!
