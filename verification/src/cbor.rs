//! CBOR values as this library sees them, and the boundary to the `ciborium`
//! serializer.

use crate::bytes::{array16_from, array32_from, copy_bytes};
use vstd::prelude::*;

verus! {

/// Failure to move between bytes, CBOR values and typed structures.
#[derive(Clone, Copy, Debug, PartialEq, Eq, Structural)]
pub enum CborError {
    /// The bytes do not hold a CBOR item.
    DecodeFailed,
    /// The value could not be serialized.
    EncodeFailed,
    /// Bytes remain after the CBOR item.
    ExtraneousData,
    /// An integer does not fit the field it is meant for.
    OutOfRangeIntegerValue,
    /// An integer is not one of the values of the enumeration it is meant for.
    NonEnumValue,
    /// An item of another kind, or of another shape, was expected.
    UnexpectedItem,
    /// The item has the right kind but holds a value that is not allowed.
    InvalidValue,
}

/// A CBOR data item.
#[derive(Debug, PartialEq, Eq)]
pub enum CborValue {
    /// An integer in the range that CBOR major types 0 and 1 can hold.
    Integer(i128),
    /// A byte string.
    Bytes(Vec<u8>),
    /// A text string.
    Text(String),
    /// A boolean.
    Bool(bool),
    /// The null value.
    Null,
    /// A tagged item.
    Tag(u64, Box<CborValue>),
    /// An array of items.
    Array(Vec<CborValue>),
    /// A map, as the sequence of its entries.
    Dict(Vec<(CborValue, CborValue)>),
}

/// The mathematical content of a [`CborValue`].
pub ghost enum Item {
    Integer(int),
    Bytes(Seq<u8>),
    Text(Seq<char>),
    Bool(bool),
    Null,
    Tag(nat, Box<Item>),
    Array(Seq<Item>),
    Dict(Seq<(Item, Item)>),
}

impl CborValue {
    /// The item that this value stands for.
    pub open spec fn model(&self) -> Item
        decreases self,
    {
        match self {
            CborValue::Integer(i) => Item::Integer(*i as int),
            CborValue::Bytes(b) => Item::Bytes(b@),
            CborValue::Text(t) => Item::Text(t@),
            CborValue::Bool(b) => Item::Bool(*b),
            CborValue::Null => Item::Null,
            CborValue::Tag(t, inner) => Item::Tag(*t as nat, Box::new(inner.model())),
            CborValue::Array(a) => Item::Array(
                Seq::new(
                    a.len() as nat,
                    |i: int|
                        if 0 <= i < a.len() {
                            a[i].model()
                        } else {
                            Item::Null
                        },
                ),
            ),
            CborValue::Dict(m) => Item::Dict(
                Seq::new(
                    m.len() as nat,
                    |i: int|
                        if 0 <= i < m.len() {
                            (m[i].0.model(), m[i].1.model())
                        } else {
                            (Item::Null, Item::Null)
                        },
                ),
            ),
        }
    }
}

impl View for CborValue {
    type V = Item;

    open spec fn view(&self) -> Item {
        self.model()
    }
}

/// The items of a vector of values, in order.
pub open spec fn items_of(a: Seq<CborValue>) -> Seq<Item> {
    Seq::new(a.len(), |i: int| a[i]@)
}

/// An array value stands for the array of the items of its elements.
pub proof fn lemma_array_model(a: Vec<CborValue>)
    ensures
        CborValue::Array(a)@ == Item::Array(items_of(a@)),
{
    assert(CborValue::Array(a)@->Array_0 =~= items_of(a@));
}

/// The items of the entries of a map, in order.
pub open spec fn entries_of(m: Seq<(CborValue, CborValue)>) -> Seq<(Item, Item)> {
    Seq::new(m.len(), |i: int| (m[i].0@, m[i].1@))
}

/// A map value stands for the map of the items of its entries.
pub proof fn lemma_dict_model(m: Vec<(CborValue, CborValue)>)
    ensures
        CborValue::Dict(m)@ == Item::Dict(entries_of(m@)),
{
    assert(CborValue::Dict(m)@->Dict_0 =~= entries_of(m@));
}

/// `ciborium::value::Value`, the form in which values are handed to, and
/// taken back from, `ciborium` and `coset`. Nothing is known of what a value
/// of it holds.
#[verifier::external_type_specification]
#[verifier::external_body]
pub struct ExOutsideValue(ciborium::value::Value);

/// What `ciborium::de::from_reader_with_recursion_limit` reads from the
/// front of `bytes` under the nesting limit `limit`: the item and the number
/// of bytes that follow it. There is nothing where the reader fails, and
/// where the item holds a floating-point number.
pub uninterp spec fn parsed(bytes: Seq<u8>, limit: nat) -> Option<(Item, nat)>;

/// The bytes that `ciborium::ser::into_writer` emits for an item. There are
/// none where the item holds an integer that CBOR cannot hold in eight
/// bytes, and where the writer fails.
pub uninterp spec fn serialized(item: Item) -> Option<Seq<u8>>;

/// Moves a value of this library into `ciborium::value::Value`, variant by
/// variant. Nothing is claimed of the result: it only feeds the serializer.
#[verifier::external_body]
pub(crate) fn to_outside(v: &CborValue) -> Option<ciborium::value::Value> {
    Some(match v {
        CborValue::Integer(i) => ciborium::value::Value::Integer((*i).try_into().ok()?),
        CborValue::Bytes(b) => ciborium::value::Value::Bytes(b.clone()),
        CborValue::Text(t) => ciborium::value::Value::Text(t.clone()),
        CborValue::Bool(b) => ciborium::value::Value::Bool(*b),
        CborValue::Null => ciborium::value::Value::Null,
        CborValue::Tag(t, x) => ciborium::value::Value::Tag(*t, Box::new(to_outside(x)?)),
        CborValue::Array(a) => ciborium::value::Value::Array(to_outside_all(a)?),
        CborValue::Dict(m) => ciborium::value::Value::Map(to_outside_entries(m)?),
    })
}

/// Moves each element of an array into `ciborium::value::Value`.
#[verifier::external_body]
fn to_outside_all(a: &Vec<CborValue>) -> Option<Vec<ciborium::value::Value>> {
    a.iter().map(to_outside).collect()
}

/// Moves each entry of a map into a pair of `ciborium::value::Value`.
#[verifier::external_body]
fn to_outside_entries(m: &Vec<(CborValue, CborValue)>) -> Option<Vec<(ciborium::value::Value, ciborium::value::Value)>> {
    m.iter().map(|(k, x)| Some((to_outside(k)?, to_outside(x)?))).collect()
}

/// Moves a `ciborium::value::Value` into a value of this library, variant by
/// variant. A floating-point number has no counterpart here, nor has a
/// variant that `ciborium` may add later.
#[verifier::external_body]
pub(crate) fn from_outside(v: ciborium::value::Value) -> Option<CborValue> {
    Some(match v {
        ciborium::value::Value::Integer(i) => CborValue::Integer(i.into()),
        ciborium::value::Value::Bytes(b) => CborValue::Bytes(b),
        ciborium::value::Value::Text(t) => CborValue::Text(t),
        ciborium::value::Value::Bool(b) => CborValue::Bool(b),
        ciborium::value::Value::Null => CborValue::Null,
        ciborium::value::Value::Tag(t, x) => CborValue::Tag(t, Box::new(from_outside(*x)?)),
        ciborium::value::Value::Array(a) => CborValue::Array(a.into_iter().map(from_outside).collect::<Option<_>>()?),
        ciborium::value::Value::Map(m) => CborValue::Dict(from_outside_entries(m)?),
        _ => return None,
    })
}

/// Moves each entry of a `ciborium` map into a pair of values of this library.
#[verifier::external_body]
fn from_outside_entries(m: Vec<(ciborium::value::Value, ciborium::value::Value)>) -> Option<Vec<(CborValue, CborValue)>> {
    m.into_iter().map(|(k, x)| Some((from_outside(k)?, from_outside(x)?))).collect()
}

/// Reads one CBOR item from the front of `bytes` with
/// `ciborium::de::from_reader_with_recursion_limit`. The contract names the
/// outcome [`parsed`]: the item read and how many bytes follow it. The count
/// never exceeds the length of the input, since the reader only consumes.
/// An item that holds a floating-point number counts as not read.
#[verifier::external_body]
fn read_item(bytes: &[u8], limit: usize) -> (r: Option<(CborValue, usize)>)
    ensures
        match r {
            Some((v, rest)) => parsed(bytes@, limit as nat) == Some((v@, rest as nat)) && rest
                <= bytes.len(),
            None => parsed(bytes@, limit as nat).is_none(),
        },
{
    let mut rest = bytes;
    let v = ciborium::de::from_reader_with_recursion_limit(&mut rest, limit).ok()?;
    Some((from_outside(v)?, rest.len()))
}

/// Writes a value with `ciborium::ser::into_writer`. The contract names the
/// bytes [`serialized`], and says that there are none exactly when the value
/// cannot be handed to the writer or the writer fails.
#[verifier::external_body]
fn write_item(v: &CborValue) -> (r: Option<Vec<u8>>)
    ensures
        match r {
            Some(bytes) => serialized(v@) == Some(bytes@),
            None => serialized(v@).is_none(),
        },
{
    let mut data = Vec::new();
    ciborium::ser::into_writer(&to_outside(v)?, &mut data).ok()?;
    Some(data)
}

/// Whether the bytes written for `item` are read back as `item`.
pub open spec fn reads_back(item: Item) -> bool {
    forall|bytes: Seq<u8>| #[trigger]
        encoded(item) == Ok::<Seq<u8>, CborError>(bytes) ==> decoded(bytes) == Ok::<
            Item,
            CborError,
        >(item)
}

/// Deepest nesting of items that [`from_slice`] accepts.
pub const MAX_NESTING: usize = 16;

/// What [`from_slice`] returns for `bytes`.
pub open spec fn decoded(bytes: Seq<u8>) -> Result<Item, CborError> {
    match parsed(bytes, MAX_NESTING as nat) {
        None => Err(CborError::DecodeFailed),
        Some((item, rest)) => if rest == 0 {
            Ok(item)
        } else {
            Err(CborError::ExtraneousData)
        },
    }
}

/// What [`to_vec`] returns for `item`.
pub open spec fn encoded(item: Item) -> Result<Seq<u8>, CborError> {
    match serialized(item) {
        None => Err(CborError::EncodeFailed),
        Some(bytes) => Ok(bytes),
    }
}

/// Reads `bytes` as exactly one CBOR item.
///
/// Fails with `DecodeFailed` where the bytes do not start with a complete
/// item, and with `ExtraneousData` where bytes remain after it.
pub fn from_slice(bytes: &[u8]) -> (r: Result<CborValue, CborError>)
    ensures
        match r {
            Ok(v) => decoded(bytes@) == Ok::<Item, CborError>(v@),
            Err(e) => decoded(bytes@) == Err::<Item, CborError>(e),
        },
{
    match read_item(bytes, MAX_NESTING) {
        None => Err(CborError::DecodeFailed),
        Some((v, rest)) => if rest == 0 {
            Ok(v)
        } else {
            Err(CborError::ExtraneousData)
        },
    }
}

/// Serializes a value to bytes; `EncodeFailed` where it cannot be written.
pub fn to_vec(v: &CborValue) -> (r: Result<Vec<u8>, CborError>)
    ensures
        match r {
            Ok(bytes) => encoded(v@) == Ok::<Seq<u8>, CborError>(bytes@),
            Err(e) => encoded(v@) == Err::<Seq<u8>, CborError>(e),
        },
{
    match write_item(v) {
        None => Err(CborError::EncodeFailed),
        Some(bytes) => Ok(bytes),
    }
}

/// The views of the elements of a sequence, in order.
pub open spec fn views<T: View>(s: Seq<T>) -> Seq<T::V> {
    Seq::new(s.len(), |i: int| s[i]@)
}

/// A result with its success value replaced by that value's view.
pub open spec fn result_view<T: View>(r: Result<T, CborError>) -> Result<T::V, CborError> {
    match r {
        Ok(x) => Ok(x@),
        Err(e) => Err(e),
    }
}

/// The integer that an item holds, where it lies between `lo` and `hi`.
pub open spec fn int_of(item: Item, lo: int, hi: int) -> Result<int, CborError> {
    match item {
        Item::Integer(i) => if lo <= i <= hi {
            Ok(i)
        } else {
            Err(CborError::OutOfRangeIntegerValue)
        },
        _ => Err(CborError::UnexpectedItem),
    }
}

/// The `u32` that an item holds.
pub open spec fn u32_of(item: Item) -> Result<u32, CborError> {
    match int_of(item, 0, u32::MAX as int) {
        Ok(i) => Ok(i as u32),
        Err(e) => Err(e),
    }
}

/// The `i32` that an item holds.
pub open spec fn i32_of(item: Item) -> Result<i32, CborError> {
    match int_of(item, i32::MIN as int, i32::MAX as int) {
        Ok(i) => Ok(i as i32),
        Err(e) => Err(e),
    }
}

/// The `u64` that an item holds.
pub open spec fn u64_of(item: Item) -> Result<u64, CborError> {
    match int_of(item, 0, u64::MAX as int) {
        Ok(i) => Ok(i as u64),
        Err(e) => Err(e),
    }
}

/// The `i64` that an item holds.
pub open spec fn i64_of(item: Item) -> Result<i64, CborError> {
    match int_of(item, i64::MIN as int, i64::MAX as int) {
        Ok(i) => Ok(i as i64),
        Err(e) => Err(e),
    }
}

/// The boolean that an item holds.
pub open spec fn bool_of(item: Item) -> Result<bool, CborError> {
    match item {
        Item::Bool(b) => Ok(b),
        _ => Err(CborError::UnexpectedItem),
    }
}

/// The byte string that an item holds.
pub open spec fn bytes_of(item: Item) -> Result<Seq<u8>, CborError> {
    match item {
        Item::Bytes(b) => Ok(b),
        _ => Err(CborError::UnexpectedItem),
    }
}

/// The byte string of exactly `n` bytes that an item holds.
pub open spec fn fixed_bytes_of(item: Item, n: nat) -> Result<Seq<u8>, CborError> {
    match item {
        Item::Bytes(b) => if b.len() == n {
            Ok(b)
        } else {
            Err(CborError::UnexpectedItem)
        },
        _ => Err(CborError::UnexpectedItem),
    }
}

/// The elements of the array that an item holds.
pub open spec fn array_of(item: Item) -> Result<Seq<Item>, CborError> {
    match item {
        Item::Array(a) => Ok(a),
        _ => Err(CborError::UnexpectedItem),
    }
}

/// The elements of the array of exactly `n` elements that an item holds.
pub open spec fn tuple_of(item: Item, n: nat) -> Result<Seq<Item>, CborError> {
    match item {
        Item::Array(a) => if a.len() == n {
            Ok(a)
        } else {
            Err(CborError::UnexpectedItem)
        },
        _ => Err(CborError::UnexpectedItem),
    }
}

/// Reads an integer item as a `u32`.
pub fn value_u32(v: &CborValue) -> (r: Result<u32, CborError>)
    ensures
        r == u32_of(v@),
{
    match v {
        CborValue::Integer(i) => if 0 <= *i && *i <= 0xffff_ffff {
            Ok(*i as u32)
        } else {
            Err(CborError::OutOfRangeIntegerValue)
        },
        _ => Err(CborError::UnexpectedItem),
    }
}

/// Reads an integer item as an `i32`.
pub fn value_i32(v: &CborValue) -> (r: Result<i32, CborError>)
    ensures
        r == i32_of(v@),
{
    match v {
        CborValue::Integer(i) => if -0x8000_0000 <= *i && *i <= 0x7fff_ffff {
            Ok(*i as i32)
        } else {
            Err(CborError::OutOfRangeIntegerValue)
        },
        _ => Err(CborError::UnexpectedItem),
    }
}

/// Reads an integer item as a `u64`.
pub fn value_u64(v: &CborValue) -> (r: Result<u64, CborError>)
    ensures
        r == u64_of(v@),
{
    match v {
        CborValue::Integer(i) => if 0 <= *i && *i <= 0xffff_ffff_ffff_ffff {
            Ok(*i as u64)
        } else {
            Err(CborError::OutOfRangeIntegerValue)
        },
        _ => Err(CborError::UnexpectedItem),
    }
}

/// Reads an integer item as an `i64`.
pub fn value_i64(v: &CborValue) -> (r: Result<i64, CborError>)
    ensures
        r == i64_of(v@),
{
    match v {
        CborValue::Integer(i) => if -0x8000_0000_0000_0000 <= *i && *i <= 0x7fff_ffff_ffff_ffff {
            Ok(*i as i64)
        } else {
            Err(CborError::OutOfRangeIntegerValue)
        },
        _ => Err(CborError::UnexpectedItem),
    }
}

/// Reads a boolean item.
pub fn value_bool(v: &CborValue) -> (r: Result<bool, CborError>)
    ensures
        r == bool_of(v@),
{
    match v {
        CborValue::Bool(b) => Ok(*b),
        _ => Err(CborError::UnexpectedItem),
    }
}

/// Reads a byte string item, copying its bytes.
pub fn value_bytes(v: &CborValue) -> (r: Result<Vec<u8>, CborError>)
    ensures
        match r {
            Ok(b) => bytes_of(v@) == Ok::<Seq<u8>, CborError>(b@),
            Err(e) => bytes_of(v@) == Err::<Seq<u8>, CborError>(e),
        },
{
    match v {
        CborValue::Bytes(b) => Ok(b.clone()),
        _ => Err(CborError::UnexpectedItem),
    }
}

/// Reads an array item with exactly `n` elements.
pub fn value_tuple(v: &CborValue, n: usize) -> (r: Result<&Vec<CborValue>, CborError>)
    ensures
        match r {
            Ok(a) => tuple_of(v@, n as nat) == Ok::<Seq<Item>, CborError>(items_of(a@)) && a@.len()
                == n,
            Err(e) => tuple_of(v@, n as nat) == Err::<Seq<Item>, CborError>(e),
        },
{
    match v {
        CborValue::Array(a) => {
            proof {
                lemma_array_model(*a);
            }
            if a.len() == n {
                Ok(a)
            } else {
                Err(CborError::UnexpectedItem)
            }
        },
        _ => Err(CborError::UnexpectedItem),
    }
}

/// Reads an array item of any length.
pub fn value_array(v: &CborValue) -> (r: Result<&Vec<CborValue>, CborError>)
    ensures
        match r {
            Ok(a) => array_of(v@) == Ok::<Seq<Item>, CborError>(items_of(a@)),
            Err(e) => array_of(v@) == Err::<Seq<Item>, CborError>(e),
        },
{
    match v {
        CborValue::Array(a) => {
            proof {
                lemma_array_model(*a);
            }
            Ok(a)
        },
        _ => Err(CborError::UnexpectedItem),
    }
}

/// Builds a byte string item from a slice.
pub fn bytes_value(b: &[u8]) -> (r: CborValue)
    ensures
        r@ == Item::Bytes(b@),
{
    CborValue::Bytes(copy_bytes(b))
}

/// Builds a map item from its entries.
pub fn dict_value(m: Vec<(CborValue, CborValue)>) -> (r: CborValue)
    ensures
        r@ == Item::Dict(entries_of(m@)),
{
    proof {
        lemma_dict_model(m);
    }
    CborValue::Dict(m)
}

/// Builds a text string item from a string slice.
pub fn str_value(t: &str) -> (r: CborValue)
    ensures
        r@ == Item::Text(t@),
{
    CborValue::Text(t.to_owned())
}

/// Builds an array item from its elements.
pub fn array_value(a: Vec<CborValue>) -> (r: CborValue)
    ensures
        r@ == Item::Array(items_of(a@)),
{
    proof {
        lemma_array_model(a);
    }
    CborValue::Array(a)
}

/// The text string that an item holds.
pub open spec fn text_of(item: Item) -> Result<Seq<char>, CborError> {
    match item {
        Item::Text(t) => Ok(t),
        _ => Err(CborError::UnexpectedItem),
    }
}

/// Reads a text string item, copying its characters.
pub fn value_text(v: &CborValue) -> (r: Result<String, CborError>)
    ensures
        match r {
            Ok(t) => text_of(v@) == Ok::<Seq<char>, CborError>(t@),
            Err(e) => text_of(v@) == Err::<Seq<char>, CborError>(e),
        },
{
    match v {
        CborValue::Text(t) => Ok(t.clone()),
        _ => Err(CborError::UnexpectedItem),
    }
}

/// Builds a text string item.
pub fn text_value(t: &String) -> (r: CborValue)
    ensures
        r@ == Item::Text(t@),
{
    CborValue::Text(t.clone())
}

/// Reads a byte string of exactly 16 bytes.
pub fn value_bytes16(v: &CborValue) -> (r: Result<[u8; 16], CborError>)
    ensures
        match r {
            Ok(a) => fixed_bytes_of(v@, 16) == Ok::<Seq<u8>, CborError>(a@),
            Err(e) => fixed_bytes_of(v@, 16) == Err::<Seq<u8>, CborError>(e),
        },
{
    match v {
        CborValue::Bytes(b) => match array16_from(b.as_slice()) {
            Some(a) => Ok(a),
            None => Err(CborError::UnexpectedItem),
        },
        _ => Err(CborError::UnexpectedItem),
    }
}

/// Reads a byte string of exactly 32 bytes.
pub fn value_bytes32(v: &CborValue) -> (r: Result<[u8; 32], CborError>)
    ensures
        match r {
            Ok(a) => fixed_bytes_of(v@, 32) == Ok::<Seq<u8>, CborError>(a@),
            Err(e) => fixed_bytes_of(v@, 32) == Err::<Seq<u8>, CborError>(e),
        },
{
    match v {
        CborValue::Bytes(b) => match array32_from(b.as_slice()) {
            Some(a) => Ok(a),
            None => Err(CborError::UnexpectedItem),
        },
        _ => Err(CborError::UnexpectedItem),
    }
}

/// The view of an optional value.
pub open spec fn option_view<T: View>(o: Option<T>) -> Option<T::V> {
    match o {
        Some(x) => Some(x@),
        None => None,
    }
}

/// A result with the optional value it holds on success replaced by that
/// value's view.
pub open spec fn result_option_view<T: View>(r: Result<Option<T>, CborError>) -> Result<
    Option<T::V>,
    CborError,
> {
    match r {
        Ok(o) => Ok(option_view(o)),
        Err(e) => Err(e),
    }
}

/// The CBOR form of an optional value: the empty array for none, the
/// one-element array of the value's form for one.
pub open spec fn option_item(o: Option<Item>) -> Item {
    match o {
        None => Item::Array(Seq::empty()),
        Some(x) => Item::Array(seq![x]),
    }
}

/// Reads an optional value from an array of at most one element, the
/// element with `f`.
pub open spec fn decode_option<T>(
    item: Item,
    f: spec_fn(Item) -> Result<T, CborError>,
) -> Result<Option<T>, CborError> {
    match array_of(item) {
        Err(e) => Err(e),
        Ok(a) => if a.len() == 0 {
            Ok(None)
        } else if a.len() == 1 {
            match f(a[0]) {
                Err(e) => Err(e),
                Ok(x) => Ok(Some(x)),
            }
        } else {
            Err(CborError::UnexpectedItem)
        },
    }
}

/// Reads an array, each element with `f`.
pub open spec fn decode_array<T>(
    item: Item,
    f: spec_fn(Item) -> Result<T, CborError>,
) -> Result<Seq<T>, CborError> {
    match array_of(item) {
        Err(e) => Err(e),
        Ok(a) => decode_all(a, f),
    }
}

/// Reading what was written for an optional value gives the value back,
/// where `dec` reads back what `enc` writes for the value inside.
pub proof fn lemma_decode_option_round_trip<T>(
    o: Option<T>,
    enc: spec_fn(T) -> Item,
    dec: spec_fn(Item) -> Result<T, CborError>,
)
    requires
        o matches Some(x) ==> dec(enc(x)) == Ok::<T, CborError>(x),
    ensures
        decode_option(
            option_item(
                match o {
                    None => None,
                    Some(x) => Some(enc(x)),
                },
            ),
            dec,
        ) == Ok::<Option<T>, CborError>(o),
{
    match o {
        None => {},
        Some(x) => {
            assert(seq![enc(x)][0] == enc(x));
        },
    }
}

/// How a text string is written.
pub open spec fn text_encoder() -> spec_fn(Seq<char>) -> Item {
    |t: Seq<char>| Item::Text(t)
}

/// How a text string is read.
pub open spec fn text_decoder() -> spec_fn(Item) -> Result<Seq<char>, CborError> {
    |item: Item| text_of(item)
}

/// How a byte string is written.
pub open spec fn bytes_encoder() -> spec_fn(Seq<u8>) -> Item {
    |b: Seq<u8>| Item::Bytes(b)
}

/// How a byte string is read.
pub open spec fn bytes_decoder() -> spec_fn(Item) -> Result<Seq<u8>, CborError> {
    |item: Item| bytes_of(item)
}

/// A result with the vector it holds on success replaced by the views of the
/// vector's elements.
pub open spec fn result_views<T: View>(r: Result<Vec<T>, CborError>) -> Result<
    Seq<T::V>,
    CborError,
> {
    match r {
        Ok(v) => Ok(views(v@)),
        Err(e) => Err(e),
    }
}

/// Reads each item with `f`, front to back: the values read, or the error of
/// the first item that `f` refuses.
pub open spec fn decode_all<T>(
    items: Seq<Item>,
    f: spec_fn(Item) -> Result<T, CborError>,
) -> Result<Seq<T>, CborError>
    decreases items.len(),
{
    if items.len() == 0 {
        Ok(Seq::empty())
    } else {
        match decode_all(items.drop_last(), f) {
            Err(e) => Err(e),
            Ok(front) => match f(items.last()) {
                Err(e) => Err(e),
                Ok(x) => Ok(front.push(x)),
            },
        }
    }
}

/// Reading the first `i + 1` items is reading the first `i`, then item `i`.
pub proof fn lemma_decode_all_step<T>(
    items: Seq<Item>,
    f: spec_fn(Item) -> Result<T, CborError>,
    i: int,
)
    requires
        0 <= i < items.len(),
    ensures
        decode_all(items.take(i + 1), f) == match decode_all(items.take(i), f) {
            Err(e) => Err(e),
            Ok(front) => match f(items[i]) {
                Err(e) => Err(e),
                Ok(x) => Ok(front.push(x)),
            },
        },
{
    assert(items.take(i + 1).drop_last() =~= items.take(i));
    assert(items.take(i + 1).last() == items[i]);
}

/// An error met while reading the first `i` items is the error of reading
/// them all.
pub proof fn lemma_decode_all_error<T>(
    items: Seq<Item>,
    f: spec_fn(Item) -> Result<T, CborError>,
    i: int,
)
    requires
        0 <= i <= items.len(),
        decode_all(items.take(i), f) is Err,
    ensures
        decode_all(items, f) == decode_all(items.take(i), f),
    decreases items.len() - i,
{
    if i == items.len() {
        assert(items.take(i) =~= items);
    } else {
        lemma_decode_all_step(items, f, i);
        lemma_decode_all_error(items, f, i + 1);
    }
}

/// Where `dec` reads back whatever `enc` writes, reading the items written
/// for a sequence gives the sequence back.
pub proof fn lemma_decode_all_round_trip<T>(
    s: Seq<T>,
    enc: spec_fn(T) -> Item,
    dec: spec_fn(Item) -> Result<T, CborError>,
)
    requires
        forall|x: T| #[trigger] dec(enc(x)) == Ok::<T, CborError>(x),
    ensures
        decode_all(s.map_values(enc), dec) == Ok::<Seq<T>, CborError>(s),
    decreases s.len(),
{
    let items = s.map_values(enc);
    if s.len() == 0 {
        assert(s =~= Seq::empty());
    } else {
        lemma_decode_all_round_trip(s.drop_last(), enc, dec);
        assert(items.drop_last() =~= s.drop_last().map_values(enc));
        assert(items.last() == enc(s.last()));
        assert(s.drop_last().push(s.last()) =~= s);
    }
}

} // verus!
