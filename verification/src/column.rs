//! The columns of a batch, as far as the limit reads them.
//!
//! A column is one of arrow's arrays, of whatever type, and opaque here:
//! what it holds is named, and the calls into arrow are stated over those
//! names. Arrow cuts an array by building it anew from its data, as the
//! array type that belongs to the data type. So a column can be cut where it
//! is that array already: then its data passed the checks of that array type
//! when the column was made, and passes them again.

use vstd::prelude::*;
use vstd::math::min;
use arrow::array::ArrayRef;
use arrow::array::BinaryArray;
use arrow::array::BooleanArray;
use arrow::array::Date32Array;
use arrow::array::Date64Array;
use arrow::array::DecimalArray;
use arrow::array::DurationMicrosecondArray;
use arrow::array::DurationMillisecondArray;
use arrow::array::DurationNanosecondArray;
use arrow::array::DurationSecondArray;
use arrow::array::FixedSizeBinaryArray;
use arrow::array::FixedSizeListArray;
use arrow::array::Float32Array;
use arrow::array::Float64Array;
use arrow::array::Int16Array;
use arrow::array::Int16DictionaryArray;
use arrow::array::Int32Array;
use arrow::array::Int32DictionaryArray;
use arrow::array::Int64Array;
use arrow::array::Int64DictionaryArray;
use arrow::array::Int8Array;
use arrow::array::Int8DictionaryArray;
use arrow::array::IntervalDayTimeArray;
use arrow::array::IntervalYearMonthArray;
use arrow::array::LargeBinaryArray;
use arrow::array::LargeListArray;
use arrow::array::LargeStringArray;
use arrow::array::ListArray;
use arrow::array::MapArray;
use arrow::array::NullArray;
use arrow::array::StringArray;
use arrow::array::StructArray;
use arrow::array::Time32MillisecondArray;
use arrow::array::Time32SecondArray;
use arrow::array::Time64MicrosecondArray;
use arrow::array::Time64NanosecondArray;
use arrow::array::TimestampMicrosecondArray;
use arrow::array::TimestampMillisecondArray;
use arrow::array::TimestampNanosecondArray;
use arrow::array::TimestampSecondArray;
use arrow::array::UInt16Array;
use arrow::array::UInt16DictionaryArray;
use arrow::array::UInt32Array;
use arrow::array::UInt32DictionaryArray;
use arrow::array::UInt64Array;
use arrow::array::UInt64DictionaryArray;
use arrow::array::UInt8Array;
use arrow::array::UInt8DictionaryArray;
use arrow::array::UnionArray;
use arrow::datatypes::DataType;
use crate::types::kind_of;
use crate::types::type_kind;
use crate::types::ArrayKind;
use crate::types::Instant;
use crate::types::Nested;
use crate::types::Number;
use crate::types::Plain;
use crate::types::TimeOfDay;

verus! {

/// Arrow's data type of a column or field. Two are equal where arrow
/// compares them equal.
#[verifier::external_type_specification]
#[verifier::external_body]
pub struct ExDataType(DataType);

/// One column of a batch: an arrow array of whatever type, behind the shared
/// pointer that arrow hands columns out by.
#[verifier::external_body]
pub struct Column {
    pub(crate) inner: ArrayRef,
}

/// The values that a column holds, row by row. Each value stands here as a
/// text of its own: two rows have the same text exactly where they hold the
/// same value, a null being a value apart from every other.
pub uninterp spec fn column_cells(column: Column) -> Seq<Seq<char>>;

/// The data type of a column's values.
pub uninterp spec fn column_type(column: Column) -> DataType;

/// Which of arrow's array types a column is, given as the kind of data type
/// that arrow builds that array type for; none for an array of a type that
/// is not arrow's.
pub uninterp spec fn column_array(column: Column) -> Option<ArrayKind>;

/// Whether a column is the array that arrow builds for its data type.
pub open spec fn native(column: Column) -> bool {
    type_kind(column_type(column)) matches Some(kind) && kind.supported() && column_array(column)
        == Some(kind)
}

/// `Array::data_type`: the data type of the column's values, copied.
#[verifier::external_body]
pub(crate) fn data_type_of(column: &Column) -> (data_type: DataType)
    ensures
        data_type == column_type(*column),
{
    column.inner.data_type().clone()
}

/// `arrow::compute::limit`: a slice of the array from its start, `n` values
/// long or as long as the array where that is shorter. Arrow builds the
/// slice anew from the array's data, as the array type that belongs to the
/// data type, and panics where the data does not pass the checks of that
/// array type. The data of a column that is that array passed them when the
/// column was made; any other column is left out. The slice is an array of
/// the same type, with the same data type and, row for row, the same values.
#[verifier::external_body]
pub(crate) fn limit(column: &Column, n: usize) -> (r: Column)
    requires
        native(*column),
    ensures
        column_type(r) == column_type(*column),
        column_array(r) == column_array(*column),
        column_cells(r) == column_cells(*column).take(
            min(column_cells(*column).len() as int, n as int),
        ),
{
    Column { inner: arrow::compute::limit(&column.inner, n) }
}

/// `Any::is` with `Int8Array`: whether the column is an array of that type.
#[verifier::external_body]
fn is_int8(column: &Column) -> (yes: bool)
    ensures
        yes == (column_array(*column) == Some(ArrayKind::Number(Number::Int8))),
{
    column.inner.as_any().is::<Int8Array>()
}

/// `Any::is` with `Int16Array`: whether the column is an array of that type.
#[verifier::external_body]
fn is_int16(column: &Column) -> (yes: bool)
    ensures
        yes == (column_array(*column) == Some(ArrayKind::Number(Number::Int16))),
{
    column.inner.as_any().is::<Int16Array>()
}

/// `Any::is` with `Int32Array`: whether the column is an array of that type.
#[verifier::external_body]
fn is_int32(column: &Column) -> (yes: bool)
    ensures
        yes == (column_array(*column) == Some(ArrayKind::Number(Number::Int32))),
{
    column.inner.as_any().is::<Int32Array>()
}

/// `Any::is` with `Int64Array`: whether the column is an array of that type.
#[verifier::external_body]
fn is_int64(column: &Column) -> (yes: bool)
    ensures
        yes == (column_array(*column) == Some(ArrayKind::Number(Number::Int64))),
{
    column.inner.as_any().is::<Int64Array>()
}

/// `Any::is` with `UInt8Array`: whether the column is an array of that type.
#[verifier::external_body]
fn is_uint8(column: &Column) -> (yes: bool)
    ensures
        yes == (column_array(*column) == Some(ArrayKind::Number(Number::UInt8))),
{
    column.inner.as_any().is::<UInt8Array>()
}

/// `Any::is` with `UInt16Array`: whether the column is an array of that type.
#[verifier::external_body]
fn is_uint16(column: &Column) -> (yes: bool)
    ensures
        yes == (column_array(*column) == Some(ArrayKind::Number(Number::UInt16))),
{
    column.inner.as_any().is::<UInt16Array>()
}

/// `Any::is` with `UInt32Array`: whether the column is an array of that type.
#[verifier::external_body]
fn is_uint32(column: &Column) -> (yes: bool)
    ensures
        yes == (column_array(*column) == Some(ArrayKind::Number(Number::UInt32))),
{
    column.inner.as_any().is::<UInt32Array>()
}

/// `Any::is` with `UInt64Array`: whether the column is an array of that type.
#[verifier::external_body]
fn is_uint64(column: &Column) -> (yes: bool)
    ensures
        yes == (column_array(*column) == Some(ArrayKind::Number(Number::UInt64))),
{
    column.inner.as_any().is::<UInt64Array>()
}

/// `Any::is` with `Float32Array`: whether the column is an array of that type.
#[verifier::external_body]
fn is_float32(column: &Column) -> (yes: bool)
    ensures
        yes == (column_array(*column) == Some(ArrayKind::Number(Number::Float32))),
{
    column.inner.as_any().is::<Float32Array>()
}

/// `Any::is` with `Float64Array`: whether the column is an array of that type.
#[verifier::external_body]
fn is_float64(column: &Column) -> (yes: bool)
    ensures
        yes == (column_array(*column) == Some(ArrayKind::Number(Number::Float64))),
{
    column.inner.as_any().is::<Float64Array>()
}

/// `Any::is` with `Time32SecondArray`: whether the column is an array of that type.
#[verifier::external_body]
fn is_time32second(column: &Column) -> (yes: bool)
    ensures
        yes == (column_array(*column) == Some(ArrayKind::Time(TimeOfDay::Time32Second))),
{
    column.inner.as_any().is::<Time32SecondArray>()
}

/// `Any::is` with `Time32MillisecondArray`: whether the column is an array of that type.
#[verifier::external_body]
fn is_time32millisecond(column: &Column) -> (yes: bool)
    ensures
        yes == (column_array(*column) == Some(ArrayKind::Time(TimeOfDay::Time32Millisecond))),
{
    column.inner.as_any().is::<Time32MillisecondArray>()
}

/// `Any::is` with `Time64MicrosecondArray`: whether the column is an array of that type.
#[verifier::external_body]
fn is_time64microsecond(column: &Column) -> (yes: bool)
    ensures
        yes == (column_array(*column) == Some(ArrayKind::Time(TimeOfDay::Time64Microsecond))),
{
    column.inner.as_any().is::<Time64MicrosecondArray>()
}

/// `Any::is` with `Time64NanosecondArray`: whether the column is an array of that type.
#[verifier::external_body]
fn is_time64nanosecond(column: &Column) -> (yes: bool)
    ensures
        yes == (column_array(*column) == Some(ArrayKind::Time(TimeOfDay::Time64Nanosecond))),
{
    column.inner.as_any().is::<Time64NanosecondArray>()
}

/// `Any::is` with `TimestampSecondArray`: whether the column is an array of that type.
#[verifier::external_body]
fn is_timestampsecond(column: &Column) -> (yes: bool)
    ensures
        yes == (column_array(*column) == Some(ArrayKind::Instant(Instant::TimestampSecond))),
{
    column.inner.as_any().is::<TimestampSecondArray>()
}

/// `Any::is` with `TimestampMillisecondArray`: whether the column is an array of that type.
#[verifier::external_body]
fn is_timestampmillisecond(column: &Column) -> (yes: bool)
    ensures
        yes == (column_array(*column) == Some(ArrayKind::Instant(Instant::TimestampMillisecond))),
{
    column.inner.as_any().is::<TimestampMillisecondArray>()
}

/// `Any::is` with `TimestampMicrosecondArray`: whether the column is an array of that type.
#[verifier::external_body]
fn is_timestampmicrosecond(column: &Column) -> (yes: bool)
    ensures
        yes == (column_array(*column) == Some(ArrayKind::Instant(Instant::TimestampMicrosecond))),
{
    column.inner.as_any().is::<TimestampMicrosecondArray>()
}

/// `Any::is` with `TimestampNanosecondArray`: whether the column is an array of that type.
#[verifier::external_body]
fn is_timestampnanosecond(column: &Column) -> (yes: bool)
    ensures
        yes == (column_array(*column) == Some(ArrayKind::Instant(Instant::TimestampNanosecond))),
{
    column.inner.as_any().is::<TimestampNanosecondArray>()
}

/// `Any::is` with `DurationSecondArray`: whether the column is an array of that type.
#[verifier::external_body]
fn is_durationsecond(column: &Column) -> (yes: bool)
    ensures
        yes == (column_array(*column) == Some(ArrayKind::Instant(Instant::DurationSecond))),
{
    column.inner.as_any().is::<DurationSecondArray>()
}

/// `Any::is` with `DurationMillisecondArray`: whether the column is an array of that type.
#[verifier::external_body]
fn is_durationmillisecond(column: &Column) -> (yes: bool)
    ensures
        yes == (column_array(*column) == Some(ArrayKind::Instant(Instant::DurationMillisecond))),
{
    column.inner.as_any().is::<DurationMillisecondArray>()
}

/// `Any::is` with `DurationMicrosecondArray`: whether the column is an array of that type.
#[verifier::external_body]
fn is_durationmicrosecond(column: &Column) -> (yes: bool)
    ensures
        yes == (column_array(*column) == Some(ArrayKind::Instant(Instant::DurationMicrosecond))),
{
    column.inner.as_any().is::<DurationMicrosecondArray>()
}

/// `Any::is` with `DurationNanosecondArray`: whether the column is an array of that type.
#[verifier::external_body]
fn is_durationnanosecond(column: &Column) -> (yes: bool)
    ensures
        yes == (column_array(*column) == Some(ArrayKind::Instant(Instant::DurationNanosecond))),
{
    column.inner.as_any().is::<DurationNanosecondArray>()
}

/// `Any::is` with `NullArray`: whether the column is an array of that type.
#[verifier::external_body]
fn is_null(column: &Column) -> (yes: bool)
    ensures
        yes == (column_array(*column) == Some(ArrayKind::Plain(Plain::Null))),
{
    column.inner.as_any().is::<NullArray>()
}

/// `Any::is` with `BooleanArray`: whether the column is an array of that type.
#[verifier::external_body]
fn is_boolean(column: &Column) -> (yes: bool)
    ensures
        yes == (column_array(*column) == Some(ArrayKind::Plain(Plain::Boolean))),
{
    column.inner.as_any().is::<BooleanArray>()
}

/// `Any::is` with `Date32Array`: whether the column is an array of that type.
#[verifier::external_body]
fn is_date32(column: &Column) -> (yes: bool)
    ensures
        yes == (column_array(*column) == Some(ArrayKind::Plain(Plain::Date32))),
{
    column.inner.as_any().is::<Date32Array>()
}

/// `Any::is` with `Date64Array`: whether the column is an array of that type.
#[verifier::external_body]
fn is_date64(column: &Column) -> (yes: bool)
    ensures
        yes == (column_array(*column) == Some(ArrayKind::Plain(Plain::Date64))),
{
    column.inner.as_any().is::<Date64Array>()
}

/// `Any::is` with `IntervalYearMonthArray`: whether the column is an array of that type.
#[verifier::external_body]
fn is_intervalyearmonth(column: &Column) -> (yes: bool)
    ensures
        yes == (column_array(*column) == Some(ArrayKind::Plain(Plain::IntervalYearMonth))),
{
    column.inner.as_any().is::<IntervalYearMonthArray>()
}

/// `Any::is` with `IntervalDayTimeArray`: whether the column is an array of that type.
#[verifier::external_body]
fn is_intervaldaytime(column: &Column) -> (yes: bool)
    ensures
        yes == (column_array(*column) == Some(ArrayKind::Plain(Plain::IntervalDayTime))),
{
    column.inner.as_any().is::<IntervalDayTimeArray>()
}

/// `Any::is` with `BinaryArray`: whether the column is an array of that type.
#[verifier::external_body]
fn is_binary(column: &Column) -> (yes: bool)
    ensures
        yes == (column_array(*column) == Some(ArrayKind::Plain(Plain::Binary))),
{
    column.inner.as_any().is::<BinaryArray>()
}

/// `Any::is` with `LargeBinaryArray`: whether the column is an array of that type.
#[verifier::external_body]
fn is_largebinary(column: &Column) -> (yes: bool)
    ensures
        yes == (column_array(*column) == Some(ArrayKind::Plain(Plain::LargeBinary))),
{
    column.inner.as_any().is::<LargeBinaryArray>()
}

/// `Any::is` with `FixedSizeBinaryArray`: whether the column is an array of that type.
#[verifier::external_body]
fn is_fixedsizebinary(column: &Column) -> (yes: bool)
    ensures
        yes == (column_array(*column) == Some(ArrayKind::Plain(Plain::FixedSizeBinary))),
{
    column.inner.as_any().is::<FixedSizeBinaryArray>()
}

/// `Any::is` with `StringArray`: whether the column is an array of that type.
#[verifier::external_body]
fn is_utf8(column: &Column) -> (yes: bool)
    ensures
        yes == (column_array(*column) == Some(ArrayKind::Plain(Plain::Utf8))),
{
    column.inner.as_any().is::<StringArray>()
}

/// `Any::is` with `LargeStringArray`: whether the column is an array of that type.
#[verifier::external_body]
fn is_largeutf8(column: &Column) -> (yes: bool)
    ensures
        yes == (column_array(*column) == Some(ArrayKind::Plain(Plain::LargeUtf8))),
{
    column.inner.as_any().is::<LargeStringArray>()
}

/// `Any::is` with `DecimalArray`: whether the column is an array of that type.
#[verifier::external_body]
fn is_decimal(column: &Column) -> (yes: bool)
    ensures
        yes == (column_array(*column) == Some(ArrayKind::Plain(Plain::Decimal))),
{
    column.inner.as_any().is::<DecimalArray>()
}

/// `Any::is` with `ListArray`: whether the column is an array of that type.
#[verifier::external_body]
fn is_list(column: &Column) -> (yes: bool)
    ensures
        yes == (column_array(*column) == Some(ArrayKind::Nested(Nested::List))),
{
    column.inner.as_any().is::<ListArray>()
}

/// `Any::is` with `LargeListArray`: whether the column is an array of that type.
#[verifier::external_body]
fn is_largelist(column: &Column) -> (yes: bool)
    ensures
        yes == (column_array(*column) == Some(ArrayKind::Nested(Nested::LargeList))),
{
    column.inner.as_any().is::<LargeListArray>()
}

/// `Any::is` with `FixedSizeListArray`: whether the column is an array of that type.
#[verifier::external_body]
fn is_fixedsizelist(column: &Column) -> (yes: bool)
    ensures
        yes == (column_array(*column) == Some(ArrayKind::Nested(Nested::FixedSizeList))),
{
    column.inner.as_any().is::<FixedSizeListArray>()
}

/// `Any::is` with `StructArray`: whether the column is an array of that type.
#[verifier::external_body]
fn is_struct(column: &Column) -> (yes: bool)
    ensures
        yes == (column_array(*column) == Some(ArrayKind::Nested(Nested::Struct))),
{
    column.inner.as_any().is::<StructArray>()
}

/// `Any::is` with `UnionArray`: whether the column is an array of that type.
#[verifier::external_body]
fn is_union(column: &Column) -> (yes: bool)
    ensures
        yes == (column_array(*column) == Some(ArrayKind::Nested(Nested::Union))),
{
    column.inner.as_any().is::<UnionArray>()
}

/// `Any::is` with `MapArray`: whether the column is an array of that type.
#[verifier::external_body]
fn is_map(column: &Column) -> (yes: bool)
    ensures
        yes == (column_array(*column) == Some(ArrayKind::Nested(Nested::KeyValue))),
{
    column.inner.as_any().is::<MapArray>()
}

/// `Any::is` with `Int8DictionaryArray`: whether the column is an array of that type.
#[verifier::external_body]
fn is_int8_dictionary(column: &Column) -> (yes: bool)
    ensures
        yes == (column_array(*column) == Some(ArrayKind::Dictionary(Number::Int8))),
{
    column.inner.as_any().is::<Int8DictionaryArray>()
}

/// `Any::is` with `Int16DictionaryArray`: whether the column is an array of that type.
#[verifier::external_body]
fn is_int16_dictionary(column: &Column) -> (yes: bool)
    ensures
        yes == (column_array(*column) == Some(ArrayKind::Dictionary(Number::Int16))),
{
    column.inner.as_any().is::<Int16DictionaryArray>()
}

/// `Any::is` with `Int32DictionaryArray`: whether the column is an array of that type.
#[verifier::external_body]
fn is_int32_dictionary(column: &Column) -> (yes: bool)
    ensures
        yes == (column_array(*column) == Some(ArrayKind::Dictionary(Number::Int32))),
{
    column.inner.as_any().is::<Int32DictionaryArray>()
}

/// `Any::is` with `Int64DictionaryArray`: whether the column is an array of that type.
#[verifier::external_body]
fn is_int64_dictionary(column: &Column) -> (yes: bool)
    ensures
        yes == (column_array(*column) == Some(ArrayKind::Dictionary(Number::Int64))),
{
    column.inner.as_any().is::<Int64DictionaryArray>()
}

/// `Any::is` with `UInt8DictionaryArray`: whether the column is an array of that type.
#[verifier::external_body]
fn is_uint8_dictionary(column: &Column) -> (yes: bool)
    ensures
        yes == (column_array(*column) == Some(ArrayKind::Dictionary(Number::UInt8))),
{
    column.inner.as_any().is::<UInt8DictionaryArray>()
}

/// `Any::is` with `UInt16DictionaryArray`: whether the column is an array of that type.
#[verifier::external_body]
fn is_uint16_dictionary(column: &Column) -> (yes: bool)
    ensures
        yes == (column_array(*column) == Some(ArrayKind::Dictionary(Number::UInt16))),
{
    column.inner.as_any().is::<UInt16DictionaryArray>()
}

/// `Any::is` with `UInt32DictionaryArray`: whether the column is an array of that type.
#[verifier::external_body]
fn is_uint32_dictionary(column: &Column) -> (yes: bool)
    ensures
        yes == (column_array(*column) == Some(ArrayKind::Dictionary(Number::UInt32))),
{
    column.inner.as_any().is::<UInt32DictionaryArray>()
}

/// `Any::is` with `UInt64DictionaryArray`: whether the column is an array of that type.
#[verifier::external_body]
fn is_uint64_dictionary(column: &Column) -> (yes: bool)
    ensures
        yes == (column_array(*column) == Some(ArrayKind::Dictionary(Number::UInt64))),
{
    column.inner.as_any().is::<UInt64DictionaryArray>()
}

/// Tests whether a column is the array that arrow builds for data types of
/// the given kind.
fn is_array_of(column: &Column, kind: ArrayKind) -> (yes: bool)
    ensures
        yes == (kind.supported() && column_array(*column) == Some(kind)),
{
    match kind {
        ArrayKind::Number(number) => match number {
            Number::Int8 => is_int8(column),
            Number::Int16 => is_int16(column),
            Number::Int32 => is_int32(column),
            Number::Int64 => is_int64(column),
            Number::UInt8 => is_uint8(column),
            Number::UInt16 => is_uint16(column),
            Number::UInt32 => is_uint32(column),
            Number::UInt64 => is_uint64(column),
            Number::Float16 => false,
            Number::Float32 => is_float32(column),
            Number::Float64 => is_float64(column),
        },
        ArrayKind::Time(time) => match time {
            TimeOfDay::Time32Second => is_time32second(column),
            TimeOfDay::Time32Millisecond => is_time32millisecond(column),
            TimeOfDay::Time32Microsecond => false,
            TimeOfDay::Time32Nanosecond => false,
            TimeOfDay::Time64Second => false,
            TimeOfDay::Time64Millisecond => false,
            TimeOfDay::Time64Microsecond => is_time64microsecond(column),
            TimeOfDay::Time64Nanosecond => is_time64nanosecond(column),
        },
        ArrayKind::Instant(instant) => match instant {
            Instant::TimestampSecond => is_timestampsecond(column),
            Instant::TimestampMillisecond => is_timestampmillisecond(column),
            Instant::TimestampMicrosecond => is_timestampmicrosecond(column),
            Instant::TimestampNanosecond => is_timestampnanosecond(column),
            Instant::DurationSecond => is_durationsecond(column),
            Instant::DurationMillisecond => is_durationmillisecond(column),
            Instant::DurationMicrosecond => is_durationmicrosecond(column),
            Instant::DurationNanosecond => is_durationnanosecond(column),
        },
        ArrayKind::Plain(plain) => match plain {
            Plain::Null => is_null(column),
            Plain::Boolean => is_boolean(column),
            Plain::Date32 => is_date32(column),
            Plain::Date64 => is_date64(column),
            Plain::IntervalYearMonth => is_intervalyearmonth(column),
            Plain::IntervalDayTime => is_intervaldaytime(column),
            Plain::Binary => is_binary(column),
            Plain::LargeBinary => is_largebinary(column),
            Plain::FixedSizeBinary => is_fixedsizebinary(column),
            Plain::Utf8 => is_utf8(column),
            Plain::LargeUtf8 => is_largeutf8(column),
            Plain::Decimal => is_decimal(column),
        },
        ArrayKind::Nested(nested) => match nested {
            Nested::List => is_list(column),
            Nested::LargeList => is_largelist(column),
            Nested::FixedSizeList => is_fixedsizelist(column),
            Nested::Struct => is_struct(column),
            Nested::Union => is_union(column),
            Nested::KeyValue => is_map(column),
        },
        ArrayKind::Dictionary(keys) => match keys {
            Number::Int8 => is_int8_dictionary(column),
            Number::Int16 => is_int16_dictionary(column),
            Number::Int32 => is_int32_dictionary(column),
            Number::Int64 => is_int64_dictionary(column),
            Number::UInt8 => is_uint8_dictionary(column),
            Number::UInt16 => is_uint16_dictionary(column),
            Number::UInt32 => is_uint32_dictionary(column),
            Number::UInt64 => is_uint64_dictionary(column),
            Number::Float16 => false,
            Number::Float32 => false,
            Number::Float64 => false,
        },
    }
}

/// Tests whether a column is the array that arrow builds for its data type.
pub fn is_native(column: &Column) -> (yes: bool)
    ensures
        yes == native(*column),
{
    let data_type = data_type_of(column);
    match kind_of(&data_type) {
        Some(kind) => is_array_of(column, kind),
        None => false,
    }
}

} // verus!
