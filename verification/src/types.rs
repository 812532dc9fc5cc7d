//! The kinds of array that arrow has, and the kind that a data type asks for.
//!
//! Arrow builds an array from its data by the data type: to each kind of
//! data type belongs one type of array, and for a few kinds there is none. A
//! data type is arrow's and opaque here. What kind it is of is read off its
//! variants, a handful at a time, and named.

use vstd::prelude::*;
use arrow::datatypes::DataType;
use arrow::datatypes::IntervalUnit;
use arrow::datatypes::TimeUnit;

verus! {

/// The numeric data types.
#[derive(Clone, Copy, Debug, PartialEq, Eq, Structural)]
pub enum Number {
    Int8,
    Int16,
    Int32,
    Int64,
    UInt8,
    UInt16,
    UInt32,
    UInt64,
    Float16,
    Float32,
    Float64,
}

impl Number {
    /// Whether the type is one of the eight integers.
    pub open spec fn integral(self) -> bool {
        !(self is Float16 || self is Float32 || self is Float64)
    }

    /// Whether the type is one of the eight integers.
    pub fn is_integer(&self) -> (yes: bool)
        ensures
            yes == self.integral(),
    {
        match self {
            Number::Float16 => false,
            Number::Float32 => false,
            Number::Float64 => false,
            _ => true,
        }
    }
}

/// The times of day: 32 or 64 bits wide, counted in one of four units.
#[derive(Clone, Copy, Debug, PartialEq, Eq, Structural)]
pub enum TimeOfDay {
    Time32Second,
    Time32Millisecond,
    Time32Microsecond,
    Time32Nanosecond,
    Time64Second,
    Time64Millisecond,
    Time64Microsecond,
    Time64Nanosecond,
}

impl TimeOfDay {
    /// Whether arrow has an array for the time: 32 bits hold seconds or
    /// milliseconds, 64 bits hold microseconds or nanoseconds.
    pub open spec fn supported(self) -> bool {
        self is Time32Second || self is Time32Millisecond || self is Time64Microsecond
            || self is Time64Nanosecond
    }

    /// Whether arrow has an array for the time.
    pub fn is_supported(&self) -> (yes: bool)
        ensures
            yes == self.supported(),
    {
        match self {
            TimeOfDay::Time32Second => true,
            TimeOfDay::Time32Millisecond => true,
            TimeOfDay::Time64Microsecond => true,
            TimeOfDay::Time64Nanosecond => true,
            _ => false,
        }
    }
}

/// The timestamps and the durations, each counted in one of four units.
#[derive(Clone, Copy, Debug, PartialEq, Eq, Structural)]
pub enum Instant {
    TimestampSecond,
    TimestampMillisecond,
    TimestampMicrosecond,
    TimestampNanosecond,
    DurationSecond,
    DurationMillisecond,
    DurationMicrosecond,
    DurationNanosecond,
}

/// The data types that stand alone: neither numbers nor times, nor made of
/// other types.
#[derive(Clone, Copy, Debug, PartialEq, Eq, Structural)]
pub enum Plain {
    Null,
    Boolean,
    Date32,
    Date64,
    IntervalYearMonth,
    IntervalDayTime,
    Binary,
    LargeBinary,
    FixedSizeBinary,
    Utf8,
    LargeUtf8,
    Decimal,
}

/// The data types made of other types, but for the dictionary.
#[derive(Clone, Copy, Debug, PartialEq, Eq, Structural)]
pub enum Nested {
    List,
    LargeList,
    FixedSizeList,
    Struct,
    Union,
    /// A map from keys to values.
    KeyValue,
}

/// A kind of data type, and with it the type of array that arrow builds for
/// data of that type.
#[derive(Clone, Copy, Debug, PartialEq, Eq, Structural)]
pub enum ArrayKind {
    /// A number.
    Number(Number),
    /// A time of day.
    Time(TimeOfDay),
    /// A timestamp or a duration.
    Instant(Instant),
    /// A type that stands alone.
    Plain(Plain),
    /// A type made of other types.
    Nested(Nested),
    /// A dictionary with keys of the given type.
    Dictionary(Number),
}

impl ArrayKind {
    /// Whether arrow has an array for the kind. It has none for
    /// half-precision floats, for a 32-bit time in microseconds or
    /// nanoseconds, for a 64-bit time in seconds or milliseconds, and for a
    /// dictionary whose keys are not integers.
    pub open spec fn supported(self) -> bool {
        match self {
            ArrayKind::Number(number) => !(number is Float16),
            ArrayKind::Time(time) => time.supported(),
            ArrayKind::Dictionary(keys) => keys.integral(),
            _ => true,
        }
    }

    /// Whether arrow has an array for the kind.
    pub fn is_supported(&self) -> (yes: bool)
        ensures
            yes == self.supported(),
    {
        match self {
            ArrayKind::Number(Number::Float16) => false,
            ArrayKind::Number(_) => true,
            ArrayKind::Time(time) => time.is_supported(),
            ArrayKind::Dictionary(keys) => keys.is_integer(),
            _ => true,
        }
    }
}

/// Which numeric type a data type is, if it is one.
pub uninterp spec fn type_number(data_type: DataType) -> Option<Number>;

/// Which time of day a data type is, if it is one.
pub uninterp spec fn type_time(data_type: DataType) -> Option<TimeOfDay>;

/// Which timestamp or duration a data type is, if it is one. The time zone
/// of a timestamp plays no part.
pub uninterp spec fn type_instant(data_type: DataType) -> Option<Instant>;

/// Which of the types that stand alone a data type is, if it is one. The
/// width of a binary of fixed size and the precision and scale of a decimal
/// play no part.
pub uninterp spec fn type_plain(data_type: DataType) -> Option<Plain>;

/// Which of the types made of others a data type is, if it is one. What it
/// is made of plays no part.
pub uninterp spec fn type_nested(data_type: DataType) -> Option<Nested>;

/// The data type of the keys of a dictionary; none for any other type.
pub uninterp spec fn type_dictionary_key(data_type: DataType) -> Option<DataType>;

/// Tells the numeric variants of `DataType` apart.
#[verifier::external_body]
fn number_of(data_type: &DataType) -> (kind: Option<Number>)
    ensures
        kind == type_number(*data_type),
{
    match data_type {
        DataType::Int8 => Some(Number::Int8),
        DataType::Int16 => Some(Number::Int16),
        DataType::Int32 => Some(Number::Int32),
        DataType::Int64 => Some(Number::Int64),
        DataType::UInt8 => Some(Number::UInt8),
        DataType::UInt16 => Some(Number::UInt16),
        DataType::UInt32 => Some(Number::UInt32),
        DataType::UInt64 => Some(Number::UInt64),
        DataType::Float16 => Some(Number::Float16),
        DataType::Float32 => Some(Number::Float32),
        DataType::Float64 => Some(Number::Float64),
        _ => None,
    }
}

/// Tells the variants `Time32` and `Time64` of `DataType` apart, each with
/// its `TimeUnit`.
#[verifier::external_body]
fn time_of(data_type: &DataType) -> (kind: Option<TimeOfDay>)
    ensures
        kind == type_time(*data_type),
{
    match data_type {
        DataType::Time32(TimeUnit::Second) => Some(TimeOfDay::Time32Second),
        DataType::Time32(TimeUnit::Millisecond) => Some(TimeOfDay::Time32Millisecond),
        DataType::Time32(TimeUnit::Microsecond) => Some(TimeOfDay::Time32Microsecond),
        DataType::Time32(TimeUnit::Nanosecond) => Some(TimeOfDay::Time32Nanosecond),
        DataType::Time64(TimeUnit::Second) => Some(TimeOfDay::Time64Second),
        DataType::Time64(TimeUnit::Millisecond) => Some(TimeOfDay::Time64Millisecond),
        DataType::Time64(TimeUnit::Microsecond) => Some(TimeOfDay::Time64Microsecond),
        DataType::Time64(TimeUnit::Nanosecond) => Some(TimeOfDay::Time64Nanosecond),
        _ => None,
    }
}

/// Tells the variants `Timestamp` and `Duration` of `DataType` apart, each
/// with its `TimeUnit`.
#[verifier::external_body]
fn instant_of(data_type: &DataType) -> (kind: Option<Instant>)
    ensures
        kind == type_instant(*data_type),
{
    match data_type {
        DataType::Timestamp(TimeUnit::Second, _) => Some(Instant::TimestampSecond),
        DataType::Timestamp(TimeUnit::Millisecond, _) => Some(Instant::TimestampMillisecond),
        DataType::Timestamp(TimeUnit::Microsecond, _) => Some(Instant::TimestampMicrosecond),
        DataType::Timestamp(TimeUnit::Nanosecond, _) => Some(Instant::TimestampNanosecond),
        DataType::Duration(TimeUnit::Second) => Some(Instant::DurationSecond),
        DataType::Duration(TimeUnit::Millisecond) => Some(Instant::DurationMillisecond),
        DataType::Duration(TimeUnit::Microsecond) => Some(Instant::DurationMicrosecond),
        DataType::Duration(TimeUnit::Nanosecond) => Some(Instant::DurationNanosecond),
        _ => None,
    }
}

/// Tells the variants of `DataType` apart that stand alone, `Interval` with
/// its `IntervalUnit`.
#[verifier::external_body]
fn plain_of(data_type: &DataType) -> (kind: Option<Plain>)
    ensures
        kind == type_plain(*data_type),
{
    match data_type {
        DataType::Null => Some(Plain::Null),
        DataType::Boolean => Some(Plain::Boolean),
        DataType::Date32 => Some(Plain::Date32),
        DataType::Date64 => Some(Plain::Date64),
        DataType::Interval(IntervalUnit::YearMonth) => Some(Plain::IntervalYearMonth),
        DataType::Interval(IntervalUnit::DayTime) => Some(Plain::IntervalDayTime),
        DataType::Binary => Some(Plain::Binary),
        DataType::LargeBinary => Some(Plain::LargeBinary),
        DataType::FixedSizeBinary(_) => Some(Plain::FixedSizeBinary),
        DataType::Utf8 => Some(Plain::Utf8),
        DataType::LargeUtf8 => Some(Plain::LargeUtf8),
        DataType::Decimal(_, _) => Some(Plain::Decimal),
        _ => None,
    }
}

/// Tells the variants of `DataType` apart that are made of other types.
#[verifier::external_body]
fn nested_of(data_type: &DataType) -> (kind: Option<Nested>)
    ensures
        kind == type_nested(*data_type),
{
    match data_type {
        DataType::List(_) => Some(Nested::List),
        DataType::LargeList(_) => Some(Nested::LargeList),
        DataType::FixedSizeList(_, _) => Some(Nested::FixedSizeList),
        DataType::Struct(_) => Some(Nested::Struct),
        DataType::Union(_) => Some(Nested::Union),
        DataType::Map(_, _) => Some(Nested::KeyValue),
        _ => None,
    }
}

/// Hands out the key type of the variant `Dictionary` of `DataType`.
#[verifier::external_body]
fn dictionary_key_of(data_type: &DataType) -> (key: Option<DataType>)
    ensures
        key == type_dictionary_key(*data_type),
{
    match data_type {
        DataType::Dictionary(key, _) => Some(key.as_ref().clone()),
        _ => None,
    }
}

/// The kind of a data type; none for a dictionary whose keys are no numbers.
pub open spec fn type_kind(data_type: DataType) -> Option<ArrayKind> {
    match type_number(data_type) {
        Some(number) => Some(ArrayKind::Number(number)),
        None => match type_time(data_type) {
            Some(time) => Some(ArrayKind::Time(time)),
            None => match type_instant(data_type) {
                Some(instant) => Some(ArrayKind::Instant(instant)),
                None => match type_plain(data_type) {
                    Some(plain) => Some(ArrayKind::Plain(plain)),
                    None => match type_nested(data_type) {
                        Some(nested) => Some(ArrayKind::Nested(nested)),
                        None => match type_dictionary_key(data_type) {
                            Some(key) => match type_number(key) {
                                Some(keys) => Some(ArrayKind::Dictionary(keys)),
                                None => None,
                            },
                            None => None,
                        },
                    },
                },
            },
        },
    }
}

/// Reads the kind of a data type.
pub fn kind_of(data_type: &DataType) -> (kind: Option<ArrayKind>)
    ensures
        kind == type_kind(*data_type),
{
    if let Some(number) = number_of(data_type) {
        return Some(ArrayKind::Number(number));
    }
    if let Some(time) = time_of(data_type) {
        return Some(ArrayKind::Time(time));
    }
    if let Some(instant) = instant_of(data_type) {
        return Some(ArrayKind::Instant(instant));
    }
    if let Some(plain) = plain_of(data_type) {
        return Some(ArrayKind::Plain(plain));
    }
    if let Some(nested) = nested_of(data_type) {
        return Some(ArrayKind::Nested(nested));
    }
    match dictionary_key_of(data_type) {
        Some(key) => match number_of(&key) {
            Some(keys) => Some(ArrayKind::Dictionary(keys)),
            None => None,
        },
        None => None,
    }
}

} // verus!
