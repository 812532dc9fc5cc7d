use std::sync::Arc;

use arrow::array::{
    new_null_array, Array, ArrayData, ArrayRef, DecimalBuilder, DictionaryArray, Float64Array,
    Int32Array, ListArray, PrimitiveArray, StringArray, StructArray, Time32SecondArray,
    TimestampNanosecondArray, UnionBuilder,
};
use arrow::buffer::Buffer;
use arrow::datatypes::{
    DataType, Field, Int32Type, Int8Type, IntervalUnit, Schema, SchemaRef, TimeUnit,
};
use arrow::record_batch::RecordBatch;
use row_limit::batch::{is_well_formed, truncate_batch};
use row_limit::stream::LimitStream;
use row_limit::types::{kind_of, ArrayKind, Instant, Nested, Number, Plain, TimeOfDay};

fn field(data_type: DataType) -> Field {
    Field::new("item", data_type, true)
}

fn list_of(data_type: DataType) -> DataType {
    DataType::List(Box::new(field(data_type)))
}

fn dictionary(key: DataType, value: DataType) -> DataType {
    DataType::Dictionary(Box::new(key), Box::new(value))
}

fn map_of(key: DataType, value: DataType) -> DataType {
    let entries = DataType::Struct(vec![
        Field::new("keys", key, false),
        Field::new("values", value, true),
    ]);
    DataType::Map(Box::new(Field::new("entries", entries, false)), false)
}

fn schema_of(columns: &[ArrayRef]) -> SchemaRef {
    let fields = columns
        .iter()
        .enumerate()
        .map(|(i, c)| Field::new(&format!("c{}", i), c.data_type().clone(), true))
        .collect();
    Arc::new(Schema::new(fields))
}

fn batch_of(columns: Vec<ArrayRef>) -> RecordBatch {
    RecordBatch::try_new(schema_of(&columns), columns).unwrap()
}

/// Data of the given type over three 32-bit values, behind an array of
/// 32-bit integers, whatever the type.
fn behind_int32(data_type: DataType) -> ArrayRef {
    let data = ArrayData::try_new(
        data_type,
        3,
        None,
        None,
        0,
        vec![Buffer::from_slice_ref(&[1i32, 2, 3])],
        vec![],
    )
    .unwrap();
    Arc::new(PrimitiveArray::<Int32Type>::from(data))
}

/// Data of the null type with a validity bitmap, behind a struct array.
fn null_data_behind_struct() -> ArrayRef {
    let bitmap = Buffer::from_slice_ref(&[0b0000_0111u8]);
    let data = ArrayData::try_new(DataType::Null, 3, None, Some(bitmap), 0, vec![], vec![])
        .unwrap();
    Arc::new(StructArray::from(data))
}

#[test]
fn kinds_of_numbers() {
    assert_eq!(kind_of(&DataType::Int8), Some(ArrayKind::Number(Number::Int8)));
    assert_eq!(kind_of(&DataType::Int16), Some(ArrayKind::Number(Number::Int16)));
    assert_eq!(kind_of(&DataType::Int32), Some(ArrayKind::Number(Number::Int32)));
    assert_eq!(kind_of(&DataType::Int64), Some(ArrayKind::Number(Number::Int64)));
    assert_eq!(kind_of(&DataType::UInt8), Some(ArrayKind::Number(Number::UInt8)));
    assert_eq!(kind_of(&DataType::UInt16), Some(ArrayKind::Number(Number::UInt16)));
    assert_eq!(kind_of(&DataType::UInt32), Some(ArrayKind::Number(Number::UInt32)));
    assert_eq!(kind_of(&DataType::UInt64), Some(ArrayKind::Number(Number::UInt64)));
    assert_eq!(kind_of(&DataType::Float16), Some(ArrayKind::Number(Number::Float16)));
    assert_eq!(kind_of(&DataType::Float32), Some(ArrayKind::Number(Number::Float32)));
    assert_eq!(kind_of(&DataType::Float64), Some(ArrayKind::Number(Number::Float64)));
}

#[test]
fn kinds_of_times() {
    let units = [
        TimeUnit::Second,
        TimeUnit::Millisecond,
        TimeUnit::Microsecond,
        TimeUnit::Nanosecond,
    ];
    let time32 = [
        TimeOfDay::Time32Second,
        TimeOfDay::Time32Millisecond,
        TimeOfDay::Time32Microsecond,
        TimeOfDay::Time32Nanosecond,
    ];
    let time64 = [
        TimeOfDay::Time64Second,
        TimeOfDay::Time64Millisecond,
        TimeOfDay::Time64Microsecond,
        TimeOfDay::Time64Nanosecond,
    ];
    let timestamps = [
        Instant::TimestampSecond,
        Instant::TimestampMillisecond,
        Instant::TimestampMicrosecond,
        Instant::TimestampNanosecond,
    ];
    let durations = [
        Instant::DurationSecond,
        Instant::DurationMillisecond,
        Instant::DurationMicrosecond,
        Instant::DurationNanosecond,
    ];
    for i in 0..4 {
        let unit = units[i].clone();
        assert_eq!(kind_of(&DataType::Time32(unit.clone())), Some(ArrayKind::Time(time32[i])));
        assert_eq!(kind_of(&DataType::Time64(unit.clone())), Some(ArrayKind::Time(time64[i])));
        assert_eq!(
            kind_of(&DataType::Timestamp(unit.clone(), None)),
            Some(ArrayKind::Instant(timestamps[i]))
        );
        assert_eq!(
            kind_of(&DataType::Timestamp(unit.clone(), Some("+07:30".to_string()))),
            Some(ArrayKind::Instant(timestamps[i]))
        );
        assert_eq!(kind_of(&DataType::Duration(unit)), Some(ArrayKind::Instant(durations[i])));
    }
}

#[test]
fn kinds_of_types_that_stand_alone() {
    for (data_type, plain) in [
        (DataType::Null, Plain::Null),
        (DataType::Boolean, Plain::Boolean),
        (DataType::Date32, Plain::Date32),
        (DataType::Date64, Plain::Date64),
        (DataType::Interval(IntervalUnit::YearMonth), Plain::IntervalYearMonth),
        (DataType::Interval(IntervalUnit::DayTime), Plain::IntervalDayTime),
        (DataType::Binary, Plain::Binary),
        (DataType::LargeBinary, Plain::LargeBinary),
        (DataType::FixedSizeBinary(16), Plain::FixedSizeBinary),
        (DataType::Utf8, Plain::Utf8),
        (DataType::LargeUtf8, Plain::LargeUtf8),
        (DataType::Decimal(10, 2), Plain::Decimal),
    ] {
        assert_eq!(kind_of(&data_type), Some(ArrayKind::Plain(plain)), "{:?}", data_type);
    }
}

#[test]
fn kinds_of_types_made_of_others() {
    let item = Box::new(field(DataType::Float16));
    for (data_type, nested) in [
        (DataType::List(item.clone()), Nested::List),
        (DataType::LargeList(item.clone()), Nested::LargeList),
        (DataType::FixedSizeList(item.clone(), 3), Nested::FixedSizeList),
        (DataType::Struct(vec![]), Nested::Struct),
        (DataType::Union(vec![field(DataType::Int8)]), Nested::Union),
        (DataType::Map(item.clone(), true), Nested::KeyValue),
    ] {
        assert_eq!(kind_of(&data_type), Some(ArrayKind::Nested(nested)), "{:?}", data_type);
    }
}

#[test]
fn kinds_of_dictionaries_go_by_their_keys() {
    assert_eq!(
        kind_of(&dictionary(DataType::Int8, DataType::Utf8)),
        Some(ArrayKind::Dictionary(Number::Int8))
    );
    assert_eq!(
        kind_of(&dictionary(DataType::UInt64, list_of(DataType::Int32))),
        Some(ArrayKind::Dictionary(Number::UInt64))
    );
    assert_eq!(
        kind_of(&dictionary(DataType::Float32, DataType::Utf8)),
        Some(ArrayKind::Dictionary(Number::Float32))
    );
    assert_eq!(kind_of(&dictionary(DataType::Utf8, DataType::Utf8)), None);
    assert_eq!(kind_of(&dictionary(DataType::Boolean, DataType::Int32)), None);
}

#[test]
fn arrow_has_no_array_for_some_kinds() {
    for number in [
        Number::Int8,
        Number::Int16,
        Number::Int32,
        Number::Int64,
        Number::UInt8,
        Number::UInt16,
        Number::UInt32,
        Number::UInt64,
    ] {
        assert!(number.is_integer());
        assert!(ArrayKind::Number(number).is_supported());
        assert!(ArrayKind::Dictionary(number).is_supported());
    }
    for number in [Number::Float16, Number::Float32, Number::Float64] {
        assert!(!number.is_integer());
        assert!(!ArrayKind::Dictionary(number).is_supported());
    }
    assert!(!ArrayKind::Number(Number::Float16).is_supported());
    assert!(ArrayKind::Number(Number::Float32).is_supported());
    assert!(ArrayKind::Number(Number::Float64).is_supported());

    for time in [
        TimeOfDay::Time32Second,
        TimeOfDay::Time32Millisecond,
        TimeOfDay::Time64Microsecond,
        TimeOfDay::Time64Nanosecond,
    ] {
        assert!(time.is_supported());
        assert!(ArrayKind::Time(time).is_supported());
    }
    for time in [
        TimeOfDay::Time32Microsecond,
        TimeOfDay::Time32Nanosecond,
        TimeOfDay::Time64Second,
        TimeOfDay::Time64Millisecond,
    ] {
        assert!(!time.is_supported());
        assert!(!ArrayKind::Time(time).is_supported());
    }
    assert!(ArrayKind::Instant(Instant::DurationSecond).is_supported());
    assert!(ArrayKind::Plain(Plain::Null).is_supported());
    assert!(ArrayKind::Nested(Nested::KeyValue).is_supported());
}

#[test]
fn arrays_that_arrow_builds_are_well_formed_and_cut() {
    let mut types = vec![
        DataType::Null,
        DataType::Boolean,
        DataType::Int8,
        DataType::Int16,
        DataType::Int32,
        DataType::Int64,
        DataType::UInt8,
        DataType::UInt16,
        DataType::UInt32,
        DataType::UInt64,
        DataType::Float32,
        DataType::Float64,
        DataType::Date32,
        DataType::Date64,
        DataType::Time32(TimeUnit::Second),
        DataType::Time32(TimeUnit::Millisecond),
        DataType::Time64(TimeUnit::Microsecond),
        DataType::Time64(TimeUnit::Nanosecond),
        DataType::Interval(IntervalUnit::YearMonth),
        DataType::Interval(IntervalUnit::DayTime),
        DataType::Binary,
        DataType::LargeBinary,
        DataType::FixedSizeBinary(3),
        DataType::Utf8,
        DataType::LargeUtf8,
        list_of(DataType::Int32),
        DataType::LargeList(Box::new(field(DataType::Utf8))),
        DataType::FixedSizeList(Box::new(field(DataType::Int16)), 2),
        DataType::Struct(vec![field(DataType::Int32), field(list_of(DataType::Utf8))]),
        map_of(DataType::Utf8, DataType::Int32),
    ];
    for unit in [
        TimeUnit::Second,
        TimeUnit::Millisecond,
        TimeUnit::Microsecond,
        TimeUnit::Nanosecond,
    ] {
        types.push(DataType::Timestamp(unit.clone(), None));
        types.push(DataType::Duration(unit));
    }
    for key in [
        DataType::Int8,
        DataType::Int16,
        DataType::Int32,
        DataType::Int64,
        DataType::UInt8,
        DataType::UInt16,
        DataType::UInt32,
        DataType::UInt64,
    ] {
        types.push(dictionary(key, DataType::Utf8));
    }
    for data_type in types {
        let batch = batch_of(vec![new_null_array(&data_type, 4)]);
        assert!(is_well_formed(&batch), "{:?}", data_type);
        let cut = truncate_batch(&batch, 2);
        assert_eq!(cut.num_rows(), 2, "{:?}", data_type);
        assert_eq!(cut.schema(), batch.schema());
        assert_eq!(cut.column(0).data_type(), &data_type);
        assert_eq!(cut.column(0).null_count(), 2, "{:?}", data_type);
        assert!(is_well_formed(&cut), "{:?}", data_type);
    }
}

#[test]
fn decimals_and_unions_are_well_formed_and_cut() {
    let mut decimals = DecimalBuilder::new(4, 10, 2);
    for value in [100i128, 250, 399, 425] {
        decimals.append_value(value).unwrap();
    }
    let decimals: ArrayRef = Arc::new(decimals.finish());

    let mut unions = UnionBuilder::new_dense(4);
    unions.append::<Int32Type>("a", 1).unwrap();
    unions.append::<Int32Type>("a", 2).unwrap();
    unions.append::<Int32Type>("a", 3).unwrap();
    unions.append::<Int32Type>("a", 4).unwrap();
    let unions: ArrayRef = Arc::new(unions.build().unwrap());

    for column in [decimals, unions] {
        let data_type = column.data_type().clone();
        let batch = batch_of(vec![column]);
        assert!(is_well_formed(&batch), "{:?}", data_type);
        let cut = truncate_batch(&batch, 3);
        assert_eq!(cut.num_rows(), 3, "{:?}", data_type);
        assert_eq!(cut.column(0).data_type(), &data_type);
        assert!(is_well_formed(&cut), "{:?}", data_type);
    }
}

#[test]
fn columns_of_several_kinds_are_cut_together() {
    let numbers: ArrayRef = Arc::new(Int32Array::from(vec![1, 2, 3, 4]));
    let words: ArrayRef = Arc::new(StringArray::from(vec!["a", "b", "c", "d"]));
    let floats: ArrayRef = Arc::new(Float64Array::from(vec![0.5, 1.5, 2.5, 3.5]));
    let keyed: DictionaryArray<Int8Type> = vec!["x", "y", "x", "z"].into_iter().collect();
    let lists = ListArray::from_iter_primitive::<Int32Type, _, _>(vec![
        Some(vec![Some(1), None]),
        None,
        Some(vec![]),
        Some(vec![Some(4)]),
    ]);
    let structs = StructArray::from(vec![
        (Field::new("n", DataType::Int32, false), numbers.clone()),
        (Field::new("w", DataType::Utf8, false), words.clone()),
    ]);
    let times: ArrayRef = Arc::new(Time32SecondArray::from(vec![1, 2, 3, 4]));
    let stamps: ArrayRef = Arc::new(TimestampNanosecondArray::from(vec![1i64, 2, 3, 4]));
    let batch = batch_of(vec![
        numbers,
        words,
        floats,
        Arc::new(keyed),
        Arc::new(lists),
        Arc::new(structs),
        times,
        stamps,
    ]);
    assert!(is_well_formed(&batch));

    for n in 0..=4usize {
        let cut = truncate_batch(&batch, n);
        assert_eq!(cut, batch.slice(0, n));
        assert!(is_well_formed(&cut));
    }
    assert_eq!(truncate_batch(&batch, 9), batch);
}

#[test]
fn column_of_a_type_without_array_is_not_well_formed() {
    // a 32-bit time in microseconds behind an array of 32-bit integers
    let column = behind_int32(DataType::Time32(TimeUnit::Microsecond));
    let batch = batch_of(vec![column.clone()]);
    assert_eq!(batch.num_rows(), 3);
    assert!(!is_well_formed(&batch));

    // beside a column that is in order, too
    let plain: ArrayRef = Arc::new(Int32Array::from(vec![1, 2, 3]));
    assert!(!is_well_formed(&batch_of(vec![plain.clone(), column.clone()])));
    assert!(!is_well_formed(&batch_of(vec![column, plain])));
}

#[test]
fn column_behind_another_array_type_is_not_well_formed() {
    // data that arrow accepts, behind an array type that is not the data type's own
    let confused = null_data_behind_struct();
    assert_eq!(confused.data_type(), &DataType::Null);
    assert!(!is_well_formed(&batch_of(vec![confused])));

    // dates behind an array of integers
    assert!(!is_well_formed(&batch_of(vec![behind_int32(DataType::Date32)])));
    // integers behind an array of integers are in order
    assert!(is_well_formed(&batch_of(vec![behind_int32(DataType::Int32)])));
}

#[test]
fn batch_that_fits_is_forwarded_though_it_could_not_be_cut() {
    let batch = batch_of(vec![null_data_behind_struct()]);
    assert!(!is_well_formed(&batch));
    let mut stream = LimitStream::new(batch.schema(), 3);
    assert_eq!(stream.stream_limit(batch.clone()), Some(batch.clone()));
    assert_eq!(stream.current_len(), 3);
    assert!(stream.has_input());
    // at the limit it is dropped unread
    assert_eq!(stream.stream_limit(batch), None);
    assert!(!stream.has_input());
}

#[test]
fn stream_tells_which_batches_it_can_read() {
    let confused = batch_of(vec![null_data_behind_struct()]);
    let sound = batch_of(vec![Arc::new(Int32Array::from(vec![1, 2, 3])) as ArrayRef]);
    let empty = RecordBatch::new_empty(Arc::new(Schema::new(vec![])));

    // below the limit: a batch needs a column, and to be cut it must be well formed
    let stream = LimitStream::new(sound.schema(), 3);
    assert!(stream.can_read(&sound));
    assert!(stream.can_read(&confused));
    assert!(!stream.can_read(&empty));
    let stream = LimitStream::new(sound.schema(), 2);
    assert!(stream.can_read(&sound));
    assert!(!stream.can_read(&confused));
    assert!(!stream.can_read(&empty));

    // at the limit: anything, for it is dropped unread
    let stream = LimitStream::new(sound.schema(), 0);
    assert!(stream.can_read(&sound));
    assert!(stream.can_read(&confused));
    assert!(stream.can_read(&empty));
}
