use bigbytesdb::aggregate::{
    aggregate_inputs, finished_buckets, initial_radix_bits, partition_count, states_index, AggregateInputs,
    AggregateProgress, AggregateSettings, HashTable,
};
use bigbytesdb::null_if::{column_need_transform, new_schema, null_if_column, null_if_plan, DataField};
use bigbytesdb::schema::DataType;
use bigbytesdb::transforms::{stream_columns_step, BlockMeta, StreamColumnsStep, TransformExpressionScan};
use bigbytesdb::tsv::{write_tsv_escaped_string, TSVOutputFormatBase};
use bigbytesdb::ErrorCode;

fn nullable_string() -> DataType {
    DataType::Nullable(Box::new(DataType::String))
}

#[test]
fn tsv_escapes_separators_and_backslash() {
    let mut buf = b"x".to_vec();
    write_tsv_escaped_string(b"a\tb\nc\rd\\e,f", &mut buf, b',');
    assert_eq!(buf, b"xa\\tb\\nc\\rd\\\\e\\,f".to_vec());
    let mut plain = vec![];
    write_tsv_escaped_string(b"plain", &mut plain, b'\t');
    assert_eq!(plain, b"plain".to_vec());
}

#[test]
fn tsv_header_rows() {
    let f: TSVOutputFormatBase<true, true> = TSVOutputFormatBase::create(
        vec!["a".to_string(), "b\tc".to_string()],
        vec!["Int32".to_string(), "String".to_string()],
        "\t",
        "\n",
    );
    assert_eq!(f.serialize_prefix(), b"a\tb\\tc\nInt32\tString\n".to_vec());
    let names_only: TSVOutputFormatBase<true, false> =
        TSVOutputFormatBase::create(vec!["a".to_string()], vec!["Int32".to_string()], "|x", "\r\n");
    assert_eq!(names_only.field_delimiter, b'|');
    assert_eq!(names_only.serialize_prefix(), b"a\r\n".to_vec());
    let mut plain: TSVOutputFormatBase<false, false> =
        TSVOutputFormatBase::create(vec!["a".to_string()], vec![], "\t", "\n");
    assert!(plain.serialize_prefix().is_empty());
    assert!(plain.finalize().is_empty());
}

#[test]
fn tsv_block_frames_encoded_fields() {
    let f: TSVOutputFormatBase<false, false> = TSVOutputFormatBase::create(vec![], vec![], ",", ";\n");
    let rows = vec![
        vec![b"1".to_vec(), b"x".to_vec()],
        vec![b"2".to_vec(), b"".to_vec()],
    ];
    assert_eq!(f.serialize_block(&rows), b"1,x;\n2,;\n".to_vec());
    assert!(f.serialize_block(&vec![]).is_empty());
    assert_eq!(f.serialize_strings(&vec!["p,q".to_string(), "r".to_string()]), b"p\\,q,r;\n".to_vec());
}

#[test]
fn null_if_applies_to_strings_loaded_into_nullable_columns() {
    assert!(column_need_transform(&DataType::String, &nullable_string()));
    assert!(column_need_transform(&nullable_string(), &nullable_string()));
    assert!(!column_need_transform(&DataType::String, &DataType::String));
    assert!(!column_need_transform(&DataType::UInt64, &nullable_string()));
}

#[test]
fn null_if_schema_and_plan() {
    let select = vec![
        DataField { name: "a".to_string(), data_type: DataType::String },
        DataField { name: "b".to_string(), data_type: DataType::UInt64 },
        DataField { name: "c".to_string(), data_type: DataType::String },
    ];
    let insert = vec![
        DataField { name: "a".to_string(), data_type: nullable_string() },
        DataField { name: "b".to_string(), data_type: DataType::Nullable(Box::new(DataType::UInt64)) },
    ];
    let schema = new_schema(&select);
    assert_eq!(schema[0].data_type, nullable_string());
    assert_eq!(schema[1].data_type, DataType::UInt64);
    assert_eq!(schema[2].data_type, nullable_string());
    let plan = null_if_plan(&select, &insert);
    assert_eq!(plan.len(), 2);
    assert!(plan[0].null_if);
    assert!(!plan[1].null_if);
    assert_eq!(plan[1].index, 1);
    assert_eq!(plan[1].name, "b");
}

#[test]
fn null_if_turns_listed_strings_into_null() {
    let values = vec![Some("".to_string()), Some("NULL".to_string()), Some("x".to_string()), None];
    let list = vec!["".to_string(), "NULL".to_string()];
    let out = null_if_column(&values, &list);
    assert_eq!(out, vec![None, None, Some("x".to_string()), None]);
    assert_eq!(null_if_column(&out, &list), out);
}

#[test]
fn aggregate_settings_from_memory_limits() {
    let s = AggregateSettings::from_settings(4, 0, 60, 123, 0);
    assert_eq!(s.max_memory_usage, usize::MAX);
    assert_eq!(s.spilling_bytes_threshold_per_proc, usize::MAX / 4);
    let s = AggregateSettings::from_settings(4, 1000, 60, 600, 0);
    assert_eq!(s.max_memory_usage, 600);
    assert_eq!(s.spilling_bytes_threshold_per_proc, 150);
    let s = AggregateSettings::from_settings(0, 1000, 0, 0, 77);
    assert_eq!(s.max_memory_usage, usize::MAX);
    assert_eq!(s.spilling_bytes_threshold_per_proc, 77);
    assert!(s.should_spill(78, 0));
    assert!(!s.should_spill(77, 0));
    let t = AggregateSettings { max_memory_usage: 10, spilling_bytes_threshold_per_proc: 100 };
    assert!(t.should_spill(0, 10));
    assert!(!t.should_spill(0, 9));
}

#[test]
fn aggregate_index_blocks_feed_states() {
    assert_eq!(states_index(5, 2), vec![3, 4]);
    assert_eq!(states_index(3, 0), Vec::<usize>::new());
    assert_eq!(aggregate_inputs(true, 4, 1), AggregateInputs::States(vec![3]));
    assert_eq!(aggregate_inputs(false, 4, 9), AggregateInputs::Arguments);
    assert_eq!(initial_radix_bits(true, 3, 8), 8);
    assert_eq!(initial_radix_bits(false, 3, 8), 3);
}

#[test]
fn finishing_emits_nonempty_buckets() {
    assert_eq!(finished_buckets(&vec![0, 5, 0, 1]), vec![1, 3]);
    assert_eq!(partition_count(0), 1);
    assert_eq!(partition_count(8), 256);
    let t: HashTable<u8> = HashTable::default();
    assert!(matches!(t, HashTable::MovedOut));
    let mut p = AggregateProgress::new();
    p.record_block(100, 10);
    p.record_block(50, 5);
    assert_eq!((p.processed_bytes, p.processed_rows, p.started), (150, 15, true));
}

#[test]
fn expression_scan_hands_blocks_out_in_order() {
    let mut t = TransformExpressionScan::create();
    assert_eq!(t.transform(), None);
    t.consume(vec![1, 2]);
    t.consume(vec![3]);
    assert_eq!(t.transform(), Some(1));
    assert_eq!(t.transform(), Some(2));
    assert_eq!(t.transform(), Some(3));
    assert_eq!(t.transform(), None);
}

#[test]
fn stream_columns_are_added_only_with_stream_meta() {
    assert_eq!(stream_columns_step(true, Some(BlockMeta::Other)), Ok(StreamColumnsStep::PassOn));
    assert_eq!(stream_columns_step(false, None), Ok(StreamColumnsStep::PassOn));
    assert_eq!(stream_columns_step(false, Some(BlockMeta::StreamColumns)), Ok(StreamColumnsStep::AddColumns));
    assert_eq!(
        stream_columns_step(false, Some(BlockMeta::Other)),
        Err(ErrorCode::Internal("It's a bug".to_string()))
    );
}

#[test]
fn escaped_fields_hold_no_raw_separators() {
    let mut buf = vec![];
    write_tsv_escaped_string(b"\t\n\r\t", &mut buf, b'\t');
    assert!(!buf.iter().any(|b| *b == b'\t' || *b == b'\n' || *b == b'\r'));
    assert_eq!(buf, b"\\t\\n\\r\\t".to_vec());
}

#[test]
fn taking_the_hash_table_moves_it_out() {
    let mut t: HashTable<u8> = HashTable::AggregateHashTable(7);
    let taken = t.take();
    assert!(matches!(taken, HashTable::AggregateHashTable(7)));
    assert!(matches!(t, HashTable::MovedOut));
}
