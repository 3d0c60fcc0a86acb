use btpc::args::Args;
use btpc::collect::{collect_rows, count_dropped};
use btpc::parquet_out::{write_a_records_in_parquet, WriteError};
use btpc::pipeline::{dropped_line_count, run};
use btpc::record::{convert_noodles_record_to_bedrecord, BedRecord, IntervalRecord};

use parquet::file::reader::{FileReader, SerializedFileReader};
use parquet::record::RowAccessor;

fn read_rows_back(file: &[u8]) -> Vec<(String, i64, i64)> {
    let reader = SerializedFileReader::new(bytes::Bytes::copy_from_slice(file)).unwrap();
    let mut rows: Vec<(String, i64, i64)> = Vec::new();
    for row in reader.get_row_iter(None).unwrap() {
        let row = row.unwrap();
        rows.push((
            row.get_string(0).unwrap().clone(),
            row.get_long(1).unwrap(),
            row.get_long(2).unwrap(),
        ));
    }
    rows
}

#[test]
fn test_converting_noodles_to_our_representation() {
    let record = IntervalRecord {
        reference_sequence_name: "sq0".to_string(),
        start_position: 8,
        end_position: 13,
    };

    let expected = BedRecord::new("sq0".to_string(), 8, 13);

    let result = convert_noodles_record_to_bedrecord(record);

    assert_eq!(expected, result);
}

#[test]
fn test_args_rejects_zero_positional_arguments() {
    let r = Args::new(vec!["btpc".to_string()]);
    assert_eq!(r.err(), Some("Didn't get a file name"));
}

#[test]
fn test_args_rejects_one_positional_argument() {
    let r = Args::new(vec!["btpc".to_string(), "in.bed".to_string()]);
    assert_eq!(r.err(), Some("Didn't get a file name"));
}

#[test]
fn test_args_accepts_two_positional_arguments() {
    let r = Args::new(vec![
        "btpc".to_string(),
        "in.bed".to_string(),
        "out.parquet".to_string(),
        "ignored".to_string(),
    ])
    .unwrap();
    assert_eq!(r.input_file, "in.bed");
    assert_eq!(r.output_file, "out.parquet");
}

#[test]
fn test_round_trip_well_formed_records() {
    let input = b"sq0\t7\t13\nsq1\t0\t8\nsq2\t21\t35\n";
    let file = run(input).unwrap();
    let rows = read_rows_back(&file);
    assert_eq!(
        rows,
        vec![
            ("sq0".to_string(), 8, 13),
            ("sq1".to_string(), 1, 8),
            ("sq2".to_string(), 22, 35),
        ]
    );
}

#[test]
fn test_malformed_lines_are_dropped() {
    let input = b"sq0\t0\t5\nnot-a-record\nsq1\tx\t9\nsq2\t2\t10\n";
    let file = run(input).unwrap();
    let rows = read_rows_back(&file);
    assert_eq!(
        rows,
        vec![("sq0".to_string(), 1, 5), ("sq2".to_string(), 3, 10)]
    );
}

#[test]
fn test_collect_rows_keeps_well_formed_in_order() {
    let parsed = vec![
        Some(IntervalRecord {
            reference_sequence_name: "sq0".to_string(),
            start_position: 1,
            end_position: 5,
        }),
        None,
        None,
        Some(IntervalRecord {
            reference_sequence_name: "sq1".to_string(),
            start_position: 3,
            end_position: 10,
        }),
    ];
    let rows = collect_rows(&parsed);
    assert_eq!(
        rows,
        vec![
            BedRecord::new("sq0".to_string(), 1, 5),
            BedRecord::new("sq1".to_string(), 3, 10),
        ]
    );
}

#[test]
fn test_empty_input_gives_valid_empty_file() {
    let file = run(b"").unwrap();
    let reader = SerializedFileReader::new(bytes::Bytes::copy_from_slice(&file)).unwrap();
    let meta = reader.metadata().file_metadata();
    assert_eq!(meta.num_rows(), 0);
    let schema = meta.schema_descr();
    assert_eq!(schema.num_columns(), 3);
    assert_eq!(schema.column(0).name(), "reference_sequence_name");
    assert_eq!(schema.column(1).name(), "start_position");
    assert_eq!(schema.column(2).name(), "end_position");
    assert_eq!(read_rows_back(&file).len(), 0);
}

#[test]
fn test_conversion_is_deterministic() {
    let input = b"sq0\t7\t13\nsq1\t0\t8\n";
    let first = run(input).unwrap();
    let second = run(input).unwrap();
    assert_eq!(first, second);
}

#[test]
fn test_position_overflow_is_reported() {
    let rows = vec![BedRecord::new("sq0".to_string(), u64::MAX, u64::MAX)];
    let r = write_a_records_in_parquet(&rows);
    assert!(matches!(r, Err(WriteError::PositionOverflow)));
}

#[test]
fn test_position_overflow_through_the_pipeline() {
    let input = b"sq0\t9223372036854775807\t9223372036854775808\n";
    let r = run(input);
    assert!(matches!(r, Err(WriteError::PositionOverflow)));
}

#[test]
fn test_dropped_line_count_is_observable() {
    let input = b"sq0\t0\t5\nnot-a-record\nsq1\tx\t9\nsq2\t2\t10\n";
    assert_eq!(dropped_line_count(input), 2);
    assert_eq!(dropped_line_count(b""), 0);
    assert_eq!(dropped_line_count(b"sq0\t7\t13\n"), 0);
}

#[test]
fn test_count_dropped_matches_kept_rows() {
    let parsed = vec![
        None,
        Some(IntervalRecord {
            reference_sequence_name: "sq0".to_string(),
            start_position: 1,
            end_position: 5,
        }),
        None,
    ];
    assert_eq!(count_dropped(&parsed), 2);
    assert_eq!(count_dropped(&parsed) + collect_rows(&parsed).len(), parsed.len());
}
