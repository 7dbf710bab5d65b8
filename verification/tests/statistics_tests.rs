use smart_channel::statistics::ChunkInfoBatch;
use smart_channel::statistics::ColumnType;
use smart_channel::statistics::Precision;
use smart_channel::statistics::SchemaField;
use smart_channel::statistics::TableSchema;
use smart_channel::statistics::compute_statistics_from_chunks;

fn field(name: &str, data_type: ColumnType, nullable: bool) -> SchemaField {
    SchemaField { name: String::from(name), data_type, nullable }
}

#[test]
fn test_returns_absent_statistics() {
    // Test that we honestly return Absent when we don't have real statistics
    let schema = TableSchema {
        fields: vec![
            field("id", ColumnType::Int64, false),
            field("timestamp", ColumnType::Int64, false),
        ],
    };

    let stats = compute_statistics_from_chunks(&schema, &Vec::new());

    // Should return Absent, not false Exact values
    assert!(matches!(stats.num_rows, Precision::Absent));
    assert!(matches!(stats.total_byte_size, Precision::Absent));
    assert_eq!(stats.column_statistics.len(), 2);

    // All column statistics should be unknown
    for col_stat in &stats.column_statistics {
        assert!(matches!(col_stat.null_count, Precision::Absent));
        assert!(matches!(col_stat.max_value, Precision::Absent));
        assert!(matches!(col_stat.min_value, Precision::Absent));
        assert!(matches!(col_stat.distinct_count, Precision::Absent));
    }
}

#[test]
fn test_with_chunk_metadata() {
    // Even when chunk metadata is provided, we return Absent because
    // the metadata doesn't contain row counts or byte sizes
    let schema = TableSchema {
        fields: vec![
            field("chunk_partition_id", ColumnType::Utf8, false),
            field("value", ColumnType::Int64, false),
        ],
    };

    let batch = ChunkInfoBatch { num_rows: 1 };

    let stats = compute_statistics_from_chunks(&schema, &vec![batch]);

    // Should return Absent, not placeholder values
    assert!(matches!(stats.num_rows, Precision::Absent));
    assert!(matches!(stats.total_byte_size, Precision::Absent));
}

#[test]
fn test_statistics_structure() {
    // Test that the statistics structure matches the schema
    let schema = TableSchema {
        fields: vec![
            field("col1", ColumnType::Int64, false),
            field("col2", ColumnType::Utf8, true),
            field("col3", ColumnType::Float64, true),
        ],
    };

    let stats = compute_statistics_from_chunks(&schema, &Vec::new());

    // One column statistic per schema field
    assert_eq!(stats.column_statistics.len(), 3);

    // All statistics are unknown/absent
    assert!(matches!(stats.num_rows, Precision::Absent));
    assert!(matches!(stats.total_byte_size, Precision::Absent));
}
