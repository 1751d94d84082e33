use drive_reader::BenchmarkConfig;
use drive_reader::RunStats;
use drive_reader::StorageError;
use drive_reader::ValidationError;
use drive_reader::compute_result;
use drive_reader::default_configs;
use drive_reader::whole_seconds;

#[test]
fn validate_rejects_zero_packet_count() {
    let config = BenchmarkConfig { data_size_mb: 1, packet_count: 0 };
    assert_eq!(config.validate(), Err(ValidationError::ZeroPacketCount));
}

#[test]
fn validate_rejects_zero_data_size() {
    let config = BenchmarkConfig { data_size_mb: 0, packet_count: 5 };
    assert_eq!(config.validate(), Err(ValidationError::ZeroDataSize));
}

#[test]
fn validate_accepts_positive_sizes() {
    let config = BenchmarkConfig { data_size_mb: 1, packet_count: 1 };
    assert_eq!(config.validate(), Ok(()));
}

#[test]
fn default_set_is_two_distinct_configs() {
    let configs = default_configs();
    assert_eq!(configs.len(), 2);
    assert_eq!(configs[0], BenchmarkConfig { data_size_mb: 1024, packet_count: 8 });
    assert_eq!(configs[1], BenchmarkConfig { data_size_mb: 8, packet_count: 256 });
    assert_ne!(configs[0], configs[1]);
}

#[test]
fn single_packet_single_marker() {
    let stats = RunStats::new().record_packet(5);
    assert_eq!(stats.completed, 1);
    assert_eq!(stats.min_packet_ms, 5);
    assert_eq!(stats.max_packet_ms, 5);
    assert!(!stats.line_break_due());
}

#[test]
fn line_break_after_twenty_markers() {
    let mut stats = RunStats::new();
    for _ in 0..19 {
        stats = stats.record_packet(3);
        assert!(!stats.line_break_due());
    }
    stats = stats.record_packet(3);
    assert_eq!(stats.completed, 20);
    assert!(stats.line_break_due());
}

#[test]
fn min_and_max_track_extremes() {
    let stats = RunStats::new().record_packet(5).record_packet(3).record_packet(9);
    assert_eq!(stats.min_packet_ms, 3);
    assert_eq!(stats.max_packet_ms, 9);
    assert_eq!(stats.completed, 3);
}

#[test]
fn min_keeps_a_zero_first_sample() {
    let stats = RunStats::new().record_packet(0).record_packet(7);
    assert_eq!(stats.min_packet_ms, 0);
    assert_eq!(stats.max_packet_ms, 7);
}

#[test]
fn compute_result_exact_values() {
    let config = BenchmarkConfig { data_size_mb: 8, packet_count: 4 };
    let stats = RunStats::new()
        .record_packet(400)
        .record_packet(500)
        .record_packet(600)
        .record_packet(500);
    let result = compute_result(&config, &stats, 2000);
    assert_eq!(result.total_elapsed_ms, 2000);
    assert_eq!(result.min_packet_ms, 400);
    assert_eq!(result.max_packet_ms, 600);
    assert_eq!(result.avg_packet_ms, 500);
    assert_eq!(result.throughput_mbps, 16);
    assert!(result.min_packet_ms <= result.avg_packet_ms);
    assert!(result.avg_packet_ms <= result.max_packet_ms);
}

#[test]
fn compute_result_with_zero_elapsed_reports_zero_throughput() {
    let config = BenchmarkConfig { data_size_mb: 1, packet_count: 1 };
    let stats = RunStats::new().record_packet(0);
    let result = compute_result(&config, &stats, 0);
    assert_eq!(result.avg_packet_ms, 0);
    assert_eq!(result.throughput_mbps, 0);
    assert!(result.total_elapsed_ms == 0);
}

#[test]
fn packet_bytes_for_one_megabyte() {
    let config = BenchmarkConfig { data_size_mb: 1, packet_count: 1 };
    assert_eq!(config.packet_bytes(), Some(1024 * 1024));
}

#[test]
fn packet_bytes_overflow_is_refused() {
    let config = BenchmarkConfig { data_size_mb: u64::MAX, packet_count: 1 };
    assert_eq!(config.packet_bytes(), None);
}

#[test]
fn whole_seconds_divides_by_one_thousand() {
    assert_eq!(whole_seconds(2500), 2);
    assert_eq!(whole_seconds(999), 0);
    assert_eq!(whole_seconds(1000), 1);
}

#[test]
fn validation_error_messages() {
    assert_eq!(
        ValidationError::ZeroDataSize.message(),
        "Data size must be greater than zero"
    );
    assert_eq!(
        ValidationError::ZeroPacketCount.message(),
        "Packet count must be greater than zero"
    );
}

#[test]
fn storage_error_messages_match_report_wording() {
    assert_eq!(
        StorageError::CreateFailed.message(),
        "Failed to create file in directory. Make sure the application has access."
    );
    assert_eq!(StorageError::WriteFailed.message(), "Error writing to file");
    assert_eq!(StorageError::FlushFailed.message(), "Error saving to file");
    assert_eq!(StorageError::DeleteFailed.message(), "Failed to delete file");
}
