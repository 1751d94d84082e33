use drive_reader::BenchmarkConfig;
use drive_reader::Command;
use drive_reader::DeviceError;
use drive_reader::UsageError;
use drive_reader::benchmark_file_path;
use drive_reader::parse_args;
use drive_reader::parse_u64;

fn args_of(parts: &[&str]) -> Vec<String> {
    parts.iter().map(|p| p.to_string()).collect()
}

#[test]
fn parse_u64_plain_numbers() {
    assert_eq!(parse_u64("0"), Some(0));
    assert_eq!(parse_u64("42"), Some(42));
    assert_eq!(parse_u64("007"), Some(7));
    assert_eq!(parse_u64("18446744073709551615"), Some(u64::MAX));
}

#[test]
fn parse_u64_rejects_malformed_input() {
    assert_eq!(parse_u64(""), None);
    assert_eq!(parse_u64("12a"), None);
    assert_eq!(parse_u64("-4"), None);
    assert_eq!(parse_u64("18446744073709551616"), None);
}

#[test]
fn missing_command_is_reported() {
    let r = parse_args(&args_of(&["tool"]));
    assert!(matches!(r, Err(UsageError::MissingCommand)));
}

#[test]
fn list_command_requires_device_path() {
    let r = parse_args(&args_of(&["tool", "l"]));
    assert!(matches!(r, Err(UsageError::MissingDevicePath)));
}

#[test]
fn list_command_carries_device_path() {
    let r = parse_args(&args_of(&["tool", "l", "/dev/sda"]));
    match r {
        Ok(Command::ListPartitions { device_path }) => assert_eq!(device_path, "/dev/sda"),
        _ => panic!("expected a partition-listing command"),
    }
}

#[test]
fn bench_command_requires_directory() {
    let r = parse_args(&args_of(&["tool", "b"]));
    assert!(matches!(r, Err(UsageError::MissingDirectoryPath)));
}

#[test]
fn directory_without_separator_is_a_usage_error() {
    let r = parse_args(&args_of(&["tool", "b", "/tmp"]));
    assert!(matches!(r, Err(UsageError::DirectorySeparatorMissing)));
}

#[test]
fn bench_without_pairs_runs_the_default_set() {
    let r = parse_args(&args_of(&["tool", "b", "/tmp/"]));
    match r {
        Ok(Command::RunBenchmarks { directory, configs }) => {
            assert_eq!(directory, "/tmp/");
            assert_eq!(
                configs,
                vec![
                    BenchmarkConfig { data_size_mb: 1024, packet_count: 8 },
                    BenchmarkConfig { data_size_mb: 8, packet_count: 256 },
                ]
            );
        }
        _ => panic!("expected a benchmark command"),
    }
}

#[test]
fn bench_with_custom_pairs() {
    let r = parse_args(&args_of(&["tool", "b", "/tmp/", "4", "2", "16", "8"]));
    match r {
        Ok(Command::RunBenchmarks { directory, configs }) => {
            assert_eq!(directory, "/tmp/");
            assert_eq!(
                configs,
                vec![
                    BenchmarkConfig { data_size_mb: 4, packet_count: 2 },
                    BenchmarkConfig { data_size_mb: 16, packet_count: 8 },
                ]
            );
        }
        _ => panic!("expected a benchmark command"),
    }
}

#[test]
fn odd_number_of_extra_arguments_is_rejected() {
    let r = parse_args(&args_of(&["tool", "b", "/tmp/", "4"]));
    assert!(matches!(r, Err(UsageError::UnpairedBenchmarkArgs)));
}

#[test]
fn malformed_benchmark_number_is_rejected() {
    let r = parse_args(&args_of(&["tool", "b", "/tmp/", "x", "2"]));
    assert!(matches!(r, Err(UsageError::MalformedBenchmarkNumber)));
}

#[test]
fn unknown_command_names_the_word() {
    let r = parse_args(&args_of(&["tool", "z"]));
    match r {
        Err(UsageError::UnknownCommand { name }) => assert_eq!(name, "z"),
        _ => panic!("expected an unknown-command error"),
    }
}

#[test]
fn benchmark_file_path_appends_fixed_name() {
    assert_eq!(benchmark_file_path(&String::from("/tmp/")), "/tmp/benchmarks.txt");
}

#[test]
fn usage_error_messages() {
    assert_eq!(UsageError::MissingCommand.message(), "Not enough arguments specified");
    assert_eq!(
        UsageError::DirectorySeparatorMissing.message(),
        "Directory path has to end with /"
    );
    assert_eq!(
        UsageError::UnpairedBenchmarkArgs.message(),
        "Invalid arguments provided: expected even number of additional arguments."
    );
    assert_eq!(
        UsageError::UnknownCommand { name: String::from("q") }.message(),
        "No command found matching q"
    );
}

#[test]
fn device_error_messages_name_the_path() {
    assert_eq!(
        DeviceError::CannotOpen { path: String::from("/dev/sdz") }.message(),
        "could not open disk at path /dev/sdz (could be missing root privileges)"
    );
    assert_eq!(
        DeviceError::NoPartitionTable { path: String::from("/dev/sdz") }.message(),
        "could not find GPT on drive /dev/sdz"
    );
}
