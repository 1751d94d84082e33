//! Command-line parsing: the command dispatcher's decisions, made from the
//! raw argument strings alone, before any device or file is touched.

use crate::benchmark::BenchmarkConfig;
use crate::benchmark::default_configs;
use vstd::prelude::*;
use vstd::string::*;

verus! {

/// A decimal digit.
pub open spec fn is_dec_digit(c: char) -> bool {
    '0' <= c && c <= '9'
}

/// The numeric value of one decimal digit.
pub open spec fn digit_value(c: char) -> int {
    c as int - '0' as int
}

/// Every character of the string is a decimal digit.
pub open spec fn all_dec_digits(s: Seq<char>) -> bool {
    forall|i: int| 0 <= i < s.len() ==> is_dec_digit(s[i])
}

/// The number a string of decimal digits denotes, most significant digit
/// first.
pub open spec fn decimal_value(s: Seq<char>) -> int
    decreases s.len(),
{
    if s.len() == 0 {
        0
    } else {
        decimal_value(s.drop_last()) * 10 + digit_value(s.last())
    }
}

/// A string that `parse_u64` accepts: non-empty, all digits, and its value
/// fits in a `u64`.
pub open spec fn parses_to_u64(s: Seq<char>) -> bool {
    s.len() > 0 && all_dec_digits(s) && decimal_value(s) <= u64::MAX
}

proof fn lemma_decimal_value_nonneg(s: Seq<char>)
    requires
        all_dec_digits(s),
    ensures
        decimal_value(s) >= 0,
    decreases s.len(),
{
    if s.len() > 0 {
        assert(all_dec_digits(s.drop_last())) by {
            assert(forall|i: int|
                0 <= i < s.len() - 1 ==> s.drop_last()[i] == s[i] && is_dec_digit(s[i]));
        }
        lemma_decimal_value_nonneg(s.drop_last());
    }
}

proof fn lemma_decimal_prefix_le(s: Seq<char>, i: int)
    requires
        all_dec_digits(s),
        0 <= i <= s.len(),
    ensures
        decimal_value(s.take(i)) <= decimal_value(s),
    decreases s.len() - i,
{
    if i == s.len() {
        assert(s.take(i) =~= s);
    } else {
        assert(s.take(i + 1).drop_last() =~= s.take(i));
        assert(s.take(i + 1).last() == s[i]);
        assert(all_dec_digits(s.take(i))) by {
            assert(forall|j: int| 0 <= j < i ==> s.take(i)[j] == s[j] && is_dec_digit(s[j]));
        }
        lemma_decimal_value_nonneg(s.take(i));
        assert(decimal_value(s.take(i)) <= decimal_value(s.take(i + 1)));
        lemma_decimal_prefix_le(s, i + 1);
    }
}

proof fn lemma_decimal_step_fits(acc: int, d: int)
    requires
        0 <= d <= 9,
        0 <= acc,
        acc <= (u64::MAX - d) / 10,
    ensures
        acc * 10 + d <= u64::MAX,
{
    assert(acc * 10 <= ((u64::MAX - d) / 10) * 10) by (nonlinear_arith)
        requires
            0 <= acc,
            acc <= (u64::MAX - d) / 10,
    ;
    assert(((u64::MAX - d) / 10) * 10 <= u64::MAX - d) by (nonlinear_arith)
        requires
            0 <= d <= 9,
    ;
}

proof fn lemma_decimal_step_overflows(acc: int, d: int)
    requires
        0 <= d <= 9,
        acc > (u64::MAX - d) / 10,
    ensures
        acc * 10 + d > u64::MAX,
{
    assert(acc * 10 >= ((u64::MAX - d) / 10) * 10 + 10) by (nonlinear_arith)
        requires
            acc > (u64::MAX - d) / 10,
    ;
    assert(((u64::MAX - d) / 10) * 10 + 10 > u64::MAX - d) by (nonlinear_arith)
        requires
            0 <= d <= 9,
    ;
}

/// Parse a whole decimal number. Returns its value exactly when the
/// string is non-empty, consists of decimal digits only, and denotes a
/// value that fits in a `u64`; returns `None` otherwise, never panicking
/// on malformed input.
pub fn parse_u64(s: &str) -> (r: Option<u64>)
    ensures
        r is Some <==> parses_to_u64(s@),
        r is Some ==> r->0 == decimal_value(s@),
{
    let n = s.unicode_len();
    if n == 0 {
        return None;
    }
    let mut acc: u64 = 0;
    let mut i: usize = 0;
    while i < n
        invariant
            0 < n == s@.len(),
            i <= n,
            all_dec_digits(s@.take(i as int)),
            acc == decimal_value(s@.take(i as int)),
        decreases n - i,
    {
        let c = s.get_char(i);
        if c < '0' || c > '9' {
            proof {
                assert(!is_dec_digit(s@[i as int]));
            }
            return None;
        }
        let d: u64 = (c as u32 - 48) as u64;
        proof {
            assert(d == digit_value(s@[i as int]));
            assert(all_dec_digits(s@.take(i + 1 as int))) by {
                assert(forall|j: int|
                    0 <= j < i ==> s@.take(i + 1 as int)[j] == s@.take(i as int)[j]);
                assert(s@.take(i + 1 as int)[i as int] == s@[i as int]);
            }
            assert(s@.take(i + 1 as int).drop_last() =~= s@.take(i as int));
            assert(s@.take(i + 1 as int).last() == s@[i as int]);
            lemma_decimal_value_nonneg(s@.take(i as int));
        }
        if acc > (u64::MAX - d) / 10 {
            proof {
                lemma_decimal_step_overflows(acc as int, d as int);
                if all_dec_digits(s@) {
                    lemma_decimal_prefix_le(s@, i + 1);
                }
            }
            return None;
        }
        proof {
            lemma_decimal_step_fits(acc as int, d as int);
        }
        acc = acc * 10 + d;
        i = i + 1;
    }
    proof {
        assert(s@.take(n as int) =~= s@);
    }
    Some(acc)
}

/// A parsed invocation: list the partitions of a device, or run one or
/// more write benchmarks under a directory.
#[derive(Debug)]
pub enum Command {
    ListPartitions { device_path: String },
    RunBenchmarks { directory: String, configs: Vec<BenchmarkConfig> },
}

/// Missing or malformed arguments: reported, and nothing further happens.
#[derive(Debug)]
pub enum UsageError {
    MissingCommand,
    MissingDevicePath,
    MissingDirectoryPath,
    DirectorySeparatorMissing,
    UnpairedBenchmarkArgs,
    MalformedBenchmarkNumber,
    UnknownCommand { name: String },
}

impl UsageError {
    /// The console line reported for this error.
    pub fn message(&self) -> (r: String)
        ensures
            match self {
                UsageError::MissingCommand => r@ == "Not enough arguments specified"@,
                UsageError::MissingDevicePath => r@ == "Missing required argument: disk path"@,
                UsageError::MissingDirectoryPath => r@
                    == "Missing required argument: directory path"@,
                UsageError::DirectorySeparatorMissing => r@
                    == "Directory path has to end with /"@,
                UsageError::UnpairedBenchmarkArgs => r@
                    == "Invalid arguments provided: expected even number of additional arguments."@,
                UsageError::MalformedBenchmarkNumber => r@
                    == "Benchmark arguments must be unsigned integers"@,
                UsageError::UnknownCommand { name } => r@ == "No command found matching "@ + name@,
            },
    {
        match self {
            UsageError::MissingCommand => "Not enough arguments specified".to_owned(),
            UsageError::MissingDevicePath => "Missing required argument: disk path".to_owned(),
            UsageError::MissingDirectoryPath => "Missing required argument: directory path"
                .to_owned(),
            UsageError::DirectorySeparatorMissing => "Directory path has to end with /".to_owned(),
            UsageError::UnpairedBenchmarkArgs =>
                "Invalid arguments provided: expected even number of additional arguments."
                .to_owned(),
            UsageError::MalformedBenchmarkNumber => "Benchmark arguments must be unsigned integers"
                .to_owned(),
            UsageError::UnknownCommand { name } => "No command found matching ".to_owned().concat(
                name.as_str(),
            ),
        }
    }
}

/// The invocation names this command word.
pub open spec fn spec_cmd_is(args: Seq<String>, word: Seq<char>) -> bool {
    args.len() >= 2 && args[1]@ == word
}

/// The directory argument is present and ends with the path separator.
pub open spec fn spec_dir_ok(args: Seq<String>) -> bool {
    args.len() >= 3 && args[2]@.len() > 0 && args[2]@.last() == '/'
}

/// How many arguments follow the directory argument.
pub open spec fn spec_extras(args: Seq<String>) -> int {
    args.len() - 3
}

/// Every argument after the directory parses as a `u64`.
pub open spec fn spec_all_pairs_parse(args: Seq<String>) -> bool {
    forall|t: int| 3 <= t < args.len() ==> parses_to_u64(args[t]@)
}

/// The configuration one (size, count) argument pair denotes.
pub open spec fn spec_pair_config(mb: Seq<char>, count: Seq<char>) -> BenchmarkConfig {
    BenchmarkConfig {
        data_size_mb: decimal_value(mb) as u64,
        packet_count: decimal_value(count) as u64,
    }
}

/// The configurations the first `k` argument pairs denote, in order.
pub open spec fn spec_pair_configs(args: Seq<String>, k: int) -> Seq<BenchmarkConfig>
    decreases k,
{
    if k <= 0 {
        Seq::empty()
    } else {
        spec_pair_configs(args, k - 1).push(
            spec_pair_config(args[3 + 2 * (k - 1)]@, args[4 + 2 * (k - 1)]@),
        )
    }
}

/// Whether the string's last character is the path separator.
fn ends_with_separator(s: &String) -> (b: bool)
    ensures
        b == (s@.len() > 0 && s@.last() == '/'),
{
    let n = s.as_str().unicode_len();
    if n == 0 {
        false
    } else {
        s.as_str().get_char(n - 1) == '/'
    }
}

/// Route the raw argument vector (program name first) to a command, or to
/// the usage error the invocation deserves. No device or file is touched
/// here: every decision is made from the strings alone. Benchmark sizes
/// beyond the pairs' order are taken as given; zero values are caught
/// later by validation, before any run starts.
pub fn parse_args(args: &Vec<String>) -> (r: Result<Command, UsageError>)
    ensures
        args@.len() < 2 ==> r == Result::<Command, UsageError>::Err(UsageError::MissingCommand),
        spec_cmd_is(args@, "l"@) && args@.len() < 3 ==> r == Result::<Command, UsageError>::Err(
            UsageError::MissingDevicePath,
        ),
        spec_cmd_is(args@, "l"@) && args@.len() >= 3 ==> (r matches Ok(
            Command::ListPartitions { device_path },
        ) && device_path@ == args@[2]@),
        spec_cmd_is(args@, "b"@) && args@.len() < 3 ==> r == Result::<Command, UsageError>::Err(
            UsageError::MissingDirectoryPath,
        ),
        spec_cmd_is(args@, "b"@) && args@.len() >= 3 && !spec_dir_ok(args@) ==> r == Result::<
            Command,
            UsageError,
        >::Err(UsageError::DirectorySeparatorMissing),
        spec_cmd_is(args@, "b"@) && spec_dir_ok(args@) && spec_extras(args@) % 2 == 1 ==> r
            == Result::<Command, UsageError>::Err(UsageError::UnpairedBenchmarkArgs),
        spec_cmd_is(args@, "b"@) && spec_dir_ok(args@) && spec_extras(args@) % 2 == 0
            && !spec_all_pairs_parse(args@) ==> r == Result::<Command, UsageError>::Err(
            UsageError::MalformedBenchmarkNumber,
        ),
        spec_cmd_is(args@, "b"@) && spec_dir_ok(args@) && spec_extras(args@) == 0 ==> (r matches Ok(
            Command::RunBenchmarks { directory, configs },
        ) && directory@ == args@[2]@ && configs@.len() == 2 && configs@[0] == (BenchmarkConfig {
            data_size_mb: 1024,
            packet_count: 8,
        }) && configs@[1] == (BenchmarkConfig { data_size_mb: 8, packet_count: 256 })),
        spec_cmd_is(args@, "b"@) && spec_dir_ok(args@) && spec_extras(args@) > 0 && spec_extras(
            args@,
        ) % 2 == 0 && spec_all_pairs_parse(args@) ==> (r matches Ok(
            Command::RunBenchmarks { directory, configs },
        ) && directory@ == args@[2]@ && configs@ == spec_pair_configs(
            args@,
            spec_extras(args@) / 2,
        )),
        args@.len() >= 2 && args@[1]@ != "l"@ && args@[1]@ != "b"@ ==> (r matches Err(
            UsageError::UnknownCommand { name },
        ) && name@ == args@[1]@),
{
    proof {
        reveal_strlit("l");
        reveal_strlit("b");
        assert("l"@[0] == 'l' && "b"@[0] == 'b');
        assert("l"@ != "b"@);
    }
    if args.len() < 2 {
        return Err(UsageError::MissingCommand);
    }
    let list_word: String = "l".to_owned();
    let bench_word: String = "b".to_owned();
    if args[1].eq(&list_word) {
        if args.len() < 3 {
            return Err(UsageError::MissingDevicePath);
        }
        return Ok(Command::ListPartitions { device_path: args[2].clone() });
    }
    if args[1].eq(&bench_word) {
        if args.len() < 3 {
            return Err(UsageError::MissingDirectoryPath);
        }
        if !ends_with_separator(&args[2]) {
            return Err(UsageError::DirectorySeparatorMissing);
        }
        let extras = args.len() - 3;
        if extras % 2 == 1 {
            return Err(UsageError::UnpairedBenchmarkArgs);
        }
        if extras == 0 {
            return Ok(
                Command::RunBenchmarks { directory: args[2].clone(), configs: default_configs() },
            );
        }
        let pair_count = extras / 2;
        let mut configs: Vec<BenchmarkConfig> = Vec::new();
        let mut j: usize = 0;
        while j < pair_count
            invariant
                args@.len() >= 3,
                spec_cmd_is(args@, "b"@),
                spec_dir_ok(args@),
                "l"@ != "b"@,
                args@.len() <= usize::MAX,
                extras == args@.len() - 3,
                extras % 2 == 0,
                pair_count == extras / 2,
                j <= pair_count,
                configs@ == spec_pair_configs(args@, j as int),
                forall|t: int|
                    0 <= t < j ==> parses_to_u64(#[trigger] args@[3 + 2 * t]@) && parses_to_u64(
                        args@[4 + 2 * t]@,
                    ),
            decreases pair_count - j,
        {
            let data_size_mb = match parse_u64(args[3 + 2 * j].as_str()) {
                Some(v) => v,
                None => {
                    proof {
                        assert(!parses_to_u64(args@[3 + 2 * j as int]@));
                    }
                    return Err(UsageError::MalformedBenchmarkNumber);
                },
            };
            let packet_count = match parse_u64(args[3 + 2 * j + 1].as_str()) {
                Some(v) => v,
                None => {
                    proof {
                        assert(!parses_to_u64(args@[4 + 2 * j as int]@));
                    }
                    return Err(UsageError::MalformedBenchmarkNumber);
                },
            };
            let ghost pre = configs@;
            configs.push(BenchmarkConfig { data_size_mb, packet_count });
            proof {
                lemma_decimal_value_nonneg(args@[3 + 2 * j as int]@);
                lemma_decimal_value_nonneg(args@[4 + 2 * j as int]@);
                assert(configs@ == spec_pair_configs(args@, j + 1)) by {
                    assert(spec_pair_configs(args@, j + 1) == spec_pair_configs(
                        args@,
                        j as int,
                    ).push(spec_pair_config(args@[3 + 2 * j as int]@, args@[4 + 2 * j as int]@)));
                    assert(configs@ == pre.push(
                        BenchmarkConfig { data_size_mb, packet_count },
                    ));
                }
            }
            j = j + 1;
        }
        proof {
            assert forall|t: int| 3 <= t < args@.len() implies parses_to_u64(args@[t]@) by {
                let u = t - 3;
                if u % 2 == 0 {
                    let h = u / 2;
                    assert(0 <= h < pair_count);
                    assert(parses_to_u64(args@[3 + 2 * h]@));
                    assert(t == 3 + 2 * h);
                } else {
                    let h = (u - 1) / 2;
                    assert(0 <= h < pair_count);
                    assert(parses_to_u64(args@[3 + 2 * h]@));
                    assert(parses_to_u64(args@[4 + 2 * h]@));
                    assert(t == 4 + 2 * h);
                }
            }
        }
        return Ok(Command::RunBenchmarks { directory: args[2].clone(), configs });
    }
    Err(UsageError::UnknownCommand { name: args[1].clone() })
}

/// The benchmark file's location: the directory argument with the fixed
/// file name appended.
pub fn benchmark_file_path(directory: &String) -> (p: String)
    ensures
        p@ == directory@ + "benchmarks.txt"@,
{
    directory.clone().concat("benchmarks.txt")
}

} // verus!
