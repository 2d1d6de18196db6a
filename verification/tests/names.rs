use logput::args::effective_stream_name;
use logput::args::Args;
use logput::decimal::i64_to_dec_string;

fn sample_args(suffix: bool) -> Args {
    Args {
        log_group_name: String::from("group"),
        log_stream_name: String::from("base"),
        suffix_stream_name_with_timestamp: suffix,
        remake_log_stream: false,
        region: None,
        endpoint_url: None,
        pass_through: false,
    }
}

#[test]
fn decimal_single_digits() {
    assert_eq!(i64_to_dec_string(0), "0");
    assert_eq!(i64_to_dec_string(9), "9");
}

#[test]
fn decimal_multi_digit() {
    assert_eq!(i64_to_dec_string(10), "10");
    assert_eq!(i64_to_dec_string(1234567890), "1234567890");
}

#[test]
fn decimal_negative() {
    assert_eq!(i64_to_dec_string(-7), "-7");
    assert_eq!(i64_to_dec_string(-100), "-100");
}

#[test]
fn decimal_extremes() {
    assert_eq!(i64_to_dec_string(i64::MAX), "9223372036854775807");
    assert_eq!(i64_to_dec_string(i64::MIN), "-9223372036854775808");
}

#[test]
fn effective_name_without_suffix() {
    assert_eq!(effective_stream_name("app", false, 1234567890), "app");
}

#[test]
fn effective_name_with_suffix() {
    assert_eq!(effective_stream_name("app", true, 1234567890), "app-1234567890");
}

#[test]
fn effective_name_with_negative_clock() {
    assert_eq!(effective_stream_name("s", true, -7), "s--7");
}

#[test]
fn args_stream_name_without_suffix() {
    let args = sample_args(false);
    assert_eq!(args.log_stream_name(), "base");
}

#[test]
fn args_stream_name_with_suffix_has_second_count() {
    let args = sample_args(true);
    let name = args.log_stream_name();
    let rest = name
        .strip_prefix("base-")
        .expect("suffixed name must start with the base name and a dash");
    let seconds: i64 = rest.parse().expect("suffix must be a decimal second count");
    assert!(seconds > 1_600_000_000, "clock reading {seconds} is not a present-day time");
}

#[test]
fn args_stream_name_stable_base() {
    let args = sample_args(true);
    let a = args.log_stream_name();
    let b = args.log_stream_name();
    assert_eq!(a.split_once('-').unwrap().0, b.split_once('-').unwrap().0);
}
