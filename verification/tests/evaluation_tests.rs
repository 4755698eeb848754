//! The rules of endpoint evaluation.

use web3_rpc_pool::endpoint::EndpointGrade;
use web3_rpc_pool::evaluation::{
    average_latency, batch_limit, count_grades, parse_block_number, probed_capabilities,
    range_limit, range_start, GradeCounts,
};

#[test]
fn block_numbers() {
    assert_eq!(parse_block_number("0x0"), Some(0));
    assert_eq!(parse_block_number("0x10"), Some(16));
    assert_eq!(parse_block_number("0x1b4"), Some(436));
    assert_eq!(parse_block_number("0xAbCdEf"), Some(0xabcdef));
    assert_eq!(parse_block_number("12f"), Some(0x12f));
    assert_eq!(parse_block_number("0x0x12"), Some(0x12));
    assert_eq!(parse_block_number("0x+12"), Some(0x12));
    assert_eq!(parse_block_number("+7"), Some(7));
    assert_eq!(parse_block_number("0xffffffffffffffff"), Some(u64::MAX));
    assert_eq!(parse_block_number("0x0000000000000000000001"), Some(1));
}

#[test]
fn texts_that_are_no_block_number() {
    assert_eq!(parse_block_number(""), None);
    assert_eq!(parse_block_number("0x"), None);
    assert_eq!(parse_block_number("0x0x"), None);
    assert_eq!(parse_block_number("+"), None);
    assert_eq!(parse_block_number("-1"), None);
    assert_eq!(parse_block_number("0x-1"), None);
    assert_eq!(parse_block_number("++1"), None);
    assert_eq!(parse_block_number("0x12g"), None);
    assert_eq!(parse_block_number("0X12"), None);
    assert_eq!(parse_block_number(" 0x12"), None);
    assert_eq!(parse_block_number("0x12 "), None);
    assert_eq!(parse_block_number("0x1é"), None);
    assert_eq!(parse_block_number("0x10000000000000000"), None);
    assert_eq!(parse_block_number("0xfffffffffffffffff"), None);
}

#[test]
fn block_numbers_agree_with_the_standard_parser() {
    for text in ["0", "ff", "+ff", "0x", "x", "0x0x0x1", "1x0", "00", "fFfF", "0x+", "+0x1"] {
        let stripped = text.trim_start_matches("0x");
        assert_eq!(parse_block_number(text), u64::from_str_radix(stripped, 16).ok(), "{text}");
    }
}

#[test]
fn latency_average() {
    assert_eq!(average_latency(&vec![]), None);
    assert_eq!(average_latency(&vec![7]), Some(7));
    assert_eq!(average_latency(&vec![10, 20, 31]), Some(20));
    assert_eq!(average_latency(&vec![u64::MAX, u64::MAX, u64::MAX]), Some(u64::MAX));
    assert_eq!(average_latency(&vec![u64::MAX, 0]), Some(u64::MAX / 2));
}

#[test]
fn limits_from_probes() {
    assert_eq!(batch_limit(0), 0);
    assert_eq!(batch_limit(1), 1);
    assert_eq!(batch_limit(500), 500);
    assert_eq!(batch_limit(999), 999);
    assert_eq!(batch_limit(1000), 0);
    assert_eq!(batch_limit(5000), 0);
    assert_eq!(range_limit(0), 0);
    assert_eq!(range_limit(50_000), 50_000);
    assert_eq!(range_limit(99_999), 99_999);
    assert_eq!(range_limit(100_000), 0);
    assert_eq!(range_start(100, 10), 90);
    assert_eq!(range_start(10, 10), 0);
    assert_eq!(range_start(5, 10), 0);
    assert_eq!(range_start(u64::MAX, 1), u64::MAX - 1);
}

#[test]
fn capabilities_from_probes() {
    let caps = probed_capabilities(true, 1000, 10_000);
    assert_eq!(caps.supports_eth_get_logs, Some(true));
    assert_eq!(caps.max_batch_size, Some(0));
    assert_eq!(caps.max_block_range, Some(10_000));
    assert_eq!(caps.supports_debug_trace, None);
    assert!(!caps.supports_websocket);
    assert_eq!(caps.rate_limit_rps, None);
    assert_eq!(caps.grade(), EndpointGrade::A);

    let caps = probed_capabilities(true, 50, 1_000);
    assert_eq!(caps.max_batch_size, Some(50));
    assert_eq!(caps.grade(), EndpointGrade::B);

    let caps = probed_capabilities(true, 100, 0);
    assert_eq!(caps.max_block_range, Some(0));

    let caps = probed_capabilities(false, 10, 5_000);
    assert_eq!(caps.supports_eth_get_logs, Some(false));
    assert_eq!(caps.max_batch_size, Some(10));
    assert_eq!(caps.max_block_range, Some(0));
    assert_eq!(caps.grade(), EndpointGrade::D);
    assert_eq!(caps.priority_adjustment(), 10);
}

#[test]
fn grade_counts() {
    assert_eq!(
        count_grades(&vec![]),
        GradeCounts { grade_a: 0, grade_b: 0, grade_c: 0, grade_d: 0, grade_f: 0 }
    );
    let grades = vec![
        EndpointGrade::A,
        EndpointGrade::F,
        EndpointGrade::D,
        EndpointGrade::A,
        EndpointGrade::C,
        EndpointGrade::D,
        EndpointGrade::A,
    ];
    assert_eq!(
        count_grades(&grades),
        GradeCounts { grade_a: 3, grade_b: 0, grade_c: 1, grade_d: 2, grade_f: 1 }
    );
}
