//! The rules by which an endpoint is evaluated from the answers to a few
//! probes: reading a block number, averaging latencies, turning the largest
//! batch or block range that worked into a limit, and counting grades.

use crate::endpoint::EndpointCapabilities;
use crate::endpoint::EndpointGrade;
use vstd::prelude::*;
use vstd::string::*;

verus! {

/// Batch sizes that are tried, in ascending order.
pub const BATCH_CEILING: u32 = 1000;

/// Block ranges that are tried go up to this one.
pub const RANGE_CEILING: u64 = 100_000;

/// The value of a hexadecimal digit, if the byte is one.
pub open spec fn hex_digit_value(b: u8) -> Option<nat> {
    if 0x30 <= b <= 0x39 {
        Some((b - 0x30) as nat)
    } else if 0x61 <= b <= 0x66 {
        Some((b - 0x61 + 10) as nat)
    } else if 0x41 <= b <= 0x46 {
        Some((b - 0x41 + 10) as nat)
    } else {
        None
    }
}

/// Whether every byte is a hexadecimal digit.
pub open spec fn all_hex_digits(digits: Seq<u8>) -> bool {
    forall|i: int| 0 <= i < digits.len() ==> hex_digit_value(#[trigger] digits[i]) is Some
}

/// The number that hexadecimal digits stand for, most significant first.
pub open spec fn hex_value(digits: Seq<u8>) -> nat
    decreases digits.len(),
{
    if digits.len() == 0 {
        0
    } else {
        hex_value(digits.drop_last()) * 16 + hex_digit_value(digits.last())->0
    }
}

/// How many bytes at the start of a text are taken by repetitions of `0x`.
pub open spec fn prefix_length(text: Seq<u8>, from: int) -> int
    decreases text.len() - from,
{
    if 0 <= from && from + 2 <= text.len() && text[from] == 0x30 && text[from + 1] == 0x78 {
        prefix_length(text, from + 2)
    } else {
        from
    }
}

/// The block number that a text stands for: after any number of `0x` at the
/// start and an optional `+`, at least one hexadecimal digit and nothing
/// else, with a value that fits 64 bits.
pub open spec fn block_number_of(text: Seq<u8>) -> Option<u64> {
    let start = prefix_length(text, 0);
    let signed = start < text.len() && text[start] == 0x2b;
    let digits = text.subrange(
        if signed {
            start + 1
        } else {
            start
        },
        text.len() as int,
    );
    if digits.len() > 0 && all_hex_digits(digits) && hex_value(digits) <= u64::MAX {
        Some(hex_value(digits) as u64)
    } else {
        None
    }
}

/// The value of a number does not shrink when digits follow.
proof fn lemma_hex_value_grows(digits: Seq<u8>, n: int)
    requires
        0 <= n <= digits.len(),
        all_hex_digits(digits),
    ensures
        hex_value(digits.take(n)) <= hex_value(digits),
    decreases digits.len() - n,
{
    if n < digits.len() {
        lemma_hex_value_grows(digits, n + 1);
        assert(digits.take(n + 1).drop_last() =~= digits.take(n));
        assert(hex_digit_value(digits.take(n + 1).last()) is Some);
    } else {
        assert(digits.take(n) =~= digits);
    }
}

/// Read a block number as an endpoint writes it: hexadecimal digits behind
/// `0x`.
pub fn parse_block_number(text: &str) -> (r: Option<u64>)
    ensures
        r == block_number_of(text.spec_bytes()),
{
    let bytes = text.as_bytes();
    let mut start: usize = 0;
    while bytes.len() - start >= 2 && bytes[start] == 0x30 && bytes[start + 1] == 0x78
        invariant
            start <= bytes@.len(),
            prefix_length(bytes@, 0) == prefix_length(bytes@, start as int),
        decreases bytes@.len() - start,
    {
        start = start + 2;
    }
    assert(prefix_length(bytes@, 0) == start);
    let ghost prefix = start;
    let signed = start < bytes.len() && bytes[start] == 0x2b;
    if signed {
        start = start + 1;
    }
    let ghost digits = bytes@.subrange(start as int, bytes@.len() as int);
    assert(block_number_of(bytes@) == if digits.len() > 0 && all_hex_digits(digits) && hex_value(
        digits,
    ) <= u64::MAX {
        Some(hex_value(digits) as u64)
    } else {
        None
    });
    if start == bytes.len() {
        return None;
    }
    let mut value: u64 = 0;
    let mut i: usize = start;
    proof {
        assert(digits.take(0) =~= Seq::<u8>::empty());
    }
    while i < bytes.len()
        invariant
            start <= i <= bytes@.len(),
            bytes@ == text.spec_bytes(),
            digits == bytes@.subrange(start as int, bytes@.len() as int),
            digits.len() > 0,
            block_number_of(bytes@) == if all_hex_digits(digits) && hex_value(digits) <= u64::MAX {
                Some(hex_value(digits) as u64)
            } else {
                None
            },
            all_hex_digits(digits.take(i - start)),
            value == hex_value(digits.take(i - start)),
        decreases bytes@.len() - i,
    {
        let b = bytes[i];
        assert(digits[i - start] == b);
        let d: u64 = if 0x30 <= b && b <= 0x39 {
            (b - 0x30) as u64
        } else if 0x61 <= b && b <= 0x66 {
            (b - 0x61 + 10) as u64
        } else if 0x41 <= b && b <= 0x46 {
            (b - 0x41 + 10) as u64
        } else {
            assert(hex_digit_value(digits[i - start]) is None);
            assert(!all_hex_digits(digits));
            return None;
        };
        assert(hex_digit_value(b) == Some(d as nat));
        proof {
            let longer = digits.take(i - start + 1);
            assert(longer.drop_last() =~= digits.take(i - start));
            assert(longer.last() == b);
            assert forall|k: int| 0 <= k < longer.len() implies hex_digit_value(
                #[trigger] longer[k],
            ) is Some by {
                if k < i - start {
                    assert(digits.take(i - start)[k] == longer[k]);
                }
            }
            assert(hex_value(longer) == value * 16 + d);
        }
        if value > (u64::MAX - d) / 16 {
            proof {
                assert(hex_value(digits.take(i - start + 1)) > u64::MAX);
                if all_hex_digits(digits) {
                    lemma_hex_value_grows(digits, i - start + 1);
                }
            }
            return None;
        }
        value = value * 16 + d;
        i = i + 1;
    }
    proof {
        assert(digits.take(digits.len() as int) =~= digits);
    }
    Some(value)
}

/// The sum of the first `n` latencies.
pub open spec fn latency_total(latencies: Seq<u64>, n: nat) -> nat
    decreases n,
{
    if n == 0 {
        0
    } else {
        latency_total(latencies, (n - 1) as nat) + latencies[n - 1] as nat
    }
}

/// The average of the latencies that were measured, rounded down; none
/// where nothing was measured.
pub fn average_latency(latencies: &Vec<u64>) -> (r: Option<u64>)
    ensures
        latencies@.len() == 0 ==> r is None,
        latencies@.len() > 0 ==> r == Some(
            (latency_total(latencies@, latencies@.len()) / latencies@.len()) as u64,
        ),
{
    if latencies.len() == 0 {
        return None;
    }
    let mut sum: u128 = 0;
    let mut i: usize = 0;
    while i < latencies.len()
        invariant
            i <= latencies@.len(),
            sum == latency_total(latencies@, i as nat),
            sum <= i * u64::MAX,
        decreases latencies@.len() - i,
    {
        assert((i + 1) * u64::MAX == i * u64::MAX + u64::MAX) by (nonlinear_arith);
        assert(i * u64::MAX <= usize::MAX * u64::MAX) by (nonlinear_arith)
            requires
                i <= usize::MAX,
        ;
        sum = sum + latencies[i] as u128;
        i = i + 1;
    }
    let n = latencies.len() as u128;
    let average = sum / n;
    assert(average <= u64::MAX) by (nonlinear_arith)
        requires
            average == sum / n,
            sum <= n * u64::MAX,
            n > 0,
    ;
    Some(average as u64)
}

/// The limit that follows from the largest size that worked: unlimited
/// (that is 0) where even the largest size tried worked, else that size.
pub open spec fn limit_from(largest_ok: u64, ceiling: u64) -> u64 {
    if largest_ok >= ceiling {
        0
    } else {
        largest_ok
    }
}

/// The batch limit that follows from the largest batch that worked.
pub fn batch_limit(largest_ok: u32) -> (limit: u32)
    ensures
        limit == limit_from(largest_ok as u64, BATCH_CEILING as u64),
{
    if largest_ok >= BATCH_CEILING {
        0
    } else {
        largest_ok
    }
}

/// The block range limit that follows from the largest range that worked.
pub fn range_limit(largest_ok: u64) -> (limit: u64)
    ensures
        limit == limit_from(largest_ok, RANGE_CEILING),
{
    if largest_ok >= RANGE_CEILING {
        0
    } else {
        largest_ok
    }
}

/// The first block of a range of `range` blocks that ends at `block`; the
/// chain starts at block 0.
pub fn range_start(block: u64, range: u64) -> (from: u64)
    ensures
        from == if block > range {
            block - range
        } else {
            0
        },
{
    if block > range {
        block - range
    } else {
        0
    }
}

/// The capabilities of an endpoint that was probed: whether log queries
/// work, and the limits that follow from the largest batch and the largest
/// block range that worked. Without log queries the block range counts as
/// unlimited.
pub fn probed_capabilities(supports_logs: bool, largest_batch: u32, largest_range: u64) -> (caps:
    EndpointCapabilities)
    ensures
        caps == (EndpointCapabilities {
            supports_eth_get_logs: Some(supports_logs),
            max_batch_size: Some(limit_from(largest_batch as u64, BATCH_CEILING as u64) as u32),
            max_block_range: Some(
                if supports_logs {
                    limit_from(largest_range, RANGE_CEILING)
                } else {
                    0
                },
            ),
            ..EndpointCapabilities::spec_unknown()
        }),
{
    EndpointCapabilities {
        supports_eth_get_logs: Some(supports_logs),
        max_batch_size: Some(batch_limit(largest_batch)),
        max_block_range: Some(
            if supports_logs {
                range_limit(largest_range)
            } else {
                0
            },
        ),
        supports_debug_trace: None,
        supports_websocket: false,
        rate_limit_rps: None,
    }
}

/// Number of the first `n` grades that equal `grade`.
pub open spec fn grade_count(grades: Seq<EndpointGrade>, grade: EndpointGrade, n: nat) -> nat
    decreases n,
{
    if n == 0 {
        0
    } else {
        grade_count(grades, grade, (n - 1) as nat) + if grades[n - 1] == grade {
            1nat
        } else {
            0nat
        }
    }
}

/// How many endpoints got each grade.
#[derive(Debug, Clone, Copy, PartialEq, Eq)]
pub struct GradeCounts {
    /// Endpoints of grade A.
    pub grade_a: usize,
    /// Endpoints of grade B.
    pub grade_b: usize,
    /// Endpoints of grade C.
    pub grade_c: usize,
    /// Endpoints of grade D.
    pub grade_d: usize,
    /// Endpoints of grade F.
    pub grade_f: usize,
}

/// Count the endpoints of each grade.
pub fn count_grades(grades: &Vec<EndpointGrade>) -> (counts: GradeCounts)
    ensures
        counts.grade_a == grade_count(grades@, EndpointGrade::A, grades@.len()),
        counts.grade_b == grade_count(grades@, EndpointGrade::B, grades@.len()),
        counts.grade_c == grade_count(grades@, EndpointGrade::C, grades@.len()),
        counts.grade_d == grade_count(grades@, EndpointGrade::D, grades@.len()),
        counts.grade_f == grade_count(grades@, EndpointGrade::F, grades@.len()),
        counts.grade_a + counts.grade_b + counts.grade_c + counts.grade_d + counts.grade_f
            == grades@.len(),
{
    let mut counts = GradeCounts { grade_a: 0, grade_b: 0, grade_c: 0, grade_d: 0, grade_f: 0 };
    let mut i: usize = 0;
    while i < grades.len()
        invariant
            i <= grades@.len(),
            counts.grade_a == grade_count(grades@, EndpointGrade::A, i as nat),
            counts.grade_b == grade_count(grades@, EndpointGrade::B, i as nat),
            counts.grade_c == grade_count(grades@, EndpointGrade::C, i as nat),
            counts.grade_d == grade_count(grades@, EndpointGrade::D, i as nat),
            counts.grade_f == grade_count(grades@, EndpointGrade::F, i as nat),
            counts.grade_a + counts.grade_b + counts.grade_c + counts.grade_d + counts.grade_f == i,
        decreases grades@.len() - i,
    {
        match grades[i] {
            EndpointGrade::A => {
                counts.grade_a = counts.grade_a + 1;
            },
            EndpointGrade::B => {
                counts.grade_b = counts.grade_b + 1;
            },
            EndpointGrade::C => {
                counts.grade_c = counts.grade_c + 1;
            },
            EndpointGrade::D => {
                counts.grade_d = counts.grade_d + 1;
            },
            EndpointGrade::F => {
                counts.grade_f = counts.grade_f + 1;
            },
        }
        i = i + 1;
    }
    counts
}

} // verus!
