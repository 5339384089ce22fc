//! The task-computation dispatch engine: a pure function from a task to a
//! numeric output and optional structured metadata.
//!
//! The engine is total: a payload that does not provide what the operation
//! needs degrades to a well-defined fallback result (the task input plus a
//! warning) instead of an error, so a malformed task can never abort the
//! worker loop.
use vstd::prelude::*;

use crate::float_bits::{
    add_bits, div_bits, f64_add, f64_div, f64_floor_to_u64, f64_from_u64, f64_lt, f64_mul,
    f64_sqrt, floor_to_u64, from_u64_bits, lt_bits, mul_bits, sqrt_bits, F64_NEG_INF_BITS,
    F64_ONE_BITS, F64_POS_INF_BITS, F64_TWO_BITS, F64_ZERO_BITS,
};
use crate::task::{Metadata, Operation, PayloadEntry, Task, WarningKind};

verus! {

/// The integer a factorial task takes the factorial of: 0 for negative
/// input, otherwise the floor of the input.
pub open spec fn spec_factorial_n(input: u64) -> u64 {
    if lt_bits(input, F64_ZERO_BITS) {
        0u64
    } else {
        floor_to_u64(input)
    }
}

/// The binary64 bit pattern of `n!` computed as the float product
/// `(...(1 * 2) * 3...) * n`, the product over an empty range being 1.
pub open spec fn spec_fact_bits(n: u64) -> u64
    decreases n,
{
    if n < 2 {
        F64_ONE_BITS
    } else {
        mul_bits(spec_fact_bits((n - 1) as u64), from_u64_bits(n))
    }
}

/// How many entries of the `values` array are numeric.
pub open spec fn spec_num_count(s: Seq<PayloadEntry>) -> nat
    decreases s.len(),
{
    if s.len() == 0 {
        0nat
    } else {
        spec_num_count(s.drop_last()) + match s.last() {
            PayloadEntry::Num(_) => 1nat,
            PayloadEntry::NonNumeric => 0nat,
        }
    }
}

/// The running float sum of the numeric entries, accumulated left to right
/// from 0.0.
pub open spec fn spec_sum_bits(s: Seq<PayloadEntry>) -> u64
    decreases s.len(),
{
    if s.len() == 0 {
        F64_ZERO_BITS
    } else {
        match s.last() {
            PayloadEntry::Num(f) => add_bits(spec_sum_bits(s.drop_last()), f),
            PayloadEntry::NonNumeric => spec_sum_bits(s.drop_last()),
        }
    }
}

/// The running minimum of the numeric entries, scanned left to right from
/// positive infinity with the IEEE less-than test.
pub open spec fn spec_min_bits(s: Seq<PayloadEntry>) -> u64
    decreases s.len(),
{
    if s.len() == 0 {
        F64_POS_INF_BITS
    } else {
        match s.last() {
            PayloadEntry::Num(f) => {
                let m = spec_min_bits(s.drop_last());
                if lt_bits(f, m) {
                    f
                } else {
                    m
                }
            },
            PayloadEntry::NonNumeric => spec_min_bits(s.drop_last()),
        }
    }
}

/// The running maximum of the numeric entries, scanned left to right from
/// negative infinity with the IEEE less-than test (an entry `f` replaces
/// the running maximum `m` exactly when `m < f`).
pub open spec fn spec_max_bits(s: Seq<PayloadEntry>) -> u64
    decreases s.len(),
{
    if s.len() == 0 {
        F64_NEG_INF_BITS
    } else {
        match s.last() {
            PayloadEntry::Num(f) => {
                let m = spec_max_bits(s.drop_last());
                if lt_bits(m, f) {
                    f
                } else {
                    m
                }
            },
            PayloadEntry::NonNumeric => spec_max_bits(s.drop_last()),
        }
    }
}

/// The numeric output of a task, as a bit pattern.
pub open spec fn spec_output(t: Task) -> u64 {
    match t.operation {
        Operation::Square => mul_bits(t.input, t.input),
        Operation::Sqrt => sqrt_bits(t.input),
        Operation::Double => mul_bits(t.input, F64_TWO_BITS),
        Operation::Factorial => spec_fact_bits(spec_factorial_n(t.input)),
        Operation::VectorSum => match t.values {
            Some(vs) => if spec_num_count(vs@) == 0 {
                t.input
            } else {
                spec_sum_bits(vs@)
            },
            None => t.input,
        },
        Operation::Mean => match t.values {
            Some(vs) => if spec_num_count(vs@) == 0 {
                t.input
            } else {
                div_bits(spec_sum_bits(vs@), from_u64_bits(spec_num_count(vs@) as u64))
            },
            None => t.input,
        },
    }
}

/// The metadata attached to a task's output.
pub open spec fn spec_meta(t: Task) -> Option<Metadata> {
    match t.operation {
        Operation::Square => None,
        Operation::Sqrt => None,
        Operation::Double => None,
        Operation::Factorial => Some(Metadata::FactorialN { n: spec_factorial_n(t.input) }),
        Operation::VectorSum => match t.values {
            Some(vs) => if spec_num_count(vs@) == 0 {
                Some(Metadata::Warning { which: WarningKind::VectorSumNoNumericValues })
            } else {
                Some(
                    Metadata::VectorStats {
                        count: spec_num_count(vs@) as u64,
                        min: spec_min_bits(vs@),
                        max: spec_max_bits(vs@),
                        average: div_bits(
                            spec_sum_bits(vs@),
                            from_u64_bits(spec_num_count(vs@) as u64),
                        ),
                    },
                )
            },
            None => Some(Metadata::Warning { which: WarningKind::VectorSumMissingValues }),
        },
        Operation::Mean => match t.values {
            Some(vs) => if spec_num_count(vs@) == 0 {
                Some(Metadata::Warning { which: WarningKind::MeanNoNumericValues })
            } else {
                Some(Metadata::MeanCount { count: spec_num_count(vs@) as u64 })
            },
            None => Some(Metadata::Warning { which: WarningKind::MeanMissingValues }),
        },
    }
}

/// The computation a task asks for is a pure function of the task: the
/// output and metadata are pinned by `spec_output` and `spec_meta`, so two
/// computations of the same task yield bit-identical answers.
pub proof fn lemma_compute_deterministic(
    t: Task,
    r1: (u64, Option<Metadata>),
    r2: (u64, Option<Metadata>),
)
    requires
        r1.0 == spec_output(t),
        r1.1 == spec_meta(t),
        r2.0 == spec_output(t),
        r2.1 == spec_meta(t),
    ensures
        r1 == r2,
{
}

/// Maps a task to its numeric output (a binary64 bit pattern) and optional
/// structured metadata. Pure and total: no input fails, malformed payloads
/// fall back to echoing the task input with a warning.
pub fn compute(task: &Task) -> (r: (u64, Option<Metadata>))
    ensures
        r.0 == spec_output(*task),
        r.1 == spec_meta(*task),
{
    match task.operation {
        Operation::Square => (f64_mul(task.input, task.input), None),
        Operation::Sqrt => (f64_sqrt(task.input), None),
        Operation::Double => (f64_mul(task.input, F64_TWO_BITS), None),
        Operation::Factorial => {
            let n: u64 = if f64_lt(task.input, F64_ZERO_BITS) {
                0
            } else {
                f64_floor_to_u64(task.input)
            };
            let mut acc: u64 = F64_ONE_BITS;
            let mut i: u64 = 1;
            while i < n
                invariant
                    1 <= i,
                    i <= n || i == 1,
                    acc == spec_fact_bits(i),
                decreases n - i,
            {
                i = i + 1;
                acc = f64_mul(acc, f64_from_u64(i));
            }
            assert(spec_fact_bits(0) == spec_fact_bits(1));
            (acc, Some(Metadata::FactorialN { n }))
        },
        Operation::VectorSum => match &task.values {
            None => (
                task.input,
                Some(Metadata::Warning { which: WarningKind::VectorSumMissingValues }),
            ),
            Some(vs) => {
                let ghost entries: Seq<PayloadEntry> = vs@;
                let mut sum: u64 = F64_ZERO_BITS;
                let mut minb: u64 = F64_POS_INF_BITS;
                let mut maxb: u64 = F64_NEG_INF_BITS;
                let mut count: u64 = 0;
                let mut j: usize = 0;
                while j < vs.len()
                    invariant
                        j <= vs.len(),
                        entries == vs@,
                        count as nat == spec_num_count(entries.take(j as int)),
                        count <= j,
                        sum == spec_sum_bits(entries.take(j as int)),
                        minb == spec_min_bits(entries.take(j as int)),
                        maxb == spec_max_bits(entries.take(j as int)),
                    decreases vs.len() - j,
                {
                    proof {
                        assert(entries.take(j + 1).drop_last() =~= entries.take(j as int));
                        assert(entries.take(j + 1).last() == entries[j as int]);
                    }
                    match vs[j] {
                        PayloadEntry::Num(f) => {
                            sum = f64_add(sum, f);
                            if f64_lt(f, minb) {
                                minb = f;
                            }
                            if f64_lt(maxb, f) {
                                maxb = f;
                            }
                            count = count + 1;
                        },
                        PayloadEntry::NonNumeric => {},
                    }
                    j = j + 1;
                }
                proof {
                    assert(entries.take(vs.len() as int) =~= vs@);
                }
                if count == 0 {
                    (
                        task.input,
                        Some(Metadata::Warning { which: WarningKind::VectorSumNoNumericValues }),
                    )
                } else {
                    let average = f64_div(sum, f64_from_u64(count));
                    (sum, Some(Metadata::VectorStats { count, min: minb, max: maxb, average }))
                }
            },
        },
        Operation::Mean => match &task.values {
            None => (task.input, Some(Metadata::Warning { which: WarningKind::MeanMissingValues })),
            Some(vs) => {
                let ghost entries: Seq<PayloadEntry> = vs@;
                let mut sum: u64 = F64_ZERO_BITS;
                let mut count: u64 = 0;
                let mut j: usize = 0;
                while j < vs.len()
                    invariant
                        j <= vs.len(),
                        entries == vs@,
                        count as nat == spec_num_count(entries.take(j as int)),
                        count <= j,
                        sum == spec_sum_bits(entries.take(j as int)),
                    decreases vs.len() - j,
                {
                    proof {
                        assert(entries.take(j + 1).drop_last() =~= entries.take(j as int));
                        assert(entries.take(j + 1).last() == entries[j as int]);
                    }
                    match vs[j] {
                        PayloadEntry::Num(f) => {
                            sum = f64_add(sum, f);
                            count = count + 1;
                        },
                        PayloadEntry::NonNumeric => {},
                    }
                    j = j + 1;
                }
                proof {
                    assert(entries.take(vs.len() as int) =~= vs@);
                }
                if count == 0 {
                    (
                        task.input,
                        Some(Metadata::Warning { which: WarningKind::MeanNoNumericValues }),
                    )
                } else {
                    (f64_div(sum, f64_from_u64(count)), Some(Metadata::MeanCount { count }))
                }
            },
        },
    }
}

} // verus!
