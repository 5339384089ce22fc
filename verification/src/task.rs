//! The data the worker exchanges with the coordinator: tasks, results and
//! the structured metadata a computation may attach to its result.
//!
//! Every 64-bit float travels through the library as its bit pattern (a
//! `u64`, see `float_bits`); the process boundary converts between bit
//! patterns and actual floating-point values.
use vstd::prelude::*;

verus! {

/// The closed set of operations a task may request.
#[derive(Clone, Copy, PartialEq, Eq, Structural, Debug)]
pub enum Operation {
    Square,
    Sqrt,
    Double,
    Factorial,
    VectorSum,
    Mean,
}

/// One entry of the `values` array of a task payload: the bit pattern of
/// the 64-bit float the entry holds, or a marker for an entry that is not a
/// number. Non-numeric entries are skipped by every computation that scans
/// the array.
#[derive(Clone, Copy, PartialEq, Eq, Structural, Debug)]
pub enum PayloadEntry {
    Num(u64),
    NonNumeric,
}

/// A unit of work assigned by the coordinator, consumed once and never
/// mutated. `id` is an opaque correlation token. `input` is the bit pattern
/// of the 64-bit float operand. Of the arbitrary structured payload the
/// computation reads only the `values` array: `values` is `None` when the
/// payload has no such array, and otherwise holds its entries in order.
#[derive(Debug)]
pub struct Task {
    pub id: String,
    pub operation: Operation,
    pub input: u64,
    pub price: Option<i64>,
    pub kind: String,
    pub values: Option<Vec<PayloadEntry>>,
    pub required_capabilities: Vec<String>,
}

/// Which degraded case a computation fell back on when the task payload did
/// not provide what the operation needed.
#[derive(Clone, Copy, PartialEq, Eq, Structural, Debug)]
pub enum WarningKind {
    VectorSumMissingValues,
    VectorSumNoNumericValues,
    MeanMissingValues,
    MeanNoNumericValues,
}

impl WarningKind {
    /// The warning text reported with a fallback result.
    pub fn message(&self) -> (r: String)
        ensures
            (*self is VectorSumMissingValues) ==> r@ == "vector_sum payload missing"@,
            (*self is VectorSumNoNumericValues) ==> r@
                == "vector_sum payload missing numeric values"@,
            (*self is MeanMissingValues) ==> r@ == "mean payload missing"@,
            (*self is MeanNoNumericValues) ==> r@ == "mean payload missing numeric values"@,
    {
        match self {
            WarningKind::VectorSumMissingValues => "vector_sum payload missing".to_owned(),
            WarningKind::VectorSumNoNumericValues => "vector_sum payload missing numeric values"
                .to_owned(),
            WarningKind::MeanMissingValues => "mean payload missing".to_owned(),
            WarningKind::MeanNoNumericValues => "mean payload missing numeric values".to_owned(),
        }
    }
}

/// The structured metadata attached to a computed output. Float fields hold
/// bit patterns.
#[derive(Clone, Copy, PartialEq, Eq, Structural, Debug)]
pub enum Metadata {
    /// The integer the factorial was taken of.
    FactorialN { n: u64 },
    /// Statistics over the numeric entries of the `values` array.
    VectorStats { count: u64, min: u64, max: u64, average: u64 },
    /// How many numeric entries the mean was taken over.
    MeanCount { count: u64 },
    /// A fallback result: the output merely echoes the task input.
    Warning { which: WarningKind },
}

/// The worker's answer to a task, produced exactly once per task and handed
/// unchanged both to the coordinator and to the gossip overlay. `output`
/// holds the bit pattern of the 64-bit float output.
#[derive(Debug)]
pub struct ResultData {
    pub id: String,
    pub worker: String,
    pub output: u64,
    pub kind: Option<String>,
    pub payload: Option<Metadata>,
}

/// The task kind assumed when the coordinator does not name one.
pub fn default_kind() -> (r: String)
    ensures
        r@ == "arithmetic"@,
{
    "arithmetic".to_owned()
}

/// A read-only snapshot of the worker's standing with the coordinator.
#[derive(Clone, Copy, PartialEq, Eq, Structural, Debug)]
pub struct Balance {
    pub trust: i64,
    pub tokens: i64,
}

/// Builds a balance snapshot from the coordinator's reply, reading absent
/// fields as zero.
pub fn balance_from_fields(trust: Option<i64>, tokens: Option<i64>) -> (r: Balance)
    ensures
        r.trust == if trust is Some { trust.unwrap() } else { 0i64 },
        r.tokens == if tokens is Some { tokens.unwrap() } else { 0i64 },
{
    Balance {
        trust: match trust {
            Some(t) => t,
            None => 0,
        },
        tokens: match tokens {
            Some(t) => t,
            None => 0,
        },
    }
}

} // verus!
