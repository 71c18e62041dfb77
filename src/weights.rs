//! Weight of submitting one page of an unsigned election solution.
use vstd::prelude::*;

verus! {

/// `a + b`, or `u64::MAX` where that overflows.
pub open spec fn sat_add(a: int, b: int) -> int {
    if a + b > u64::MAX { u64::MAX as int } else { a + b }
}

/// `a * b`, or `u64::MAX` where that overflows.
pub open spec fn sat_mul(a: int, b: int) -> int {
    if a * b > u64::MAX { u64::MAX as int } else { a * b }
}

/// Saturating product of two `u64`.
fn mul_sat(a: u64, b: u64) -> (r: u64)
    ensures
        r == sat_mul(a as int, b as int),
{
    match a.checked_mul(b) {
        Some(x) => x,
        None => u64::MAX,
    }
}

/// Execution time and proof size of a call.
#[derive(Clone, Copy, Debug, PartialEq, Eq, Structural)]
pub struct Weight {
    pub ref_time: u64,
    pub proof_size: u64,
}

impl Weight {
    pub fn from_parts(ref_time: u64, proof_size: u64) -> (r: Weight)
        ensures
            r.ref_time == ref_time,
            r.proof_size == proof_size,
    {
        Weight { ref_time, proof_size }
    }

    pub fn zero() -> (r: Weight)
        ensures
            r.ref_time == 0,
            r.proof_size == 0,
    {
        Weight { ref_time: 0, proof_size: 0 }
    }

    /// Component-wise saturating sum.
    pub fn saturating_add(self, rhs: Weight) -> (r: Weight)
        ensures
            r.ref_time == sat_add(self.ref_time as int, rhs.ref_time as int),
            r.proof_size == sat_add(self.proof_size as int, rhs.proof_size as int),
    {
        Weight {
            ref_time: self.ref_time.saturating_add(rhs.ref_time),
            proof_size: self.proof_size.saturating_add(rhs.proof_size),
        }
    }

    /// Both components times `b`, saturating.
    pub fn saturating_mul(self, b: u64) -> (r: Weight)
        ensures
            r.ref_time == sat_mul(self.ref_time as int, b as int),
            r.proof_size == sat_mul(self.proof_size as int, b as int),
    {
        Weight {
            ref_time: mul_sat(self.ref_time, b),
            proof_size: mul_sat(self.proof_size, b),
        }
    }
}

/// Cost of one database read and of one database write.
#[derive(Clone, Copy, Debug, PartialEq, Eq, Structural)]
pub struct RuntimeDbWeight {
    pub read: u64,
    pub write: u64,
}

impl RuntimeDbWeight {
    /// Weight of `r` reads.
    pub fn reads(&self, r: u64) -> (w: Weight)
        ensures
            w.ref_time == sat_mul(self.read as int, r as int),
            w.proof_size == 0,
    {
        Weight::from_parts(mul_sat(self.read, r), 0)
    }

    /// Weight of `n` writes.
    pub fn writes(&self, n: u64) -> (w: Weight)
        ensures
            w.ref_time == sat_mul(self.write as int, n as int),
            w.proof_size == 0,
    {
        Weight::from_parts(mul_sat(self.write, n), 0)
    }
}

/// Measured execution time of `submit_page_unsigned` for `v` voters, with
/// database reads and writes priced by `db`.
pub open spec fn submit_page_ref_time(v: int, db: RuntimeDbWeight) -> int {
    sat_add(
        sat_add(sat_add(3_157_322_580, 4_146_169 * v), sat_mul(db.read as int, 7)),
        sat_mul(db.write as int, 3),
    )
}

/// Measured proof size of `submit_page_unsigned` for `v` voters and `t` targets.
pub open spec fn submit_page_proof_size(v: int, t: int) -> int {
    15_334 + 10 * t + 71 * v
}

/// Weight functions of the unsigned phase of the multi-block election.
pub trait WeightInfo {
    fn submit_page_unsigned(v: u32, t: u32, db: RuntimeDbWeight) -> Weight;
}

/// Weights measured for the unsigned phase of the multi-block election.
pub struct SubstrateWeight;

impl WeightInfo for SubstrateWeight {
    fn submit_page_unsigned(v: u32, t: u32, db: RuntimeDbWeight) -> Weight {
        SubstrateWeight::submit_page_weight(v, t, db)
    }
}

/// No weight at all, for tests.
impl WeightInfo for () {
    fn submit_page_unsigned(_v: u32, _t: u32, _db: RuntimeDbWeight) -> Weight {
        Weight::zero()
    }
}

impl SubstrateWeight {
    /// Weight of submitting one page of an unsigned solution for `v` voters
    /// and `t` targets.
    pub fn submit_page_weight(v: u32, t: u32, db: RuntimeDbWeight) -> (r: Weight)
        ensures
            r.ref_time == submit_page_ref_time(v as int, db),
            r.proof_size == submit_page_proof_size(v as int, t as int),
    {
        assert(4_146_169 * (v as int) <= 4_146_169 * 0xffff_ffff) by (nonlinear_arith)
            requires v as int <= 0xffff_ffff;
        assert(71 * (v as int) <= 71 * 0xffff_ffff) by (nonlinear_arith)
            requires v as int <= 0xffff_ffff;
        assert(10 * (t as int) <= 10 * 0xffff_ffff) by (nonlinear_arith)
            requires t as int <= 0xffff_ffff;
        Weight::from_parts(3_157_322_580, 0)
            .saturating_add(Weight::from_parts(0, 15334))
            .saturating_add(Weight::from_parts(4_146_169, 0).saturating_mul(v as u64))
            .saturating_add(db.reads(7))
            .saturating_add(db.writes(3))
            .saturating_add(Weight::from_parts(0, 10).saturating_mul(t as u64))
            .saturating_add(Weight::from_parts(0, 71).saturating_mul(v as u64))
    }
}

} // verus!
