//! Jump risk arithmetic, held as exact fractions of unsigned integers.
//!
//! A risk is `kills² / jumps + baseline` (with the kill count carried forward
//! undivided when no jumps were seen), and the baseline is the galaxy-wide
//! ratio of kills to jumps, or one hundredth when no jumps were seen.
use vstd::prelude::*;

verus! {

/// A non-negative rational number `numerator / denominator`.
#[derive(Clone, Copy, Debug, PartialEq, Eq, Structural)]
pub struct Fraction {
    pub numerator: u128,
    pub denominator: u128,
}

impl Fraction {
    pub open spec fn wf(self) -> bool {
        self.denominator > 0
    }

    /// Builds `numerator / denominator`.
    pub fn new(numerator: u128, denominator: u128) -> (r: Fraction)
        requires
            denominator > 0,
        ensures
            r.numerator == numerator,
            r.denominator == denominator,
            r.wf(),
    {
        Fraction { numerator, denominator }
    }
}

/// `a / b == c / d` over positive denominators.
pub open spec fn same_value(a: int, b: int, c: int, d: int) -> bool {
    a * d == c * b
}

/// `a / b <= c / d` over positive denominators.
pub open spec fn value_le(a: int, b: int, c: int, d: int) -> bool {
    a * d <= c * b
}

/// The risk of one jump edge: the per-edge part plus the galaxy baseline.
#[derive(Clone, Copy, Debug, PartialEq, Eq, Structural)]
pub struct JumpRisk {
    pub per_edge: Fraction,
    pub baseline: Fraction,
}

impl JumpRisk {
    pub open spec fn wf(self) -> bool {
        self.per_edge.wf() && self.baseline.wf()
    }

    /// Numerator of the sum `per_edge + baseline` over the common denominator.
    pub open spec fn numerator_spec(self) -> int {
        self.per_edge.numerator * self.baseline.denominator
            + self.baseline.numerator * self.per_edge.denominator
    }

    /// The common denominator of `per_edge + baseline`.
    pub open spec fn denominator_spec(self) -> int {
        self.per_edge.denominator * self.baseline.denominator
    }

    /// This risk equals `n / d`.
    pub open spec fn equals(self, n: int, d: int) -> bool {
        same_value(self.numerator_spec(), self.denominator_spec(), n, d)
    }

    /// This risk is at most `other`.
    pub open spec fn le(self, other: JumpRisk) -> bool {
        value_le(
            self.numerator_spec(),
            self.denominator_spec(),
            other.numerator_spec(),
            other.denominator_spec(),
        )
    }
}

/// The divisor of the per-edge part: the jump count, or 1 when no jump was seen.
pub open spec fn jump_divisor(jumps: u32) -> int {
    if jumps > 0 {
        jumps as int
    } else {
        1
    }
}

/// The risk of entering a system with `kills` kills and `jumps` jumps in the last hour.
pub open spec fn total_risk(kills: u32, jumps: u32, baseline: Fraction) -> JumpRisk {
    JumpRisk {
        per_edge: Fraction {
            numerator: (kills * kills) as u128,
            denominator: jump_divisor(jumps) as u128,
        },
        baseline,
    }
}

/// The galaxy baseline: `galaxy_kills / galaxy_jumps`, or `1 / 100` when no jump was seen.
pub open spec fn baseline_spec(galaxy_kills: u128, galaxy_jumps: u128) -> Fraction {
    if galaxy_jumps > 0 {
        Fraction { numerator: galaxy_kills, denominator: galaxy_jumps }
    } else {
        Fraction { numerator: 1, denominator: 100 }
    }
}

/// Risk of a jump into a system with the given activity counters.
pub fn calculate_total_risk(kills: u32, jumps: u32, baseline_jump_risk: Fraction) -> (r: JumpRisk)
    requires
        baseline_jump_risk.wf(),
    ensures
        r == total_risk(kills, jumps, baseline_jump_risk),
        r.wf(),
{
    let k = kills as u128;
    assert(k * k <= 0xffff_ffff_ffff_ffffu128) by (nonlinear_arith)
        requires
            k <= 0xffff_ffffu128,
    ;
    let kills_squared: u128 = k * k;
    let divisor: u128 = if jumps > 0 {
        jumps as u128
    } else {
        1
    };
    JumpRisk {
        per_edge: Fraction { numerator: kills_squared, denominator: divisor },
        baseline: baseline_jump_risk,
    }
}

/// Galaxy-wide baseline risk from the hourly kill and jump totals.
pub fn baseline_jump_risk(galaxy_kills: u128, galaxy_jumps: u128) -> (r: Fraction)
    ensures
        r == baseline_spec(galaxy_kills, galaxy_jumps),
        r.wf(),
{
    if galaxy_jumps > 0 {
        Fraction { numerator: galaxy_kills, denominator: galaxy_jumps }
    } else {
        Fraction { numerator: 1, denominator: 100 }
    }
}

/// Without kills, the risk is the baseline.
pub proof fn lemma_risk_without_kills(jumps: u32, baseline: Fraction)
    requires
        baseline.wf(),
    ensures
        total_risk(0, jumps, baseline).equals(
            baseline.numerator as int,
            baseline.denominator as int,
        ),
{
    let r = total_risk(0, jumps, baseline);
    let d = jump_divisor(jumps);
    let bn = baseline.numerator as int;
    let bd = baseline.denominator as int;
    assert(r.per_edge.numerator == 0);
    assert(r.numerator_spec() == 0 * bd + bn * d);
    assert((0 * bd + bn * d) * bd == bn * (d * bd)) by (nonlinear_arith);
}

/// Without jumps, the risk is `kills² + baseline`.
pub proof fn lemma_risk_without_jumps(kills: u32, baseline: Fraction)
    requires
        baseline.wf(),
    ensures
        total_risk(kills, 0, baseline).equals(
            kills * kills * baseline.denominator + baseline.numerator,
            baseline.denominator as int,
        ),
{
    let k = kills as int;
    assert(0 <= k * k <= 0xffff_ffff_ffff_ffff) by (nonlinear_arith)
        requires
            0 <= k <= 0xffff_ffff,
    ;
    let r = total_risk(kills, 0, baseline);
    let bn = baseline.numerator as int;
    let bd = baseline.denominator as int;
    assert(r.per_edge.numerator == k * k);
    assert(r.numerator_spec() == k * k * bd + bn * 1);
    assert(r.denominator_spec() == 1 * bd);
    assert((k * k * bd + bn * 1) * bd == (k * k * bd + bn) * (1 * bd)) by (nonlinear_arith);
}

/// With jumps, the risk is `kills² / jumps + baseline`.
pub proof fn lemma_risk_with_jumps(kills: u32, jumps: u32, baseline: Fraction)
    requires
        baseline.wf(),
        jumps > 0,
    ensures
        total_risk(kills, jumps, baseline).equals(
            kills * kills * baseline.denominator + baseline.numerator * jumps,
            jumps * baseline.denominator,
        ),
{
    let k = kills as int;
    assert(0 <= k * k <= 0xffff_ffff_ffff_ffff) by (nonlinear_arith)
        requires
            0 <= k <= 0xffff_ffff,
    ;
    let r = total_risk(kills, jumps, baseline);
    assert(r.per_edge.numerator == k * k);
    assert(r.per_edge.denominator == jumps);
}

/// More kills never lower the risk.
pub proof fn lemma_risk_monotone_in_kills(k1: u32, k2: u32, jumps: u32, baseline: Fraction)
    requires
        baseline.wf(),
        k1 <= k2,
    ensures
        total_risk(k1, jumps, baseline).le(total_risk(k2, jumps, baseline)),
{
    let a = k1 as int;
    let b = k2 as int;
    assert(0 <= a * a <= b * b <= 0xffff_ffff_ffff_ffff) by (nonlinear_arith)
        requires
            0 <= a <= b <= 0xffff_ffff,
    ;
    let d = jump_divisor(jumps);
    let bn = baseline.numerator as int;
    let bd = baseline.denominator as int;
    let n1 = a * a * bd + bn * d;
    let n2 = b * b * bd + bn * d;
    assert(n1 <= n2) by (nonlinear_arith)
        requires
            a * a <= b * b,
            bd > 0,
            n1 == a * a * bd + bn * d,
            n2 == b * b * bd + bn * d,
    ;
    assert(n1 * (d * bd) <= n2 * (d * bd)) by (nonlinear_arith)
        requires
            n1 <= n2,
            d > 0,
            bd > 0,
    ;
}

/// With at least one kill, more jumps never raise the risk.
pub proof fn lemma_risk_antitone_in_jumps(kills: u32, j1: u32, j2: u32, baseline: Fraction)
    requires
        baseline.wf(),
        kills > 0,
        j1 <= j2,
    ensures
        total_risk(kills, j2, baseline).le(total_risk(kills, j1, baseline)),
{
    let k = kills as int;
    assert(0 <= k * k <= 0xffff_ffff_ffff_ffff) by (nonlinear_arith)
        requires
            0 <= k <= 0xffff_ffff,
    ;
    let s = k * k;
    let d1 = jump_divisor(j1);
    let d2 = jump_divisor(j2);
    assert(1 <= d1 <= d2);
    let bn = baseline.numerator as int;
    let bd = baseline.denominator as int;
    // s/d2 + bn/bd <= s/d1 + bn/bd
    assert((s * bd + bn * d2) * (d1 * bd) <= (s * bd + bn * d1) * (d2 * bd)) by (nonlinear_arith)
        requires
            s >= 0,
            bn >= 0,
            bd > 0,
            1 <= d1 <= d2,
    ;
}

} // verus!
