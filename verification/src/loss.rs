//! Robust loss transforms applied elementwise to residual vectors.
use vstd::prelude::*;
use crate::num::{Num, Residual, q_add, q_sub, q_div, iabs, tdiv, SCALE, M_MAX};
use vstd::arithmetic::div_mod::{lemma_div_is_ordered, lemma_div_by_multiple};
use vstd::arithmetic::mul::lemma_mul_inequality;

verus! {

/// A stateless loss tag with no identity beyond its parameters: either the
/// identity transform, or the Huber transform with a scaling factor.
#[derive(Clone, Copy, Debug, PartialEq, Eq, Structural)]
pub enum Loss {
    Linear,
    Huber(Num),
}

/// What the Huber transform yields on one finite residual: residuals within
/// the scale are kept, larger ones are replaced by `2 * |r| / |s| - 1`, a
/// magnitude that has lost the residual's sign.  The branch test
/// `|r| <= |s|` is the exact form of the squared test `r*r / s*s <= 1`,
/// which truncation would falsify for small residuals.
pub open spec fn huber_spec(s: int, r: int) -> int {
    if iabs(r) <= iabs(s) {
        r
    } else {
        let d = q_div(iabs(r), iabs(s));
        q_sub(q_add(d, d), SCALE as int)
    }
}

/// What a loss yields on one residual-vector entry; an invalid entry passes
/// through every loss unchanged.
pub open spec fn loss_spec(l: Loss, e: Option<int>) -> Option<int> {
    match l {
        Loss::Linear => e,
        Loss::Huber(s) => match e {
            None => None,
            Some(r) => Some(huber_spec(s@, r)),
        },
    }
}

impl Loss {
    /// The Huber loss with the given scaling factor.
    pub fn huber(scaling_factor: Num) -> (l: Loss)
        ensures
            l == Loss::Huber(scaling_factor),
    {
        Loss::Huber(scaling_factor)
    }

    /// Transform one finite residual.
    pub fn apply_one(&self, r: Num) -> (out: Num)
        ensures
            Some(out@) == loss_spec(*self, Some(r@)),
    {
        match self {
            Loss::Linear => r,
            Loss::Huber(s) => {
                let ra = r.abs();
                let sa = (*s).abs();
                if ra.le(sa) {
                    r
                } else {
                    let d = ra.div(sa);
                    d.add(d).sub(Num::one())
                }
            },
        }
    }

    /// Transform a residual vector in place, elementwise; entries marked
    /// invalid stay invalid.
    pub fn apply(&self, res: &mut Vec<Residual>)
        ensures
            final(res)@.len() == old(res)@.len(),
            forall|i: int|
                0 <= i < final(res)@.len() ==> (#[trigger] final(res)@[i])@ == loss_spec(
                    *self,
                    old(res)@[i]@,
                ),
    {
        let n = res.len();
        let mut i: usize = 0;
        while i < n
            invariant
                n == res@.len(),
                res@.len() == old(res)@.len(),
                i <= n,
                forall|j: int|
                    0 <= j < i ==> (#[trigger] res@[j])@ == loss_spec(*self, old(res)@[j]@),
                forall|j: int| i <= j < n ==> res@[j] == old(res)@[j],
            decreases n - i,
        {
            let ne = match res[i] {
                Residual::Invalid => Residual::Invalid,
                Residual::Finite(r) => Residual::Finite(self.apply_one(r)),
            };
            res[i] = ne;
            i += 1;
        }
    }
}

/// The linear loss is the identity on every entry, valid or not.
pub proof fn lemma_linear_identity(e: Option<int>)
    ensures
        loss_spec(Loss::Linear, e) == e,
{
}

/// The Huber transform with a positive scale keeps every residual whose
/// magnitude is within the scale; it maps every larger residual to
/// `2 * |r| / s - 1` in the fixed-point arithmetic, a value of at least one,
/// so in particular the sign of a large residual is lost and the output is
/// never negative.
pub proof fn lemma_huber(s: int, r: int)
    requires
        0 < s <= M_MAX as int,
        -(M_MAX as int) <= r <= M_MAX as int,
    ensures
        iabs(r) <= s ==> huber_spec(s, r) == r,
        iabs(r) > s ==> huber_spec(s, r) == q_sub(
            q_add(q_div(iabs(r), s), q_div(iabs(r), s)),
            SCALE as int,
        ),
        iabs(r) > s ==> huber_spec(s, r) >= SCALE as int,
{
    if iabs(r) > s {
        let p = iabs(r) * (SCALE as int);
        lemma_mul_inequality(s + 1, iabs(r), SCALE as int);
        assert(p >= (s + 1) * (SCALE as int));
        lemma_div_is_ordered((s + 1) * (SCALE as int), p, s);
        lemma_div_by_multiple(SCALE as int, s);
        assert((s * (SCALE as int)) / s <= ((s + 1) * (SCALE as int)) / s) by {
            lemma_mul_inequality(s, s + 1, SCALE as int);
            lemma_div_is_ordered(s * (SCALE as int), (s + 1) * (SCALE as int), s);
        }
        assert((SCALE as int) * s == s * (SCALE as int)) by (nonlinear_arith);
        assert(tdiv(p, s) == p / s);
        assert(p / s >= SCALE as int);
    }
}

} // verus!
