//! The aggregation of several weighted data sets into one flat residual
//! vector for the optimizer.
use vstd::prelude::*;
use std::rc::Rc;
use crate::num::{Num, Residual, q_add, q_mul, q_div, q_div_int, tdiv, iabs, SCALE, M_MAX};
use crate::loss::Loss;
use crate::dataset::DataSet;
use crate::model::ThermoModel;
use crate::EstimatorError;
use vstd::arithmetic::div_mod::{lemma_div_by_multiple, lemma_div_multiples_vanish_fancy,
    lemma_fundamental_div_mod};

verus! {

/// The sum of a weight list, folded left to right in the saturating
/// fixed-point addition.
pub open spec fn weights_sum(w: Seq<Num>) -> int
    decreases w.len(),
{
    if w.len() == 0 {
        0
    } else {
        q_add(weights_sum(w.drop_last()), w.last()@)
    }
}

/// The sum of the stored weights.
pub fn sum_weights(w: &Vec<Num>) -> (s: Num)
    ensures
        s@ == weights_sum(w@),
{
    let mut s = Num::zero();
    let mut i: usize = 0;
    while i < w.len()
        invariant
            i <= w@.len(),
            s@ == weights_sum(w@.subrange(0, i as int)),
        decreases w@.len() - i,
    {
        proof {
            assert(w@.subrange(0, i + 1).drop_last() =~= w@.subrange(0, i as int));
        }
        s = s.add(w[i]);
        i += 1;
    }
    proof {
        assert(w@.subrange(0, w@.len() as int) =~= w@);
    }
    s
}

/// What scaling one residual entry by a factor yields; the invalid marker
/// stays invalid.
pub open spec fn scaled_spec(e: Option<int>, factor: int) -> Option<int> {
    match e {
        None => None,
        Some(v) => Some(q_mul(v, factor)),
    }
}

/// Scale every entry of a residual block by a factor, in place.
pub fn scale_residuals(res: &mut Vec<Residual>, factor: Num)
    ensures
        final(res)@.len() == old(res)@.len(),
        forall|i: int|
            0 <= i < final(res)@.len() ==> (#[trigger] final(res)@[i])@ == scaled_spec(
                old(res)@[i]@,
                factor@,
            ),
{
    let n = res.len();
    let mut i: usize = 0;
    while i < n
        invariant
            n == res@.len(),
            res@.len() == old(res)@.len(),
            i <= n,
            forall|j: int|
                0 <= j < i ==> (#[trigger] res@[j])@ == scaled_spec(old(res)@[j]@, factor@),
            forall|j: int| i <= j < n ==> res@[j] == old(res)@[j],
        decreases n - i,
    {
        let ne = match res[i] {
            Residual::Invalid => Residual::Invalid,
            Residual::Finite(v) => Residual::Finite(v.mul(factor)),
        };
        res[i] = ne;
        i += 1;
    }
}

/// The length of the flat residual vector an estimator produces: the sum of
/// its data sets' residual lengths, in order.
pub open spec fn total_len(data: Seq<Rc<DataSet>>) -> int
    decreases data.len(),
{
    if data.len() == 0 {
        0
    } else {
        total_len(data.drop_last()) + data.last().residual_len()
    }
}

/// The entry views of a residual vector.
pub open spec fn vals(s: Seq<Residual>) -> Seq<Option<int>> {
    Seq::new(s.len(), |i: int| s[i]@)
}

/// Whether the flat entry sequence `v` is the in-order concatenation of one
/// scaled block per data set: each block has its data set's residual length
/// and is, entry for entry, some cost vector scaled by the data set's raw
/// weight divided by `wsum`.
pub open spec fn is_scaled_concat(
    data: Seq<Rc<DataSet>>,
    w: Seq<Num>,
    wsum: int,
    v: Seq<Option<int>>,
) -> bool
    decreases data.len(),
{
    if data.len() == 0 {
        v.len() == 0
    } else {
        exists|prefix: Seq<Option<int>>, block: Seq<Option<int>>|
            {
                &&& v == #[trigger] (prefix + block)
                &&& is_scaled_concat(data.drop_last(), w.drop_last(), wsum, prefix)
                &&& block.len() == data.last().residual_len()
                &&& exists|c: Seq<Option<int>>|
                    {
                        &&& #[trigger] c.len() == block.len()
                        &&& forall|j: int|
                            0 <= j < block.len() ==> #[trigger] block[j] == scaled_spec(
                                c[j],
                                q_div(w.last()@, wsum),
                            )
                    }
            }
    }
}

/// A collection of shared data-set handles with a parallel list of raw
/// weights and one of losses, evaluated together against one model.
/// Weights are normalized by their current sum on every evaluation, never at
/// construction, so changing the list between calls changes the
/// normalization at once.
pub struct Estimator {
    data: Vec<Rc<DataSet>>,
    weights: Vec<Num>,
    losses: Vec<Loss>,
}

impl Estimator {
    /// The three parallel lists agree in length.
    pub open spec fn well_formed(&self) -> bool {
        &&& self.weights_spec().len() == self.datasets_spec().len()
        &&& self.losses_spec().len() == self.datasets_spec().len()
    }

    /// The stored data-set handles.
    pub closed spec fn datasets_spec(&self) -> Seq<Rc<DataSet>> {
        self.data@
    }

    /// The stored raw weights.
    pub closed spec fn weights_spec(&self) -> Seq<Num> {
        self.weights@
    }

    /// The stored losses.
    pub closed spec fn losses_spec(&self) -> Seq<Loss> {
        self.losses@
    }

    /// A new estimator over data sets with their weights and losses; the
    /// three lists must be of one length.
    pub fn new(data: Vec<Rc<DataSet>>, weights: Vec<Num>, losses: Vec<Loss>) -> (r: Result<
        Estimator,
        EstimatorError,
    >)
        ensures
            match r {
                Ok(e) => {
                    &&& data@.len() == weights@.len()
                    &&& data@.len() == losses@.len()
                    &&& e.well_formed()
                    &&& e.datasets_spec() == data@
                    &&& e.weights_spec() == weights@
                    &&& e.losses_spec() == losses@
                },
                Err(e) => {
                    &&& e == EstimatorError::IncompatibleInput
                    &&& (data@.len() != weights@.len() || data@.len() != losses@.len())
                },
            },
    {
        if weights.len() != data.len() || losses.len() != data.len() {
            return Err(EstimatorError::IncompatibleInput);
        }
        Ok(Estimator { data, weights, losses })
    }

    /// Add a data set handle with its weight and loss.
    pub fn add_data(&mut self, data: Rc<DataSet>, weight: Num, loss: Loss)
        requires
            old(self).well_formed(),
        ensures
            final(self).well_formed(),
            final(self).datasets_spec() == old(self).datasets_spec().push(data),
            final(self).weights_spec() == old(self).weights_spec().push(weight),
            final(self).losses_spec() == old(self).losses_spec().push(loss),
    {
        self.data.push(data);
        self.weights.push(weight);
        self.losses.push(loss);
    }

    /// The stored data-set handles.
    pub fn datasets(&self) -> (r: &Vec<Rc<DataSet>>)
        ensures
            r@ == self.datasets_spec(),
    {
        &self.data
    }

    /// The flat residual vector of all data sets against one model: each
    /// data set's cost, scaled entry for entry by its weight divided by the
    /// current sum of all weights, concatenated in insertion order — as
    /// [`is_scaled_concat`] states.  If any data set's evaluation fails the
    /// whole aggregation fails; no partial result is returned.
    pub fn cost<M: ThermoModel>(&self, model: &M) -> (r: Result<Vec<Residual>, EstimatorError>)
        requires
            self.well_formed(),
        ensures
            match r {
                Ok(v) => {
                    &&& v@.len() == total_len(self.datasets_spec())
                    &&& is_scaled_concat(
                        self.datasets_spec(),
                        self.weights_spec(),
                        weights_sum(self.weights_spec()),
                        vals(v@),
                    )
                },
                Err(e) => e == EstimatorError::ModelError,
            },
    {
        let mut out: Vec<Residual> = Vec::new();
        let mut i: usize = 0;
        while i < self.data.len()
            invariant
                self.well_formed(),
                i <= self.data@.len(),
                out@.len() == total_len(self.data@.subrange(0, i as int)),
                is_scaled_concat(
                    self.data@.subrange(0, i as int),
                    self.weights@.subrange(0, i as int),
                    weights_sum(self.weights@),
                    vals(out@),
                ),
            decreases self.data@.len() - i,
        {
            let w_sum = sum_weights(&self.weights);
            let mut block = match self.data[i].cost(model, self.losses[i]) {
                Ok(c) => c,
                Err(e) => {
                    return Err(e);
                },
            };
            let ghost unscaled = vals(block@);
            let factor = self.weights[i].div(w_sum);
            scale_residuals(&mut block, factor);
            let ghost scaled = vals(block@);
            let ghost out_pre = vals(out@);
            proof {
                assert(self.data@.subrange(0, i + 1).drop_last() =~= self.data@.subrange(
                    0,
                    i as int,
                ));
                assert(self.weights@.subrange(0, i + 1).drop_last() =~= self.weights@.subrange(
                    0,
                    i as int,
                ));
            }
            out.append(&mut block);
            proof {
                assert(vals(out@) =~= out_pre + scaled);
                assert(unscaled.len() == scaled.len());
                assert(forall|j: int|
                    0 <= j < scaled.len() ==> #[trigger] scaled[j] == scaled_spec(
                        unscaled[j],
                        q_div(self.weights@.subrange(0, i + 1).last()@, weights_sum(self.weights@)),
                    ));
                assert(is_scaled_concat(
                    self.data@.subrange(0, i + 1),
                    self.weights@.subrange(0, i + 1),
                    weights_sum(self.weights@),
                    vals(out@),
                ));
            }
            i += 1;
        }
        proof {
            assert(self.data@.subrange(0, self.data@.len() as int) =~= self.data@);
            assert(self.weights@.subrange(0, self.weights@.len() as int) =~= self.weights@);
        }
        Ok(out)
    }
}

/// With two data sets of one common positive weight, the aggregation scales
/// each block by exactly one half: the normalized weight is one half on the
/// nose, and scaling any entry by it is exact truncating division by two —
/// the concatenation of the two halved cost vectors, their simple average in
/// the weighting.
pub proof fn lemma_equal_weights_average(w: Num, e: int)
    requires
        0 < w@ <= (M_MAX as int) / 2,
    ensures
        q_div(w@, weights_sum(seq![w, w])) == (SCALE as int) / 2,
        q_mul(e, q_div(w@, weights_sum(seq![w, w]))) == q_div_int(e, 2),
{
    let s = seq![w, w];
    assert(s.drop_last() =~= seq![w]);
    assert(seq![w].drop_last() =~= Seq::<Num>::empty());
    assert(weights_sum(Seq::<Num>::empty()) == 0);
    assert(seq![w].last() == w);
    assert(weights_sum(seq![w]) == q_add(0, w@));
    assert(s.last() == w);
    assert(weights_sum(s) == q_add(q_add(0, w@), w@));
    let total = 2 * w@;
    assert(weights_sum(s) == total);
    // The normalized weight w / (2w) is exactly one half.
    let half = (SCALE as int) / 2;
    assert(half == 500_000_000);
    assert(half * total == w@ * (SCALE as int)) by (nonlinear_arith)
        requires
            half == 500_000_000,
            total == 2 * w@,
    ;
    lemma_div_by_multiple(half, total);
    assert(tdiv(w@ * (SCALE as int), total) == half) by {
        assert(w@ * (SCALE as int) >= 0) by (nonlinear_arith)
            requires
                w@ > 0,
        ;
        assert(iabs(w@ * (SCALE as int)) / iabs(total) == (half * total) / total);
    }
    assert(q_div(w@, total) == half);
    // Scaling by one half is exact division by two.
    let k = iabs(e) / 2;
    let b = iabs(e) % 2;
    lemma_fundamental_div_mod(iabs(e), 2);
    assert(iabs(e) * half == (SCALE as int) * k + b * half) by (nonlinear_arith)
        requires
            iabs(e) == 2 * k + b,
            half == 500_000_000,
    ;
    lemma_div_multiples_vanish_fancy(k, b * half, SCALE as int);
    assert((iabs(e) * half) / (SCALE as int) == k);
    assert(iabs(e * half) == iabs(e) * half && ((e * half < 0) <==> (e < 0)) && ((e * half > 0)
        <==> (e > 0))) by (nonlinear_arith)
        requires
            half == 500_000_000,
    ;
    assert(tdiv(e * half, SCALE as int) == tdiv(e, 2));
}

} // verus!
