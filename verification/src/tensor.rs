//! The feature tensor: the whole dataset precomputed once into a fixed
//! row-major `[n_bars * dim]` observation matrix (plus the close series for the
//! reward), so each step is a constant-time row index. The cells are whatever
//! value type the caller computes; the shape and the indexing are what is
//! proved here.

use vstd::prelude::*;
use vstd::slice::slice_subrange;
use crate::error::Error;
use crate::spec::ObsSpec;

verus! {

/// A precomputed observation matrix for one dataset.
pub struct FeatureTensor<T> {
    /// Number of bars (rows).
    n_bars: usize,
    /// Observation dimension (columns).
    dim: usize,
    /// Row-major observation data, length `n_bars * dim`.
    data: Vec<T>,
    /// The close price per bar, kept separately for reward computation.
    closes: Vec<T>,
}

/// A tensor under construction, one bar at a time.
pub struct TensorBuilder<T> {
    dim: usize,
    n_bars: usize,
    data: Vec<T>,
    closes: Vec<T>,
}

/// Row `bar` of a row-major matrix of width `dim`.
pub open spec fn row_of<T>(data: Seq<T>, dim: nat, bar: nat) -> Seq<T> {
    data.subrange((bar * dim) as int, (bar * dim + dim) as int)
}

proof fn lemma_row_fits(n: nat, dim: nat, bar: nat)
    requires
        bar < n,
    ensures
        bar * dim + dim <= n * dim,
        0 <= bar * dim,
{
    assert((bar + 1) * dim <= n * dim) by (nonlinear_arith)
        requires
            bar + 1 <= n,
    ;
    assert((bar + 1) * dim == bar * dim + dim) by (nonlinear_arith);
    assert(0 <= bar * dim) by (nonlinear_arith);
}

impl<T: Copy> FeatureTensor<T> {
    /// The shape invariant: `n_bars` rows of `dim` cells, one close per bar.
    pub closed spec fn wf(&self) -> bool {
        &&& self.data@.len() == self.n_bars * self.dim
        &&& self.closes@.len() == self.n_bars
    }

    pub closed spec fn spec_n_bars(&self) -> nat {
        self.n_bars as nat
    }

    pub closed spec fn spec_dim(&self) -> nat {
        self.dim as nat
    }

    /// The closes, one per bar.
    pub closed spec fn spec_closes(&self) -> Seq<T> {
        self.closes@
    }

    /// The observation row of `bar`.
    pub closed spec fn spec_row(&self, bar: nat) -> Seq<T> {
        row_of(self.data@, self.dim as nat, bar)
    }

    /// Number of bars (rows).
    pub fn n_bars(&self) -> (n: usize)
        ensures
            n as nat == self.spec_n_bars(),
    {
        self.n_bars
    }

    /// Observation dimension (columns).
    pub fn dim(&self) -> (d: usize)
        ensures
            d as nat == self.spec_dim(),
    {
        self.dim
    }

    /// The observation row for `bar` (length `dim`).
    pub fn row(&self, bar: usize) -> (r: &[T])
        requires
            self.wf(),
            bar < self.spec_n_bars(),
        ensures
            r@ == self.spec_row(bar as nat),
            r@.len() == self.spec_dim(),
    {
        proof {
            lemma_row_fits(self.n_bars as nat, self.dim as nat, bar as nat);
        }
        let total = self.data.len();
        assert(bar * self.dim + self.dim <= total);
        let start = bar * self.dim;
        slice_subrange(self.data.as_slice(), start, start + self.dim)
    }

    /// The close price of `bar`, kept for the reward.
    pub fn close(&self, bar: usize) -> (c: T)
        requires
            self.wf(),
            bar < self.spec_n_bars(),
        ensures
            c == self.spec_closes()[bar as int],
    {
        self.closes[bar]
    }
}

impl<T: Copy> TensorBuilder<T> {
    pub closed spec fn wf(&self) -> bool {
        &&& self.data@.len() == self.n_bars * self.dim
        &&& self.closes@.len() == self.n_bars
    }

    pub closed spec fn spec_n_bars(&self) -> nat {
        self.n_bars as nat
    }

    pub closed spec fn spec_dim(&self) -> nat {
        self.dim as nat
    }

    /// The row pushed for `bar`.
    pub closed spec fn spec_row(&self, bar: nat) -> Seq<T> {
        row_of(self.data@, self.dim as nat, bar)
    }

    /// The close pushed for `bar`.
    pub closed spec fn spec_close(&self, bar: nat) -> T {
        self.closes@[bar as int]
    }

    /// The closes pushed so far, in bar order.
    pub closed spec fn closes_view(&self) -> Seq<T> {
        self.closes@
    }

    /// An empty tensor whose rows are as wide as the observation of `obs`.
    pub fn for_obs(obs: &ObsSpec) -> (b: TensorBuilder<T>)
        requires
            obs.spec_feature_dim() <= usize::MAX,
        ensures
            b.wf(),
            b.spec_dim() == obs.spec_feature_dim(),
            b.spec_n_bars() == 0,
    {
        TensorBuilder { dim: obs.feature_dim(), n_bars: 0, data: Vec::new(), closes: Vec::new() }
    }

    /// The row width.
    pub fn dim(&self) -> (d: usize)
        ensures
            d as nat == self.spec_dim(),
    {
        self.dim
    }

    /// Append the next bar: its observation row and its close. Earlier rows are
    /// kept as they were.
    pub fn push_bar(&mut self, row: &[T], close: T)
        requires
            old(self).wf(),
            row@.len() == old(self).spec_dim(),
            old(self).spec_n_bars() < usize::MAX,
        ensures
            final(self).wf(),
            final(self).spec_dim() == old(self).spec_dim(),
            final(self).spec_n_bars() == old(self).spec_n_bars() + 1,
            final(self).spec_row(old(self).spec_n_bars()) == row@,
            final(self).spec_close(old(self).spec_n_bars()) == close,
            forall|b: nat|
                b < old(self).spec_n_bars() ==> #[trigger] final(self).spec_row(b) == old(
                    self,
                ).spec_row(b) && final(self).spec_close(b) == old(self).spec_close(b),
    {
        let ghost old_data = self.data@;
        let ghost n = self.n_bars as nat;
        let ghost dim = self.dim as nat;
        let ghost old_closes = self.closes@;
        let mut i: usize = 0;
        while i < row.len()
            invariant
                i <= row@.len(),
                self.dim == dim,
                self.n_bars == n,
                n < usize::MAX,
                self.closes@ == old_closes,
                old_closes.len() == n,
                old_data.len() == n * dim,
                row@.len() == dim,
                self.data@ == old_data + row@.take(i as int),
            decreases row.len() - i,
        {
            self.data.push(row[i]);
            proof {
                assert(row@.take(i as int + 1) =~= row@.take(i as int).push(row@[i as int]));
            }
            i = i + 1;
        }
        self.closes.push(close);
        self.n_bars = self.n_bars + 1;
        proof {
            assert(row@.take(row@.len() as int) =~= row@);
            assert(n * dim + dim == (n + 1) * dim) by (nonlinear_arith);
            assert(self.data@.len() == (n + 1) * dim);
            assert(row_of(self.data@, dim, n) =~= row@);
            assert forall|b: nat| b < n implies #[trigger] row_of(self.data@, dim, b) == row_of(
                old_data,
                dim,
                b,
            ) by {
                lemma_row_fits(n, dim, b);
                assert(row_of(self.data@, dim, b) =~= row_of(old_data, dim, b));
            }
        }
    }

    /// The finished tensor, holding exactly the pushed rows and closes. A
    /// tensor of no bars is refused with `NoData`.
    pub fn finish(self) -> (r: Result<FeatureTensor<T>, Error>)
        requires
            self.wf(),
        ensures
            self.spec_n_bars() == 0 ==> r == Err::<FeatureTensor<T>, Error>(Error::NoData),
            self.spec_n_bars() > 0 ==> (r matches Ok(t) && t.wf() && t.spec_n_bars()
                == self.spec_n_bars() && t.spec_dim() == self.spec_dim() && t.spec_closes() == self.closes_view()
                && (forall|b: nat| b < self.spec_n_bars() ==> #[trigger] t.spec_row(b) == self.spec_row(b))),
    {
        if self.n_bars == 0 {
            return Err(Error::NoData);
        }
        Ok(FeatureTensor { n_bars: self.n_bars, dim: self.dim, data: self.data, closes: self.closes })
    }
}

} // verus!
