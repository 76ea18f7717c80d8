//! The structural-motion driver: a downsampled iterator over the rigid-body
//! motion time series of the primary and secondary mirrors.
use vstd::prelude::*;

verus! {

/// Number of degrees of freedom of the primary mirror's rigid-body motions,
/// which come first in every column; the secondary's follow.
pub const M1_RBM_DOF: usize = 42;

/// Downsampling stride: the series is sampled at 1 kHz and consumed at 5 Hz.
pub const RBM_STEP: usize = 200;

/// Columns skipped at the start of the series: its first 5 seconds, which
/// hold the ramp-up transient.
pub const RBM_SKIP: usize = 5000;

/// Number of indices `start`, `start + RBM_STEP`, ... that are below `n`.
pub open spec fn remaining(n: int, start: int) -> int {
    if start < n {
        (n - start - 1) / (RBM_STEP as int) + 1
    } else {
        0
    }
}

/// The columns at indices `start`, `start + RBM_STEP`, ... that are below
/// the number of columns, in that order.
pub open spec fn strided<T>(columns: Seq<Seq<T>>, start: int) -> Seq<Seq<T>> {
    Seq::new(
        remaining(columns.len() as int, start) as nat,
        |k: int| columns[start + RBM_STEP as int * k],
    )
}

/// The samples a driver built on `columns` yields, in order.
pub open spec fn samples<T>(columns: Seq<Seq<T>>) -> Seq<Seq<T>> {
    strided(columns, RBM_SKIP as int)
}

/// A driver built on more than `RBM_SKIP` columns yields
/// `(N - RBM_SKIP - 1) / RBM_STEP + 1` samples before it is exhausted, `N`
/// being the number of columns, and its k-th sample is the column at index
/// `RBM_SKIP + RBM_STEP * k`.
pub proof fn lemma_long_series_samples<T>(columns: Seq<Seq<T>>)
    requires
        columns.len() > RBM_SKIP,
    ensures
        samples(columns).len() == (columns.len() - RBM_SKIP - 1) / (RBM_STEP as int) + 1,
        forall|k: int|
            0 <= k < samples(columns).len() ==> #[trigger] samples(columns)[k]
                == columns[RBM_SKIP + RBM_STEP * k],
        RBM_SKIP + RBM_STEP * (samples(columns).len() - 1) < columns.len(),
        columns.len() <= RBM_SKIP + RBM_STEP * samples(columns).len(),
{
}

/// A driver built on at most `RBM_SKIP` columns yields no sample: it is
/// exhausted from the start.
pub proof fn lemma_short_series_is_exhausted<T>(columns: Seq<Seq<T>>)
    requires
        columns.len() <= RBM_SKIP,
    ensures
        samples(columns).len() == 0,
{
}

/// The state of a well-formed driver: it has skipped at least the first
/// `RBM_SKIP` columns, every column holds the primary mirror's degrees of
/// freedom, and the samples still to come are every `RBM_STEP`-th column
/// from its cursor on.
pub proof fn lemma_driver_state<T: Copy>(w: WindLoads<T>)
    requires
        w.wf(),
    ensures
        w.cursor() >= RBM_SKIP,
        w.pending() == strided(w.columns(), w.cursor()),
        forall|j: int|
            0 <= j < w.columns().len() ==> #[trigger] w.columns()[j].len() >= M1_RBM_DOF,
{
}

/// Errors of building a structural-motion driver.
#[derive(Debug, Clone, Copy, PartialEq, Eq, Structural)]
pub enum WindLoadsError {
    /// A column holds fewer rows than the primary mirror's degrees of freedom.
    MissingRows,
}

/// Rigid-body motion time series of the two mirrors, one column per time
/// step, yielded every `RBM_STEP` columns after the first `RBM_SKIP`.
pub struct WindLoads<T> {
    rbms: Vec<Vec<T>>,
    step: usize,
    count: usize,
}

impl<T: Copy> WindLoads<T> {
    /// The series, one sequence of rows per column.
    pub closed spec fn columns(&self) -> Seq<Seq<T>> {
        self.rbms@.map_values(|c: Vec<T>| c@)
    }

    /// The samples not yet yielded, in the order they come.
    pub closed spec fn pending(&self) -> Seq<Seq<T>> {
        strided(self.columns(), self.count as int)
    }

    /// Index of the column the next sample is read from.
    pub closed spec fn cursor(&self) -> int {
        self.count as int
    }

    pub closed spec fn wf(&self) -> bool {
        &&& self.step == RBM_STEP
        &&& self.count >= RBM_SKIP
        &&& forall|j: int|
            0 <= j < self.rbms@.len() ==> #[trigger] self.rbms@[j]@.len() >= M1_RBM_DOF
    }

    /// Builds the driver on a series given column by column; every column
    /// must hold at least the primary mirror's degrees of freedom.
    pub fn new(rbms: Vec<Vec<T>>) -> (r: Result<Self, WindLoadsError>)
        ensures
            match r {
                Ok(w) => {
                    &&& w.wf()
                    &&& w.columns() == rbms@.map_values(|c: Vec<T>| c@)
                    &&& w.pending() == samples(w.columns())
                    &&& w.cursor() == RBM_SKIP
                },
                Err(e) => {
                    &&& e == WindLoadsError::MissingRows
                    &&& exists|j: int|
                        0 <= j < rbms@.len() && #[trigger] rbms@[j]@.len() < M1_RBM_DOF
                },
            },
            r is Err <==> exists|j: int|
                0 <= j < rbms@.len() && #[trigger] rbms@[j]@.len() < M1_RBM_DOF,
    {
        let mut j: usize = 0;
        while j < rbms.len()
            invariant
                j <= rbms@.len(),
                forall|k: int| 0 <= k < j ==> #[trigger] rbms@[k]@.len() >= M1_RBM_DOF,
            decreases rbms@.len() - j,
        {
            if rbms[j].len() < M1_RBM_DOF {
                return Err(WindLoadsError::MissingRows);
            }
            j += 1;
        }
        Ok(WindLoads { rbms, step: RBM_STEP, count: RBM_SKIP })
    }

    /// Yields the next sample, or `None` once the series is exhausted; a
    /// returned column holds at least `M1_RBM_DOF` rows.
    pub fn next(&mut self) -> (r: Option<Vec<T>>)
        requires
            old(self).wf(),
        ensures
            final(self).wf(),
            final(self).columns() == old(self).columns(),
            r is None <==> old(self).cursor() >= old(self).columns().len(),
            match r {
                Some(c) => {
                    &&& c@ == old(self).columns()[old(self).cursor()]
                    &&& final(self).cursor() == if old(self).cursor() + RBM_STEP <= usize::MAX {
                        old(self).cursor() + RBM_STEP
                    } else {
                        usize::MAX as int
                    }
                    &&& old(self).pending().len() > 0
                    &&& c@ == old(self).pending()[0]
                    &&& c@.len() >= M1_RBM_DOF
                    &&& final(self).pending() == old(self).pending().drop_first()
                },
                None => {
                    &&& final(self).cursor() == old(self).cursor()
                    &&& old(self).pending().len() == 0
                    &&& final(self).pending() == old(self).pending()
                },
            },
    {
        let i: usize = self.count;
        if i < self.rbms.len() {
            let column = &self.rbms[i];
            let mut out: Vec<T> = Vec::new();
            let mut k: usize = 0;
            while k < column.len()
                invariant
                    k <= column@.len(),
                    out@ == column@.subrange(0, k as int),
                decreases column@.len() - k,
            {
                out.push(column[k]);
                k += 1;
                assert(out@ =~= column@.subrange(0, k as int));
            }
            assert(out@ =~= column@);
            self.count = i.saturating_add(self.step);
            proof {
                let n = self.columns().len() as int;
                assert(self.columns()[i as int] == self.rbms@[i as int]@);
                assert(self.count == i + RBM_STEP || self.count as int >= n);
                assert(old(self).pending().drop_first() =~= self.pending());
            }
            Some(out)
        } else {
            None
        }
    }
}

} // verus!
