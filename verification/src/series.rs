//! Fixed-capacity rolling time series.
//!
//! A series always holds exactly as many samples as its capacity. The newest
//! sample sits at the last position with age 0; every push moves the others
//! one position towards the front, ages them by one and drops the sample at
//! the front. A fresh series is filled with zero samples of age 0.

use vstd::prelude::*;

verus! {

/// One point of a series: how many pushes ago it was written, and its value.
#[derive(Clone, Copy, Debug, PartialEq, Eq, Structural)]
pub struct Sample {
    pub age: u64,
    pub value: u64,
}

/// The smaller of two integers.
pub open spec fn min_int(a: int, b: int) -> int {
    if a <= b {
        a
    } else {
        b
    }
}

/// The age that the sample at `index` has in a series of `capacity` samples
/// after `recorded` pushes (`recorded` counted up to `capacity`).
pub open spec fn age_at(capacity: int, recorded: int, index: int) -> int {
    min_int(recorded, capacity - 1 - index)
}

/// The samples of a series after one push of `value`.
pub open spec fn pushed(s: Seq<Sample>, value: u64) -> Seq<Sample> {
    Seq::new(
        s.len(),
        |i: int|
            if i + 1 < s.len() {
                Sample { age: (s[i + 1].age + 1) as u64, value: s[i + 1].value }
            } else {
                Sample { age: 0, value }
            },
    )
}

/// The samples of a series after pushing every value of `values`, first to last.
pub open spec fn pushed_all(s: Seq<Sample>, values: Seq<u64>) -> Seq<Sample>
    decreases values.len(),
{
    if values.len() == 0 {
        s
    } else {
        pushed(pushed_all(s, values.drop_last()), values.last())
    }
}

/// The samples of a series as `(age, value)` pairs.
pub open spec fn pairs_of(s: Seq<Sample>) -> Seq<(u64, u64)> {
    Seq::new(s.len(), |i: int| (s[i].age, s[i].value))
}

/// A series of `capacity` samples that no push has touched.
pub open spec fn zero_filled(capacity: nat) -> Seq<Sample> {
    Seq::new(capacity, |i: int| Sample { age: 0, value: 0 })
}

/// The sum of the values of `s`.
pub open spec fn sum_of(s: Seq<u64>) -> nat
    decreases s.len(),
{
    if s.len() == 0 {
        0
    } else {
        sum_of(s.drop_last()) + s.last() as nat
    }
}

/// `m` is the least value of `s`; of an empty `s`, `m` is 0.
pub open spec fn is_min_of(s: Seq<u64>, m: u64) -> bool {
    if s.len() == 0 {
        m == 0
    } else {
        (forall|i: int| 0 <= i < s.len() ==> m <= #[trigger] s[i]) && s.contains(m)
    }
}

/// `m` is the greatest value of `s`; of an empty `s`, `m` is 0.
pub open spec fn is_max_of(s: Seq<u64>, m: u64) -> bool {
    if s.len() == 0 {
        m == 0
    } else {
        (forall|i: int| 0 <= i < s.len() ==> m >= #[trigger] s[i]) && s.contains(m)
    }
}

/// A rolling window over the most recent samples of one metric.
pub struct RollingSeries {
    samples: Vec<Sample>,
    recorded: usize,
}

impl View for RollingSeries {
    type V = Seq<Sample>;

    closed spec fn view(&self) -> Seq<Sample> {
        self.samples@
    }
}

impl RollingSeries {
    /// How many pushes the series has seen, counted up to its capacity.
    pub closed spec fn recorded_spec(&self) -> nat {
        self.recorded as nat
    }

    /// The series is never empty, its ages follow from the number of pushes,
    /// and the part that no push has reached yet is still zero.
    pub open spec fn wf(&self) -> bool {
        &&& self@.len() > 0
        &&& self.recorded_spec() <= self@.len()
        &&& forall|i: int|
            0 <= i < self@.len() ==> (#[trigger] self@[i]).age as int == age_at(
                self@.len() as int,
                self.recorded_spec() as int,
                i,
            )
        &&& forall|i: int|
            0 <= i < self@.len() - self.recorded_spec() ==> (#[trigger] self@[i]).value == 0
    }

    /// The values that were actually pushed and are still in the window,
    /// oldest first.
    pub open spec fn recorded_values(&self) -> Seq<u64> {
        Seq::new(
            self.recorded_spec(),
            |k: int| self@[self@.len() - self.recorded_spec() + k].value,
        )
    }

    /// `self` is what one push of `value` makes of `before`.
    pub open spec fn is_push_of(&self, before: RollingSeries, value: u64) -> bool {
        &&& self.wf()
        &&& self@ == pushed(before@, value)
        &&& self.recorded_spec() == min_int(before.recorded_spec() as int + 1, before@.len() as int)
    }

    /// A series of `capacity` zero samples.
    pub fn new(capacity: usize) -> (s: RollingSeries)
        requires
            capacity > 0,
        ensures
            s.wf(),
            s@.len() == capacity,
            s.recorded_spec() == 0,
            s@ == zero_filled(capacity as nat),
    {
        let mut samples: Vec<Sample> = Vec::new();
        let mut i: usize = 0;
        while i < capacity
            invariant
                i <= capacity,
                samples@.len() == i,
                forall|k: int| 0 <= k < i ==> samples@[k] == (Sample { age: 0, value: 0 }),
            decreases capacity - i,
        {
            samples.push(Sample { age: 0, value: 0 });
            i += 1;
        }
        assert(samples@ =~= zero_filled(capacity as nat));
        RollingSeries { samples, recorded: 0 }
    }

    /// The number of samples, which never changes.
    pub fn len(&self) -> (n: usize)
        ensures
            n == self@.len(),
    {
        self.samples.len()
    }

    /// The number of pushes seen, counted up to the capacity.
    pub fn recorded(&self) -> (n: usize)
        ensures
            n == self.recorded_spec(),
    {
        self.recorded
    }

    /// The sample at `index`; index 0 is the oldest.
    pub fn get(&self, index: usize) -> (s: Sample)
        requires
            index < self@.len(),
        ensures
            s == self@[index as int],
    {
        self.samples[index]
    }

    /// The sample written by the latest push.
    pub fn newest(&self) -> (s: Sample)
        requires
            self.wf(),
        ensures
            s == self@.last(),
    {
        self.samples[self.samples.len() - 1]
    }

    /// Drops the oldest sample, ages the others by one and appends `value`
    /// with age 0.
    pub fn push(&mut self, value: u64)
        requires
            old(self).wf(),
        ensures
            final(self).is_push_of(*old(self), value),
            final(self)@.len() == old(self)@.len(),
            final(self)@.last() == (Sample { age: 0, value }),
    {
        let n: usize = self.samples.len();
        let ghost before = self.samples@;
        let mut i: usize = 0;
        while i + 1 < n
            invariant
                n == before.len(),
                n > 0,
                self.samples@.len() == n,
                self.recorded == old(self).recorded,
                i + 1 <= n,
                forall|k: int| 0 <= k < n ==> (#[trigger] before[k]).age < n,
                forall|k: int| 0 <= k < i ==> self.samples@[k] == pushed(before, value)[k],
                forall|k: int| i <= k < n ==> self.samples@[k] == before[k],
            decreases n - i,
        {
            let next: Sample = self.samples[i + 1];
            assert(next == before[i + 1]);
            self.samples.set(i, Sample { age: next.age + 1, value: next.value });
            i += 1;
        }
        self.samples.set(n - 1, Sample { age: 0, value });
        if self.recorded < n {
            self.recorded += 1;
        }
        assert(self.samples@ =~= pushed(before, value));
    }

    /// The least value among the recorded samples, 0 if there is none.
    pub fn minimum(&self) -> (m: u64)
        requires
            self.wf(),
        ensures
            is_min_of(self.recorded_values(), m),
    {
        let n: usize = self.samples.len();
        if self.recorded == 0 {
            return 0;
        }
        let start: usize = n - self.recorded;
        let ghost rv = self.recorded_values();
        let mut m: u64 = self.samples[start].value;
        assert(m == rv[0]);
        let mut i: usize = start + 1;
        while i < n
            invariant
                self.wf(),
                n == self.samples@.len(),
                start == n - self.recorded,
                start < i <= n,
                rv == self.recorded_values(),
                forall|k: int| 0 <= k < i - start ==> m <= #[trigger] rv[k],
                exists|k: int| 0 <= k < i - start && rv[k] == m,
            decreases n - i,
        {
            let v: u64 = self.samples[i].value;
            assert(v == rv[i - start]);
            if v < m {
                m = v;
            }
            i += 1;
        }
        m
    }

    /// The greatest value among the recorded samples, 0 if there is none.
    pub fn maximum(&self) -> (m: u64)
        requires
            self.wf(),
        ensures
            is_max_of(self.recorded_values(), m),
    {
        let n: usize = self.samples.len();
        if self.recorded == 0 {
            return 0;
        }
        let start: usize = n - self.recorded;
        let ghost rv = self.recorded_values();
        let mut m: u64 = self.samples[start].value;
        assert(m == rv[0]);
        let mut i: usize = start + 1;
        while i < n
            invariant
                self.wf(),
                n == self.samples@.len(),
                start == n - self.recorded,
                start < i <= n,
                rv == self.recorded_values(),
                forall|k: int| 0 <= k < i - start ==> m >= #[trigger] rv[k],
                exists|k: int| 0 <= k < i - start && rv[k] == m,
            decreases n - i,
        {
            let v: u64 = self.samples[i].value;
            assert(v == rv[i - start]);
            if v > m {
                m = v;
            }
            i += 1;
        }
        m
    }

    /// The sum of the recorded values.
    pub fn total(&self) -> (t: u128)
        requires
            self.wf(),
        ensures
            t == sum_of(self.recorded_values()),
    {
        let n: usize = self.samples.len();
        let start: usize = n - self.recorded;
        let ghost rv = self.recorded_values();
        let mut t: u128 = 0;
        let mut i: usize = start;
        assert(rv.take(0) =~= Seq::<u64>::empty());
        while i < n
            invariant
                self.wf(),
                n == self.samples@.len(),
                start == n - self.recorded,
                start <= i <= n,
                rv == self.recorded_values(),
                t == sum_of(rv.take(i - start)),
            decreases n - i,
        {
            let v: u64 = self.samples[i].value;
            proof {
                let k = i - start;
                assert(v == rv[k]);
                assert(rv.take(k + 1).drop_last() =~= rv.take(k));
                assert(rv.take(k + 1).last() == rv[k]);
                lemma_sum_bound(rv.take(k + 1));
                assert((k + 1) * 0xFFFF_FFFF_FFFF_FFFF <= 0xFFFF_FFFF_FFFF_FFFF
                    * 0xFFFF_FFFF_FFFF_FFFF) by (nonlinear_arith)
                    requires
                        0 <= k + 1 <= 0xFFFF_FFFF_FFFF_FFFF,
                ;
            }
            t = t + v as u128;
            i += 1;
        }
        assert(rv.take(rv.len() as int) =~= rv);
        t
    }

    /// The mean of the recorded values, rounded down; 0 if there is none.
    pub fn average(&self) -> (a: u64)
        requires
            self.wf(),
        ensures
            self.recorded_spec() == 0 ==> a == 0,
            self.recorded_spec() > 0 ==> a == sum_of(self.recorded_values())
                / self.recorded_spec(),
    {
        if self.recorded == 0 {
            return 0;
        }
        let t: u128 = self.total();
        let count: u128 = self.recorded as u128;
        proof {
            lemma_sum_bound(self.recorded_values());
            assert(t / count <= 0xFFFF_FFFF_FFFF_FFFF) by (nonlinear_arith)
                requires
                    count > 0,
                    t <= count * 0xFFFF_FFFF_FFFF_FFFF,
            ;
        }
        (t / count) as u64
    }

    /// The samples as `(age, value)` pairs, oldest first.
    pub fn to_pairs(&self) -> (pairs: Vec<(u64, u64)>)
        ensures
            pairs@ == pairs_of(self@),
    {
        let mut pairs: Vec<(u64, u64)> = Vec::new();
        let mut i: usize = 0;
        while i < self.samples.len()
            invariant
                i <= self.samples@.len(),
                pairs@.len() == i,
                forall|k: int|
                    0 <= k < i ==> #[trigger] pairs@[k] == (
                        self.samples@[k].age,
                        self.samples@[k].value,
                    ),
            decreases self.samples@.len() - i,
        {
            let s: Sample = self.samples[i];
            pairs.push((s.age, s.value));
            i += 1;
        }
        assert(pairs@ =~= pairs_of(self@));
        pairs
    }
}

/// A sum of 64-bit values is at most their number times the greatest such value.
pub proof fn lemma_sum_bound(s: Seq<u64>)
    ensures
        sum_of(s) <= s.len() * 0xFFFF_FFFF_FFFF_FFFF,
    decreases s.len(),
{
    if s.len() > 0 {
        lemma_sum_bound(s.drop_last());
        assert((s.len() - 1) * 0xFFFF_FFFF_FFFF_FFFF + 0xFFFF_FFFF_FFFF_FFFF == s.len()
            * 0xFFFF_FFFF_FFFF_FFFF) by (nonlinear_arith);
    }
}

/// In a series the ages never grow towards the newest sample, none reaches
/// the capacity, and the newest sample has age 0.
pub proof fn lemma_ages_ordered(s: RollingSeries)
    requires
        s.wf(),
    ensures
        forall|i: int, j: int|
            0 <= i <= j < s@.len() ==> (#[trigger] s@[i]).age >= (#[trigger] s@[j]).age,
        forall|i: int| 0 <= i < s@.len() ==> (#[trigger] s@[i]).age < s@.len(),
        s@.last().age == 0,
{
}

/// Where every value is `v`, the least and the greatest value and the mean
/// are `v`.
pub proof fn lemma_constant_values(s: Seq<u64>, v: u64, least: u64, greatest: u64)
    requires
        s.len() > 0,
        forall|i: int| 0 <= i < s.len() ==> s[i] == v,
        is_min_of(s, least),
        is_max_of(s, greatest),
    ensures
        least == v,
        greatest == v,
        sum_of(s) == s.len() * v,
        sum_of(s) as int / s.len() as int == v,
{
    lemma_constant_sum(s, v);
    assert(s[0] == v);
    let n = s.len() as int;
    assert((n * v) / n == v) by (nonlinear_arith)
        requires
            n > 0,
    ;
}

/// The sum of `n` values `v` is `n` times `v`.
pub proof fn lemma_constant_sum(s: Seq<u64>, v: u64)
    requires
        forall|i: int| 0 <= i < s.len() ==> s[i] == v,
    ensures
        sum_of(s) == s.len() * v,
    decreases s.len(),
{
    if s.len() > 0 {
        lemma_constant_sum(s.drop_last(), v);
        assert((s.len() - 1) * v + v == s.len() * v) by (nonlinear_arith);
    }
}

/// However many values are pushed, the series keeps its length.
pub proof fn lemma_pushed_all_len(s: Seq<Sample>, values: Seq<u64>)
    ensures
        pushed_all(s, values).len() == s.len(),
    decreases values.len(),
{
    if values.len() > 0 {
        lemma_pushed_all_len(s, values.drop_last());
    }
}

/// After any pushes, the newest sample holds the value pushed last, at age 0.
pub proof fn lemma_pushed_all_newest(s: Seq<Sample>, values: Seq<u64>)
    requires
        s.len() > 0,
        values.len() > 0,
    ensures
        pushed_all(s, values).last() == (Sample { age: 0, value: values.last() }),
{
    lemma_pushed_all_len(s, values.drop_last());
}

/// Pushing `k` values into a series that no push has touched, `k` at most its
/// capacity, leaves them in the last `k` positions in the order pushed, the
/// value pushed `a` pushes before the last at age `a`; the positions before
/// still hold zero, at age `k`.
pub proof fn lemma_fill_from_zero(capacity: nat, values: Seq<u64>)
    requires
        0 < capacity <= u64::MAX,
        values.len() <= capacity,
    ensures
        pushed_all(zero_filled(capacity), values).len() == capacity,
        forall|i: int|
            0 <= i < capacity - values.len() ==> #[trigger] pushed_all(
                zero_filled(capacity),
                values,
            )[i] == (Sample { age: values.len() as u64, value: 0 }),
        forall|i: int|
            capacity - values.len() <= i < capacity ==> #[trigger] pushed_all(
                zero_filled(capacity),
                values,
            )[i] == (Sample {
                age: (capacity - 1 - i) as u64,
                value: values[i - (capacity - values.len())],
            }),
    decreases values.len(),
{
    if values.len() > 0 {
        lemma_fill_from_zero(capacity, values.drop_last());
    }
}

} // verus!
