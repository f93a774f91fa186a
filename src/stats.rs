use vstd::prelude::*;

use crate::utils::{ScalingFactor, SCALE_ONE};

verus! {

/// A fixed-capacity ring of the last `N` samples, oldest evicted first.
///
/// Storage fills by appending until `N` samples are held; after that each
/// push overwrites the oldest slot, which is the one at `next_index`.
pub struct CircularBuffer<T, const N: usize> {
    samples: Vec<T>,
    next_index: usize,
}

impl<T: Copy, const N: usize> CircularBuffer<T, N> {
    /// The samples held, oldest first.
    pub closed spec fn view(&self) -> Seq<T> {
        self.samples@.subrange(self.next_index as int, self.samples@.len() as int)
            + self.samples@.subrange(0, self.next_index as int)
    }

    pub closed spec fn wf(&self) -> bool {
        &&& self.samples@.len() <= N
        &&& self.next_index < N
        &&& self.samples@.len() < N ==> self.next_index == 0
    }

    /// Creates an empty buffer.
    pub fn new() -> (r: Self)
        requires
            N > 0,
        ensures
            r.wf(),
            r@ == Seq::<T>::empty(),
    {
        let r = CircularBuffer { samples: Vec::new(), next_index: 0 };
        assert(r@ =~= Seq::<T>::empty());
        r
    }

    /// Number of samples currently held.
    pub fn len(&self) -> (r: usize)
        requires
            self.wf(),
        ensures
            r == self@.len(),
            r <= N,
    {
        self.samples.len()
    }

    /// Appends a sample, evicting the oldest one if the buffer is full.
    pub fn push(&mut self, sample: T)
        requires
            old(self).wf(),
        ensures
            final(self).wf(),
            final(self)@ == push_evicting(old(self)@, sample, N as nat),
            final(self)@.len() <= N,
    {
        if self.samples.len() < N {
            self.samples.push(sample);
            assert(self@ =~= old(self)@.push(sample));
        } else {
            let index = self.next_index;
            self.samples.set(index, sample);
            self.next_index = if index + 1 == N { 0 } else { index + 1 };
            assert(self@ =~= old(self)@.push(sample).drop_first());
        }
    }

    /// The held samples from the most recently pushed to the oldest.
    pub fn newest_first(&self) -> (r: Vec<T>)
        requires
            self.wf(),
        ensures
            r@ == self@.reverse(),
    {
        let len = self.samples.len();
        let mut out: Vec<T> = Vec::new();
        let mut index: usize = self.next_index;
        let mut k: usize = 0;
        while k < len
            invariant
                self.wf(),
                len == self.samples@.len(),
                k <= len,
                out@.len() == k,
                index == (if k <= self.next_index { self.next_index - k } else { self.next_index + len - k }),
                forall|j: int| 0 <= j < k ==> out@[j] == self@.reverse()[j],
            decreases len - k,
        {
            index = if index == 0 { len - 1 } else { index - 1 };
            let sample = self.samples[index];
            proof {
                let v = self@;
                let nx = self.next_index as int;
                assert(v.len() == len);
                assert(v.reverse()[k as int] == v[len - 1 - k]);
                if (len - 1 - k) < len - nx {
                    assert(v[len - 1 - k] == self.samples@[nx + len - 1 - k]);
                } else {
                    assert(v[len - 1 - k] == self.samples@[len - 1 - k - (len - nx)]);
                }
            }
            out.push(sample);
            k = k + 1;
        }
        assert(out@ =~= self@.reverse());
        out
    }
}

/// What a ring of capacity `cap` holds after `sample` is pushed onto `held`.
pub open spec fn push_evicting<T>(held: Seq<T>, sample: T, cap: nat) -> Seq<T> {
    if held.len() < cap {
        held.push(sample)
    } else {
        held.push(sample).drop_first()
    }
}

/// One smoothing step in fixed point: `acc + weight * (sample - acc)`, with
/// `weight` in units of 1/65536, rounded down.
pub open spec fn ema_step(acc: int, sample: int, weight: int) -> int {
    (acc * (SCALE_ONE - weight) + sample * weight) / (SCALE_ONE as int)
}

/// Smoothing over samples given newest first: each sample moves the
/// accumulator by the current weight, and the weight then shrinks by `alpha`.
pub open spec fn ema_newest_first(samples: Seq<u64>, weight: int, alpha: int, acc: int) -> int
    decreases samples.len(),
{
    if samples.len() == 0 {
        acc
    } else {
        ema_newest_first(
            samples.drop_first(),
            weight * alpha / (SCALE_ONE as int),
            alpha,
            ema_step(acc, samples[0] as int, weight),
        )
    }
}

/// The exponential moving average of samples held oldest first: start from
/// zero with full weight and consume the newest sample first.
pub open spec fn exponential_moving_average_of(held: Seq<u64>, alpha: int) -> int {
    ema_newest_first(held.reverse(), SCALE_ONE as int, alpha, 0)
}

proof fn lemma_ema_step_bounded(acc: int, sample: int, weight: int, bound: int)
    requires
        0 <= acc <= bound,
        0 <= sample <= bound,
        0 <= weight <= SCALE_ONE,
    ensures
        0 <= ema_step(acc, sample, weight) <= bound,
{
    let one = SCALE_ONE as int;
    assert(acc * (one - weight) <= bound * (one - weight)) by (nonlinear_arith)
        requires 0 <= acc <= bound, weight <= one;
    assert(sample * weight <= bound * weight) by (nonlinear_arith)
        requires 0 <= sample <= bound, 0 <= weight;
    assert(0 <= acc * (one - weight)) by (nonlinear_arith)
        requires 0 <= acc, weight <= one;
    assert(0 <= sample * weight) by (nonlinear_arith)
        requires 0 <= sample, 0 <= weight;
    assert(bound * (one - weight) + bound * weight == bound * one) by (nonlinear_arith);
    let total = acc * (one - weight) + sample * weight;
    assert(0 <= total <= bound * one);
    assert(total / one <= bound) by (nonlinear_arith)
        requires 0 <= total <= bound * one, one > 0;
    assert(0 <= total / one) by (nonlinear_arith)
        requires 0 <= total, one > 0;
}

impl<const N: usize> CircularBuffer<u64, N> {
    /// Smoothed value of the held samples, newest weighted highest; zero when empty.
    pub fn exponential_moving_average(&self, alpha: ScalingFactor) -> (r: u64)
        requires
            self.wf(),
            0 < alpha@ <= SCALE_ONE,
        ensures
            r == exponential_moving_average_of(self@, alpha@ as int),
    {
        let samples = self.newest_first();
        let a: u64 = alpha.as_fixed() as u64;
        let mut acc: u64 = 0;
        let mut weight: u64 = SCALE_ONE as u64;
        let mut i: usize = 0;
        assert(samples@.subrange(0, samples@.len() as int) =~= samples@);
        while i < samples.len()
            invariant
                samples@ == self@.reverse(),
                a == alpha@,
                0 < a <= SCALE_ONE,
                i <= samples@.len(),
                weight <= SCALE_ONE,
                exponential_moving_average_of(self@, a as int) == ema_newest_first(
                    samples@.subrange(i as int, samples@.len() as int),
                    weight as int,
                    a as int,
                    acc as int,
                ),
            decreases samples@.len() - i,
        {
            let sample = samples[i];
            proof {
                let rest = samples@.subrange(i as int, samples@.len() as int);
                assert(rest.drop_first() =~= samples@.subrange(i + 1, samples@.len() as int));
                assert(rest[0] == sample);
                lemma_ema_step_bounded(acc as int, sample as int, weight as int, u64::MAX as int);
                assert(weight * a <= SCALE_ONE * SCALE_ONE) by (nonlinear_arith)
                    requires weight <= SCALE_ONE, a <= SCALE_ONE;
                assert(weight * a / (SCALE_ONE as int) <= SCALE_ONE) by (nonlinear_arith)
                    requires 0 <= weight * a <= SCALE_ONE * SCALE_ONE;
                assert((acc as int) * (SCALE_ONE - weight) <= 0xffff_ffff_ffff_ffff * 65536) by (nonlinear_arith)
                    requires acc <= 0xffff_ffff_ffff_ffff, weight <= SCALE_ONE;
                assert((sample as int) * (weight as int) <= 0xffff_ffff_ffff_ffff * 65536) by (nonlinear_arith)
                    requires sample <= 0xffff_ffff_ffff_ffff, weight <= SCALE_ONE;
            }
            let mixed: u128 = acc as u128 * (SCALE_ONE as u64 - weight) as u128 + sample as u128 * weight as u128;
            acc = (mixed / SCALE_ONE as u128) as u64;
            weight = weight * a / SCALE_ONE as u64;
            i = i + 1;
        }
        proof {
            assert(samples@.subrange(i as int, samples@.len() as int).len() == 0);
        }
        acc
    }
}

/// What a ring of capacity `cap` holds after each of `pushed` is pushed in turn onto `held`.
pub open spec fn after_pushes<T>(held: Seq<T>, pushed: Seq<T>, cap: nat) -> Seq<T>
    decreases pushed.len(),
{
    if pushed.len() == 0 {
        held
    } else {
        push_evicting(after_pushes(held, pushed.drop_last(), cap), pushed.last(), cap)
    }
}

/// The last `min(len, cap)` elements of `s`.
pub open spec fn newest<T>(s: Seq<T>, cap: nat) -> Seq<T> {
    if s.len() > cap {
        s.subrange(s.len() - cap, s.len() as int)
    } else {
        s
    }
}

/// Any sequence of pushes into an empty ring of capacity `cap` leaves it
/// holding at most `cap` samples, namely the last `cap` pushed, oldest first:
/// eviction is first in, first out.
pub proof fn lemma_pushes_keep_newest<T>(pushed: Seq<T>, cap: nat)
    requires
        cap > 0,
    ensures
        after_pushes(Seq::<T>::empty(), pushed, cap) == newest(pushed, cap),
        after_pushes(Seq::<T>::empty(), pushed, cap).len() <= cap,
    decreases pushed.len(),
{
    if pushed.len() > 0 {
        let init = pushed.drop_last();
        lemma_pushes_keep_newest(init, cap);
        let before = newest(init, cap);
        if init.len() < cap {
            assert(before.push(pushed.last()) =~= newest(pushed, cap));
        } else {
            assert(before.push(pushed.last()).drop_first() =~= newest(pushed, cap));
        }
    }
}

/// The average of no samples is zero, and of a single sample is that sample,
/// whatever the smoothing factor.
pub proof fn lemma_average_of_few(x: u64, alpha: int)
    ensures
        exponential_moving_average_of(Seq::<u64>::empty(), alpha) == 0,
        exponential_moving_average_of(seq![x], alpha) == x,
{
    assert(Seq::<u64>::empty().reverse() =~= Seq::<u64>::empty());
    assert(seq![x].reverse() =~= seq![x]);
    assert(seq![x].drop_first() =~= Seq::<u64>::empty());
    let one = SCALE_ONE as int;
    assert(0 * (one - one) + x * one == x * one) by (nonlinear_arith);
    assert((x * one) / one == x) by (nonlinear_arith)
        requires one > 0;
    assert(ema_step(0, x as int, one) == x);
    assert(ema_newest_first(Seq::<u64>::empty(), one * alpha / one, alpha, x as int) == x);
    assert(ema_newest_first(seq![x], one, alpha, 0) == ema_newest_first(
        Seq::<u64>::empty(),
        one * alpha / one,
        alpha,
        ema_step(0, x as int, one),
    ));
}

} // verus!
