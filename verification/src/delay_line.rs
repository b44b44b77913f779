use vstd::prelude::*;
use std::collections::VecDeque;

verus! {

/// The resonant air column, modelled as a delay line of displacement samples.
///
/// Each sample step first asks for the echo that returns from the far end of the
/// pipe ([`DelayLine::take_echo`]) and then feeds the new total displacement back in
/// ([`DelayLine::push`]). The echo is due once the line holds at least `delay`
/// samples, so after the line has filled, every sample comes back exactly
/// `delay` steps after it was fed (see [`lemma_echo_returns_after_delay`]).
pub struct DelayLine<T> {
    history: VecDeque<T>,
}

impl<T> View for DelayLine<T> {
    type V = Seq<T>;

    /// The samples in flight, oldest first.
    closed spec fn view(&self) -> Seq<T> {
        self.history@
    }
}

/// Whether a line holding `len` samples returns an echo for a round trip of `delay` samples.
pub open spec fn echo_due(len: nat, delay: nat) -> bool {
    len >= delay && len > 0
}

/// The echo that a line holding `s` returns for a round trip of `delay` samples.
pub open spec fn echo_of<T>(s: Seq<T>, delay: nat) -> Option<T> {
    if echo_due(s.len(), delay) {
        Some(s[0])
    } else {
        None
    }
}

/// What a line holding `s` holds after its echo for `delay` has been taken.
pub open spec fn after_echo<T>(s: Seq<T>, delay: nat) -> Seq<T> {
    if echo_due(s.len(), delay) {
        s.drop_first()
    } else {
        s
    }
}

/// One sample step: take the echo, then feed `x`.
pub open spec fn cycle<T>(s: Seq<T>, delay: nat, x: T) -> Seq<T> {
    after_echo(s, delay).push(x)
}

/// The line's contents after one sample step per element of `fed`, starting from `s`.
pub open spec fn run<T>(s: Seq<T>, delay: nat, fed: Seq<T>) -> Seq<T>
    decreases fed.len(),
{
    if fed.len() == 0 {
        s
    } else {
        cycle(run(s, delay, fed.drop_last()), delay, fed.last())
    }
}

/// The echo returned at sample step `k` (counting from 0) when `fed` is fed from `s`.
pub open spec fn echo_at<T>(s: Seq<T>, delay: nat, fed: Seq<T>, k: int) -> Option<T> {
    echo_of(run(s, delay, fed.take(k)), delay)
}

/// The number of steps after which a sample comes back, for a line that starts with
/// `held` samples: the round trip, but never less than what the line already holds,
/// nor less than one step.
pub open spec fn effective_delay(held: nat, delay: nat) -> nat {
    if held >= delay && held >= 1 {
        held
    } else if delay >= 1 {
        delay
    } else {
        1
    }
}

/// Where, in the stream of all samples held and fed, the window that the line holds
/// after `fed` steps begins.
pub open spec fn window_start(held: nat, delay: nat, fed: nat) -> int {
    let n = held + fed;
    let d = effective_delay(held, delay);
    if n >= d {
        n - d
    } else {
        0
    }
}

impl<T> DelayLine<T> {
    /// An empty line, as at the start of a note.
    pub fn new() -> (line: Self)
        ensures
            line@ == Seq::<T>::empty(),
    {
        DelayLine { history: VecDeque::new() }
    }

    /// The number of samples in flight.
    pub fn len(&self) -> (n: usize)
        ensures
            n == self@.len(),
    {
        self.history.len()
    }

    /// The `i`-th sample in flight, oldest first.
    pub fn get(&self, i: usize) -> (x: &T)
        requires
            i < self@.len(),
        ensures
            *x == self@[i as int],
    {
        &self.history[i]
    }

    /// Drops every sample in flight, as when a new note starts.
    pub fn clear(&mut self)
        ensures
            final(self)@ == Seq::<T>::empty(),
    {
        self.history.clear();
    }

    /// Takes the echo for a round trip of `delay` samples: while the line holds fewer
    /// samples than that, nothing has come back yet; otherwise the oldest sample
    /// leaves the line.
    pub fn take_echo(&mut self, delay: u64) -> (echo: Option<T>)
        ensures
            echo == echo_of(old(self)@, delay as nat),
            final(self)@ == after_echo(old(self)@, delay as nat),
    {
        let n: usize = self.history.len();
        if (n as u64) < delay {
            None
        } else {
            self.history.pop_front()
        }
    }

    /// Feeds a new sample into the line.
    pub fn push(&mut self, x: T)
        ensures
            final(self)@ == old(self)@.push(x),
    {
        self.history.push_back(x);
    }
}

/// After `fed` has been fed step by step into a line that held `s`, the line holds the
/// last samples of the stream `s + fed`: as many as the effective delay, or all of
/// them while there are fewer.
pub proof fn lemma_run_window<T>(s: Seq<T>, delay: nat, fed: Seq<T>)
    ensures
        run(s, delay, fed) =~= (s + fed).subrange(
            window_start(s.len(), delay, fed.len()),
            s.len() + fed.len() as int,
        ),
    decreases fed.len(),
{
    if fed.len() > 0 {
        let prev = fed.drop_last();
        lemma_run_window(s, delay, prev);
        let v = run(s, delay, prev);
        let n: int = s.len() + fed.len() as int;
        let d = effective_delay(s.len(), delay);
        let lo = window_start(s.len(), delay, prev.len());
        assert((s + prev) =~= (s + fed).subrange(0, n - 1));
        assert(v =~= (s + fed).subrange(lo, n - 1));
        if n - 1 >= d {
            assert(echo_due(v.len(), delay));
            assert(cycle(v, delay, fed.last()) =~= (s + fed).subrange(lo + 1, n));
        } else {
            assert(!echo_due(v.len(), delay));
            assert(cycle(v, delay, fed.last()) =~= (s + fed).subrange(0, n));
        }
    }
}

/// A sample fed into the resonator comes back exactly once, after the round trip:
/// the echo returned at step `k` is the sample that entered the line
/// `effective_delay` steps earlier in the stream of held and fed samples, and no
/// echo returns before the line has filled.
pub proof fn lemma_echo_returns_after_delay<T>(s: Seq<T>, delay: nat, fed: Seq<T>, k: int)
    requires
        0 <= k <= fed.len(),
    ensures
        ({
            let d = effective_delay(s.len(), delay);
            echo_at(s, delay, fed, k) == if s.len() + k >= d {
                Some((s + fed)[s.len() + k - d])
            } else {
                None::<T>
            }
        }),
{
    let taken = fed.take(k);
    lemma_run_window(s, delay, taken);
    let v = run(s, delay, taken);
    let d = effective_delay(s.len(), delay);
    if s.len() + k >= d {
        assert(echo_due(v.len(), delay));
        assert(v[0] == (s + taken)[s.len() + k - d]);
        assert((s + taken)[s.len() + k - d] == (s + fed)[s.len() + k - d]);
    } else {
        assert(!echo_due(v.len(), delay));
    }
}

/// Once a line holds at least a full round trip of samples, each sample step keeps
/// its length: the echo leaves as the new sample enters.
pub proof fn lemma_full_line_keeps_length<T>(s: Seq<T>, delay: nat, x: T)
    requires
        s.len() >= delay,
        s.len() >= 1,
    ensures
        cycle(s, delay, x).len() == s.len(),
        echo_of(s, delay) == Some(s[0]),
{
}

} // verus!
