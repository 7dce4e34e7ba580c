//! Switch module for handling input from a button, NPN sensor, etc.
//!
//! A switch is polled: each poll is handed the level that was just read from
//! the pin and the time of the reading, in milliseconds of any clock that does
//! not jump. Polling is preferable to an interrupt because it lets a level
//! change be held back until it has lasted, which filters out electrical
//! interference.

use vstd::prelude::*;
use crate::pin_mgr::GpioInput;
use crate::types::Level;

verus! {

/// How long a changed level has to last before it is acknowledged.
#[derive(Clone, Copy, Debug, PartialEq, Eq)]
pub struct DelayOptions {
    /// The time, in milliseconds, that must lapse before acknowledging a state
    /// change. With `None` a change is acknowledged by the poll that sees it.
    pub min_transition_time: Option<u64>,
}

impl DelayOptions {
    pub fn none() -> (opts: Self)
        ensures
            opts.min_transition_time is None,
    {
        Self { min_transition_time: None }
    }
}

impl Default for DelayOptions {
    fn default() -> (opts: Self)
        ensures
            opts.min_transition_time == Some(50u64),
    {
        Self { min_transition_time: Some(50) }
    }
}

/// What a switch remembers between two polls.
pub struct Filter {
    /// The last acknowledged level.
    pub confirmed: Level,
    /// When a level other than `confirmed` was first seen, if one is waiting
    /// to be acknowledged.
    pub pending_since: Option<u64>,
}

/// One poll: the level that was read, and when.
pub struct Sample {
    pub raw: Level,
    pub at: u64,
}

/// Whether a poll that reads `raw` at time `now` acknowledges `raw` as the new
/// level.
pub open spec fn acknowledges(f: Filter, window: Option<u64>, raw: Level, now: u64) -> bool {
    raw != f.confirmed && match window {
        None => true,
        Some(w) => f.pending_since matches Some(since) && now - since >= w,
    }
}

/// The level that a poll reports as newly acknowledged, if it acknowledges one.
pub open spec fn poll_event(f: Filter, window: Option<u64>, raw: Level, now: u64) -> Option<
    Level,
> {
    if acknowledges(f, window, raw, now) {
        Some(raw)
    } else {
        None
    }
}

/// What the switch remembers after a poll that reads `raw` at time `now`.
pub open spec fn poll_filter(f: Filter, window: Option<u64>, raw: Level, now: u64) -> Filter {
    if raw == f.confirmed {
        Filter { confirmed: f.confirmed, pending_since: None }
    } else if window is None {
        Filter { confirmed: raw, pending_since: f.pending_since }
    } else if f.pending_since is None {
        Filter { confirmed: f.confirmed, pending_since: Some(now) }
    } else if acknowledges(f, window, raw, now) {
        Filter { confirmed: raw, pending_since: None }
    } else {
        f
    }
}

/// What the switch remembers after the polls `samples`, in their order.
pub open spec fn polls_filter(f: Filter, window: Option<u64>, samples: Seq<Sample>) -> Filter
    decreases samples.len(),
{
    if samples.len() == 0 {
        f
    } else {
        let last = samples.last();
        poll_filter(polls_filter(f, window, samples.drop_last()), window, last.raw, last.at)
    }
}

/// What poll number `k` of the polls `samples` reports.
pub open spec fn polls_event(f: Filter, window: Option<u64>, samples: Seq<Sample>, k: int) -> Option<
    Level,
> {
    poll_event(polls_filter(f, window, samples.take(k)), window, samples[k].raw, samples[k].at)
}

/// The first `k + 1` polls are the first `k` and one more.
proof fn lemma_polls_step(f: Filter, window: Option<u64>, samples: Seq<Sample>, k: int)
    requires
        0 <= k < samples.len(),
    ensures
        polls_filter(f, window, samples.take(k + 1)) == poll_filter(
            polls_filter(f, window, samples.take(k)),
            window,
            samples[k].raw,
            samples[k].at,
        ),
{
    assert(samples.take(k + 1).drop_last() == samples.take(k));
}

/// Once `level` is the acknowledged level, polls that read `level` keep it so.
proof fn lemma_level_kept(
    f: Filter,
    window: Option<u64>,
    samples: Seq<Sample>,
    level: Level,
    j: int,
    m: int,
)
    requires
        forall|i: int| 0 <= i < samples.len() ==> (#[trigger] samples[i]).raw == level,
        0 <= j <= m <= samples.len(),
        polls_filter(f, window, samples.take(j)).confirmed == level,
    ensures
        polls_filter(f, window, samples.take(m)).confirmed == level,
    decreases m - j,
{
    if j < m {
        lemma_level_kept(f, window, samples, level, j, m - 1);
        lemma_polls_step(f, window, samples, m - 1);
    }
}

/// While a changed level has not lasted, the switch only remembers when it
/// first saw the change.
proof fn lemma_waiting(f: Filter, w: u64, samples: Seq<Sample>, m: int)
    requires
        f.pending_since is None,
        0 <= m <= samples.len(),
        forall|i: int| 0 <= i < m ==> (#[trigger] samples[i]).raw != f.confirmed,
        forall|i: int| 1 <= i < m ==> (#[trigger] samples[i]).at - samples[0].at < w,
    ensures
        m == 0 ==> polls_filter(f, Some(w), samples.take(m)) == f,
        m > 0 ==> polls_filter(f, Some(w), samples.take(m)) == (Filter {
            confirmed: f.confirmed,
            pending_since: Some(samples[0].at),
        }),
    decreases m,
{
    if m == 0 {
        assert(samples.take(0).len() == 0);
    } else {
        lemma_waiting(f, w, samples, m - 1);
        lemma_polls_step(f, Some(w), samples, m - 1);
    }
}

/// Holding a level: while poll after poll reads the same level, that level is
/// acknowledged by at most one of the polls, no other level is acknowledged,
/// and where the level is the acknowledged one to begin with, no poll
/// acknowledges anything. This holds whatever delay is set and whatever the
/// times of the polls are.
pub proof fn law_hold_fires_at_most_once(
    f: Filter,
    window: Option<u64>,
    samples: Seq<Sample>,
    level: Level,
)
    requires
        forall|i: int| 0 <= i < samples.len() ==> (#[trigger] samples[i]).raw == level,
    ensures
        forall|j: int, k: int|
            0 <= j < k < samples.len() ==> !(#[trigger] polls_event(f, window, samples, j) is Some
                && #[trigger] polls_event(f, window, samples, k) is Some),
        forall|k: int|
            0 <= k < samples.len() ==> #[trigger] polls_event(f, window, samples, k) is None
                || polls_event(f, window, samples, k) == Some(level),
        f.confirmed == level ==> forall|k: int|
            0 <= k < samples.len() ==> #[trigger] polls_event(f, window, samples, k) is None,
{
    assert forall|j: int, k: int| 0 <= j < k < samples.len() implies !(#[trigger] polls_event(
        f,
        window,
        samples,
        j,
    ) is Some && #[trigger] polls_event(f, window, samples, k) is Some) by {
        if polls_event(f, window, samples, j) is Some {
            lemma_polls_step(f, window, samples, j);
            lemma_level_kept(f, window, samples, level, j + 1, k);
        }
    }
    if f.confirmed == level {
        assert forall|k: int| 0 <= k < samples.len() implies #[trigger] polls_event(
            f,
            window,
            samples,
            k,
        ) is None by {
            assert(samples.take(0).len() == 0);
            lemma_level_kept(f, window, samples, level, 0, k);
        }
    }
}

/// Rejection of a glitch: a delay of `w` is set and nothing is pending. Then
/// the polls read a level other than the acknowledged one, and the last poll
/// reads the acknowledged level again, before any poll has seen the other level
/// last for `w`. No poll of that run acknowledges anything, the acknowledged
/// level is the same after each of them, and after the last nothing is pending.
pub proof fn law_glitch_rejected(f: Filter, w: u64, samples: Seq<Sample>)
    requires
        f.pending_since is None,
        samples.len() >= 1,
        forall|i: int| 0 <= i < samples.len() - 1 ==> (#[trigger] samples[i]).raw != f.confirmed,
        forall|i: int| 1 <= i < samples.len() - 1 ==> (#[trigger] samples[i]).at - samples[0].at < w,
        samples.last().raw == f.confirmed,
    ensures
        forall|k: int|
            0 <= k < samples.len() ==> #[trigger] polls_event(f, Some(w), samples, k) is None,
        forall|k: int|
            0 <= k <= samples.len() ==> (#[trigger] polls_filter(
                f,
                Some(w),
                samples.take(k),
            )).confirmed == f.confirmed,
        polls_filter(f, Some(w), samples).pending_since is None,
{
    let n = samples.len() as int;
    assert forall|k: int| 0 <= k < n implies (#[trigger] polls_filter(
        f,
        Some(w),
        samples.take(k),
    )).confirmed == f.confirmed && polls_event(f, Some(w), samples, k) is None by {
        lemma_waiting(f, w, samples, k);
    }
    lemma_waiting(f, w, samples, n - 1);
    lemma_polls_step(f, Some(w), samples, n - 1);
    assert(samples.take(n) == samples);
}

/// Confirmation of a change: a delay of `w` is set and nothing is pending.
/// Then every poll reads `level`, which is not the acknowledged level, and
/// poll `k` is the first after the poll that saw the change at which the
/// change has lasted for `w`. Poll `k` acknowledges `level` and no other poll
/// acknowledges anything: the acknowledged level is the old one up to poll
/// `k`, and `level` from then on.
pub proof fn law_change_confirmed(f: Filter, w: u64, samples: Seq<Sample>, level: Level, k: int)
    requires
        f.pending_since is None,
        level != f.confirmed,
        forall|i: int| 0 <= i < samples.len() ==> (#[trigger] samples[i]).raw == level,
        1 <= k < samples.len(),
        samples[k].at - samples[0].at >= w,
        forall|i: int| 1 <= i < k ==> (#[trigger] samples[i]).at - samples[0].at < w,
    ensures
        polls_event(f, Some(w), samples, k) == Some(level),
        forall|i: int|
            0 <= i < samples.len() && i != k ==> #[trigger] polls_event(f, Some(w), samples, i)
                is None,
        forall|m: int|
            0 <= m <= k ==> (#[trigger] polls_filter(f, Some(w), samples.take(m))).confirmed
                == f.confirmed,
        forall|m: int|
            k < m <= samples.len() ==> (#[trigger] polls_filter(
                f,
                Some(w),
                samples.take(m),
            )).confirmed == level,
{
    assert forall|m: int| 0 <= m <= k implies (#[trigger] polls_filter(
        f,
        Some(w),
        samples.take(m),
    )).confirmed == f.confirmed && (m < k ==> polls_event(f, Some(w), samples, m) is None) by {
        lemma_waiting(f, w, samples, m);
    }
    lemma_waiting(f, w, samples, k);
    lemma_polls_step(f, Some(w), samples, k);
    assert forall|m: int| k < m <= samples.len() implies (#[trigger] polls_filter(
        f,
        Some(w),
        samples.take(m),
    )).confirmed == level && (m < samples.len() ==> polls_event(f, Some(w), samples, m)
        is None) by {
        lemma_level_kept(f, Some(w), samples, level, k + 1, m);
    }
}

/// A switch that can be polled for state changes.
pub struct InuSwitch<F: Fn(Level)> {
    input: GpioInput,
    state: Level,
    toggle_cb: Option<F>,
    delay_ops: DelayOptions,
    timer: Option<u64>,
}

impl<F: Fn(Level)> View for InuSwitch<F> {
    type V = Filter;

    closed spec fn view(&self) -> Filter {
        Filter { confirmed: self.state, pending_since: self.timer }
    }
}

impl<F: Fn(Level)> InuSwitch<F> {
    /// The callback, once one is registered, can be handed either level.
    #[verifier::type_invariant]
    spec fn callback_takes_any_level(self) -> bool {
        self.toggle_cb matches Some(cb) ==> forall|level: Level| call_requires(cb, (level,))
    }

    /// The input that the switch owns.
    pub closed spec fn input(&self) -> GpioInput {
        self.input
    }

    /// The registered callback.
    pub closed spec fn callback(&self) -> Option<F> {
        self.toggle_cb
    }

    /// The debounce configuration.
    pub closed spec fn delay(&self) -> DelayOptions {
        self.delay_ops
    }

    /// Creates a new switch on `input`, whose level was just read as `level`.
    ///
    /// If you're wiring so that the GPIO receives a voltage when the switch is
    /// closed, use `Pull::Down`. If you're wiring so that the GPIO is wired to
    /// the ground when closed, use `Pull::Up`.
    ///
    /// The switch has a transition delay of 50 ms until another is set, and no
    /// callback.
    pub fn new(input: GpioInput, level: Level) -> (switch: Self)
        ensures
            switch.input() == input,
            switch@ == (Filter { confirmed: level, pending_since: None }),
            switch.delay().min_transition_time == Some(50u64),
            switch.callback() is None,
    {
        Self { input, state: level, toggle_cb: None, delay_ops: DelayOptions::default(), timer: None }
    }

    pub fn with_callback(self, cb: F) -> (switch: Self)
        requires
            forall|level: Level| call_requires(cb, (level,)),
        ensures
            switch.callback() == Some(cb),
            switch.input() == self.input(),
            switch@ == self@,
            switch.delay() == self.delay(),
    {
        Self {
            input: self.input,
            state: self.state,
            toggle_cb: Some(cb),
            delay_ops: self.delay_ops,
            timer: self.timer,
        }
    }

    pub fn with_delay(self, delay_opts: DelayOptions) -> (switch: Self)
        ensures
            switch.delay() == delay_opts,
            switch.input() == self.input(),
            switch@ == self@,
            switch.callback() == self.callback(),
    {
        proof {
            use_type_invariant(&self);
        }
        Self {
            input: self.input,
            state: self.state,
            toggle_cb: self.toggle_cb,
            delay_ops: delay_opts,
            timer: self.timer,
        }
    }

    pub fn set_callback(&mut self, c: F)
        requires
            forall|level: Level| call_requires(c, (level,)),
        ensures
            final(self).callback() == Some(c),
            final(self).input() == old(self).input(),
            final(self)@ == old(self)@,
            final(self).delay() == old(self).delay(),
    {
        self.toggle_cb = Some(c);
    }

    pub fn set_delay_options(&mut self, delay_options: DelayOptions)
        ensures
            final(self).delay() == delay_options,
            final(self).input() == old(self).input(),
            final(self)@ == old(self)@,
            final(self).callback() == old(self).callback(),
    {
        proof {
            use_type_invariant(&*self);
        }
        self.delay_ops = delay_options;
    }

    /// The last acknowledged level.
    pub fn state(&self) -> (level: Level)
        ensures
            level == self@.confirmed,
    {
        self.state
    }

    /// Hands `level` to the callback, if there is one.
    fn notify(&self, level: Level)
        ensures
            self.callback() matches Some(cb) ==> call_ensures(cb, (level,), ()),
    {
        proof {
            use_type_invariant(self);
        }
        match &self.toggle_cb {
            Some(cb) => {
                cb(level);
            },
            None => {},
        }
    }

    /// Poll the switch state and call the callback if the state has changed.
    ///
    /// `raw` is the level that was just read from the pin, `now` the time of
    /// the reading. As long as `raw` is the acknowledged level, nothing is
    /// pending. A different level is acknowledged at once where no delay is
    /// set. Where one is set, the first poll that sees the new level only notes
    /// the time, and a later poll acknowledges it once that time lies at least
    /// the delay back. The poll that acknowledges a level hands it to the
    /// callback, and returns it.
    pub fn poll(&mut self, raw: Level, now: u64) -> (fired: Option<Level>)
        ensures
            final(self)@ == poll_filter(old(self)@, old(self).delay().min_transition_time, raw, now),
            fired == poll_event(old(self)@, old(self).delay().min_transition_time, raw, now),
            final(self).delay() == old(self).delay(),
            final(self).callback() == old(self).callback(),
            final(self).input() == old(self).input(),
            fired matches Some(level) ==> (old(self).callback() matches Some(cb) ==> call_ensures(
                cb,
                (level,),
                (),
            )),
    {
        proof {
            use_type_invariant(&*self);
        }
        if raw == self.state {
            self.timer = None;
            return None;
        }
        match self.delay_ops.min_transition_time {
            // If a delay is set, wait for the delay to pass before switching.
            Some(min_transition_time) => {
                match self.timer {
                    Some(since) => {
                        // Timer is running, check if it's time to switch
                        if now >= since && now - since >= min_transition_time {
                            self.timer = None;
                            self.state = raw;
                            self.notify(raw);
                            Some(raw)
                        } else {
                            None
                        }
                    },
                    None => {
                        // Start the timer, but take no action yet
                        self.timer = Some(now);
                        None
                    },
                }
            },
            // If no delay is set, switch immediately.
            None => {
                self.state = raw;
                self.notify(raw);
                Some(raw)
            },
        }
    }
}

} // verus!
