//! The rollout cursor of one episode: which bar the environment stands on, how
//! many steps it has taken, and whether it was reset. Every decision `reset` and
//! `step` make (refusals, the start bar, the bar a step realises over, the
//! `terminated` / `truncated` flags) is made here; the caller supplies the
//! observation rows and the reward arithmetic.

use vstd::prelude::*;
use crate::error::Error;
use crate::spec::{lemma_max_lookback_bounds, max_lookback, EpisodeSpec};

verus! {

/// The episode RNG, `rand::rngs::StdRng`, carried through opaquely.
#[verifier::external_type_specification]
#[verifier::external_body]
pub struct ExStdRng(rand::rngs::StdRng);

/// Calls `rand::SeedableRng::seed_from_u64` for the pinned episode RNG.
/// Nothing is claimed of the generator's state.
#[verifier::external_body]
fn seeded_rng(seed: u64) -> rand::rngs::StdRng {
    <rand::rngs::StdRng as rand::SeedableRng>::seed_from_u64(seed)
}

/// Calls `rand::RngExt::random_range` on the inclusive range `0..=max`, which
/// is never empty. Claims only that the draw lies in the range; which value it
/// is depends on the generator's state.
#[verifier::external_body]
fn draw_offset(rng: &mut rand::rngs::StdRng, max: usize) -> (r: usize)
    ensures
        r <= max,
{
    rand::RngExt::random_range(rng, 0..=max)
}

/// The abstract state of a rollout.
pub ghost struct RolloutView {
    pub episode: EpisodeSpec,
    pub default_seed: Option<u64>,
    /// The length of the loaded dataset, if any.
    pub n_bars: Option<nat>,
    pub bar: nat,
    pub steps: nat,
    pub reset_done: bool,
}

/// Where an episode stands: the bar, the steps taken since the reset, and
/// whether a reset happened. It changes as a whole, in one assignment.
struct Cursor {
    bar: usize,
    steps: u32,
    reset_done: bool,
}

impl Cursor {
    /// The cursor before any reset.
    fn origin() -> (c: Cursor)
        ensures
            c.bar == 0 && c.steps == 0 && !c.reset_done,
    {
        Cursor { bar: 0, steps: 0, reset_done: false }
    }
}

/// The rollout cursor for one episode.
pub struct Rollout {
    episode: EpisodeSpec,
    default_seed: Option<u64>,
    n_bars: Option<usize>,
    cursor: Cursor,
    rng: rand::rngs::StdRng,
}

impl View for Rollout {
    type V = RolloutView;

    closed spec fn view(&self) -> RolloutView {
        RolloutView {
            episode: self.episode,
            default_seed: self.default_seed,
            n_bars: match self.n_bars {
                Some(n) => Some(n as nat),
                None => None,
            },
            bar: self.cursor.bar as nat,
            steps: self.cursor.steps as nat,
            reset_done: self.cursor.reset_done,
        }
    }
}

impl RolloutView {
    /// The cursor invariant: before a reset the cursor is at its origin; after
    /// one it stands on a bar of the dataset, `warmup + steps`, having taken no
    /// more than `max_steps` steps.
    pub open spec fn wf(self) -> bool {
        &&& !self.reset_done ==> self.bar == 0 && self.steps == 0
        &&& self.reset_done ==> {
            &&& self.n_bars matches Some(n)
            &&& self.bar < n
            &&& self.bar == self.episode.warmup + self.steps
            &&& self.steps <= self.episode.max_steps
        }
    }

    /// The same rollout with its cursor back at the origin.
    pub open spec fn cleared(self) -> RolloutView {
        RolloutView { bar: 0, steps: 0, reset_done: false, ..self }
    }

    /// The episode is over: the next bar would fall off the dataset, or the
    /// step budget is spent.
    pub open spec fn done(self) -> bool {
        self.n_bars matches Some(n) && (self.bar + 1 >= n || self.steps >= self.episode.max_steps)
    }

    /// A step may be taken.
    pub open spec fn can_step(self) -> bool {
        self.n_bars is Some && self.reset_done && !self.done()
    }

    /// Why a step is refused (meaningful when `!can_step()`).
    pub open spec fn step_refusal(self) -> Error {
        if self.n_bars is None {
            Error::NoData
        } else if !self.reset_done {
            Error::NotReset
        } else {
            Error::EpisodeDone
        }
    }

    /// The cursor after one step.
    pub open spec fn advanced(self) -> RolloutView {
        RolloutView { bar: self.bar + 1, steps: self.steps + 1, ..self }
    }

    /// The cursor after `k` steps.
    pub open spec fn advanced_by(self, k: nat) -> RolloutView
        decreases k,
    {
        if k == 0 {
            self
        } else {
            self.advanced_by((k - 1) as nat).advanced()
        }
    }

    /// The bar a reset starts at.
    pub open spec fn start_bar(self) -> nat {
        self.episode.warmup as nat
    }

    /// A reset succeeds: data is loaded and the start bar lies inside it.
    pub open spec fn can_reset(self) -> bool {
        self.n_bars matches Some(n) && self.start_bar() < n
    }

    /// The cursor after a successful reset.
    pub open spec fn reset_to_start(self) -> RolloutView {
        RolloutView { bar: self.start_bar(), steps: 0, reset_done: true, ..self }
    }

    /// The number of steps an episode that starts at a reset runs for: up to
    /// the step budget, and never past the last bar.
    pub open spec fn episode_len(self) -> nat {
        match self.n_bars {
            Some(n) => {
                let room: int = n - 1 - self.start_bar();
                let room: nat = if room < 0 { 0 } else { room as nat };
                if (self.episode.max_steps as nat) < room {
                    self.episode.max_steps as nat
                } else {
                    room
                }
            },
            None => 0,
        }
    }
}

impl Rollout {
    /// Every rollout satisfies the cursor invariant.
    #[verifier::type_invariant]
    spec fn cursor_invariant(self) -> bool {
        self@.wf()
    }

    /// A rollout for an episode shape with no dataset loaded.
    pub fn new(episode: EpisodeSpec, default_seed: Option<u64>) -> (r: Rollout)
        ensures
            r@.episode == episode,
            r@.default_seed == default_seed,
            r@.n_bars is None,
            r@.bar == 0,
            r@.steps == 0,
            !r@.reset_done,
            r@.wf(),
    {
        Rollout { episode, default_seed, n_bars: None, cursor: Cursor::origin(), rng: seeded_rng(0) }
    }

    /// The episode shape.
    pub fn episode(&self) -> (e: EpisodeSpec)
        ensures
            e == self@.episode,
    {
        self.episode
    }

    /// The current bar.
    pub fn bar(&self) -> (b: usize)
        ensures
            b as nat == self@.bar,
    {
        self.cursor.bar
    }

    /// The number of steps taken since the last reset.
    pub fn steps(&self) -> (s: u32)
        ensures
            s as nat == self@.steps,
    {
        self.cursor.steps
    }

    /// The length of the loaded dataset.
    pub fn n_bars(&self) -> (n: Option<usize>)
        ensures
            self@.n_bars == match n {
                Some(k) => Some(k as nat),
                None => None::<nat>,
            },
    {
        self.n_bars
    }

    /// Install a dataset of `n_bars` bars. The cursor goes back to its origin,
    /// so a fresh `reset` is required before stepping. An empty dataset is
    /// refused with `NoData` and changes nothing.
    pub fn load(&mut self, n_bars: usize) -> (r: Result<(), Error>)
        ensures
            final(self)@.wf(),
            n_bars == 0 ==> r == Err::<(), Error>(Error::NoData) && final(self)@ == old(self)@,
            n_bars > 0 ==> r is Ok && final(self)@ == (RolloutView {
                n_bars: Some(n_bars as nat),
                ..old(self)@.cleared()
            }),
    {
        proof {
            use_type_invariant(&*self);
        }
        if n_bars == 0 {
            return Err(Error::NoData);
        }
        self.cursor = Cursor::origin();
        self.n_bars = Some(n_bars);
        self.rng = seeded_rng(0);
        proof {
            use_type_invariant(&*self);
        }
        Ok(())
    }

    /// Reset the episode: the cursor goes to the warmup bar. The seed is the
    /// argument, else the spec's default, else `0`; it seeds the episode RNG,
    /// whose start-offset draw is over `0..=0`, so every episode starts at the
    /// warmup bar and a trajectory depends only on the policy and the data. Refused with `NoData`
    /// before a load (nothing changes) and with `Data` when the warmup bar
    /// lies past the dataset (the cursor is left cleared).
    pub fn reset(&mut self, seed: Option<u64>) -> (r: Result<usize, Error>)
        ensures
            final(self)@.wf(),
            old(self)@.n_bars is None ==> r == Err::<usize, Error>(Error::NoData) && final(self)@
                == old(self)@,
            old(self)@.n_bars is Some && !old(self)@.can_reset() ==> (final(self)@ == old(
                self,
            )@.cleared() && (r matches Err(Error::Data(m)) && m@
                == "warmup exceeds the loaded dataset"@)),
            old(self)@.can_reset() ==> (final(self)@ == old(self)@.reset_to_start() && (r matches Ok(b) && b as nat == old(self)@.start_bar())),
    {
        proof {
            use_type_invariant(&*self);
        }
        let n = match self.n_bars {
            Some(n) => n,
            None => return Err(Error::NoData),
        };
        let resolved: u64 = match seed {
            Some(s) => s,
            None => match self.default_seed {
                Some(s) => s,
                None => 0,
            },
        };
        self.cursor = Cursor::origin();
        let mut rng = seeded_rng(resolved);
        let offset = draw_offset(&mut rng, 0);
        self.rng = rng;
        let bar = self.episode.warmup as usize + offset;
        if bar >= n {
            proof {
                use_type_invariant(&*self);
            }
            return Err(Error::Data(String::from_str("warmup exceeds the loaded dataset")));
        }
        self.cursor = Cursor { bar, steps: 0, reset_done: true };
        proof {
            use_type_invariant(&*self);
        }
        Ok(bar)
    }

    /// Whether a step may be taken now; on success, the bar the step realises
    /// its reward over (its successor exists). Refused with `NoData` before a
    /// load, `NotReset` before a reset, `EpisodeDone` once terminated or
    /// truncated.
    pub fn begin_step(&self) -> (r: Result<usize, Error>)
        ensures
            self@.can_step() ==> (r matches Ok(b) && b as nat == self@.bar && (self@.n_bars matches Some(n) && b + 1 < n)),
            !self@.can_step() ==> r == Err::<usize, Error>(self@.step_refusal()),
    {
        proof {
            use_type_invariant(self);
        }
        let n = match self.n_bars {
            Some(n) => n,
            None => return Err(Error::NoData),
        };
        if !self.cursor.reset_done {
            return Err(Error::NotReset);
        }
        if self.cursor.bar + 1 >= n || self.cursor.steps >= self.episode.max_steps {
            return Err(Error::EpisodeDone);
        }
        Ok(self.cursor.bar)
    }

    /// Complete a step: advance one bar and one step, and report the flags
    /// `(terminated, truncated)`: the dataset is exhausted (no successor bar),
    /// and the step budget is spent.
    pub fn finish_step(&mut self) -> (flags: (bool, bool))
        requires
            old(self)@.can_step(),
        ensures
            final(self)@.wf(),
            final(self)@ == old(self)@.advanced(),
            (final(self)@.n_bars matches Some(n) && flags.0 == (final(self)@.bar + 1 >= n)),
            flags.1 == (final(self)@.steps >= final(self)@.episode.max_steps),
            final(self)@.done() == (flags.0 || flags.1),
    {
        proof {
            use_type_invariant(&*self);
        }
        let n = match self.n_bars {
            Some(n) => n,
            None => 0,
        };
        self.cursor = Cursor {
            bar: self.cursor.bar + 1,
            steps: self.cursor.steps + 1,
            reset_done: true,
        };
        proof {
            use_type_invariant(&*self);
        }
        let terminated = self.cursor.bar + 1 >= n;
        let truncated = self.cursor.steps >= self.episode.max_steps;
        (terminated, truncated)
    }
}


/// After `k` steps the cursor has moved `k` bars and counted `k` steps; nothing
/// else changes.
pub proof fn lemma_advanced_by(v: RolloutView, k: nat)
    ensures
        v.advanced_by(k) == (RolloutView { bar: v.bar + k, steps: v.steps + k, ..v }),
    decreases k,
{
    if k > 0 {
        lemma_advanced_by(v, (k - 1) as nat);
    }
}

/// An episode runs for exactly `episode_len` steps: after a successful reset,
/// the `k`-th step is allowed if and only if `k < episode_len`, where
/// `episode_len` is the step budget capped by the bars left after the warmup
/// bar. Every cursor on the way satisfies the invariant.
pub proof fn law_episode_length(v: RolloutView, k: nat)
    requires
        v.wf(),
        v.can_reset(),
    ensures
        v.reset_to_start().advanced_by(k).can_step() <==> k < v.episode_len(),
        k <= v.episode_len() ==> v.reset_to_start().advanced_by(k).wf(),
{
    lemma_advanced_by(v.reset_to_start(), k);
}

/// The flags of the `k`-th step of an episode (`1 <= k <= episode_len`):
/// `truncated` fires exactly when `k` reaches `max_steps` (never before),
/// `terminated` exactly when no bar follows the new one, and one of them
/// fires exactly at the last step.
pub proof fn law_step_flags(v: RolloutView, k: nat)
    requires
        v.wf(),
        v.can_reset(),
        1 <= k <= v.episode_len(),
    ensures
        ({
            let after = v.reset_to_start().advanced_by(k);
            &&& after.steps == k
            &&& after.bar == v.start_bar() + k
            &&& (after.steps >= after.episode.max_steps <==> k == v.episode.max_steps)
            &&& (after.n_bars matches Some(n) && (after.bar + 1 >= n <==> v.start_bar() + k + 1
                >= n))
            &&& (after.done() <==> k == v.episode_len())
        }),
{
    lemma_advanced_by(v.reset_to_start(), k);
}

/// Once an episode is done (terminated or truncated), every further step is
/// refused with `EpisodeDone`, until the next reset.
pub proof fn law_done_is_final(v: RolloutView)
    requires
        v.wf(),
        v.reset_done,
        v.done(),
    ensures
        !v.can_step(),
        v.step_refusal() == Error::EpisodeDone,
{
}

/// Every observation an agent sees is warmed up: when the warmup passes the
/// floor (at least every indicator's lookback), every bar the cursor stands on
/// from the reset to the end of the episode lies at or past every lookback.
pub proof fn law_observations_are_warmed_up(v: RolloutView, lookbacks: Seq<usize>, k: nat)
    requires
        v.wf(),
        v.can_reset(),
        v.episode.warmup as nat >= max_lookback(lookbacks),
        k <= v.episode_len(),
    ensures
        forall|i: int|
            0 <= i < lookbacks.len() ==> v.reset_to_start().advanced_by(k).bar >= #[trigger] lookbacks[i],
{
    lemma_advanced_by(v.reset_to_start(), k);
    assert forall|i: int| 0 <= i < lookbacks.len() implies v.reset_to_start().advanced_by(k).bar
        >= #[trigger] lookbacks[i] by {
        lemma_max_lookback_bounds(lookbacks, i);
    }
}

/// A reset forgets the previous episode: where it succeeds, the cursor it
/// produces depends only on the episode shape and the loaded dataset, not on
/// where the cursor stood nor on the seed.
pub proof fn law_reset_forgets(v1: RolloutView, v2: RolloutView)
    requires
        v1.episode == v2.episode,
        v1.default_seed == v2.default_seed,
        v1.n_bars == v2.n_bars,
        v1.can_reset(),
    ensures
        v2.can_reset(),
        v1.reset_to_start() == v2.reset_to_start(),
{
}

} // verus!
