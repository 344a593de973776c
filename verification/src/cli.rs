//! The reference rollout runner's options: the fixed action policies, the output
//! format, and the command-line arguments.

use vstd::prelude::*;
use crate::spec::EpisodeSpec;

verus! {

/// A fixed, deterministic action policy.
#[derive(Clone, Copy, Debug, PartialEq, Eq, Structural)]
pub enum Policy {
    /// Always take action `0`.
    Always0,
    /// Always take action `1`.
    Always1,
    /// Always take action `2`.
    Always2,
    /// Cycle `0, 1, 2, 0, ...` by step index.
    Cycle,
}

impl Policy {
    /// The discrete action this policy takes at step `step`.
    pub open spec fn spec_action(self, step: u32) -> u32 {
        match self {
            Policy::Always0 => 0,
            Policy::Always1 => 1,
            Policy::Always2 => 2,
            Policy::Cycle => step % 3,
        }
    }

    /// The action (a discrete bucket) this policy takes at the given step index.
    pub fn action(self, step: u32) -> (a: u32)
        ensures
            a == self.spec_action(step),
            a < 3,
    {
        match self {
            Policy::Always0 => 0,
            Policy::Always1 => 1,
            Policy::Always2 => 2,
            Policy::Cycle => step % 3,
        }
    }
}

/// The output rendering.
#[derive(Clone, Copy, Debug, PartialEq, Eq, Structural)]
pub enum Format {
    /// A human-readable aligned table.
    Text,
    /// Golden-format JSON (`{reset, trajectory}`).
    Json,
}

/// The runner's arguments.
#[derive(Clone, Debug)]
pub struct Args {
    /// Path to the environment spec (`.json` or `.toml`, chosen by extension).
    pub spec: String,
    /// Path to the candle dataset CSV.
    pub data: String,
    /// The deterministic policy to run.
    pub policy: Policy,
    /// Override the spec's `episode.max_steps`.
    pub steps: Option<u32>,
    /// Episode seed (overrides the spec's default seed).
    pub seed: Option<u64>,
    /// Output format.
    pub format: Format,
}

impl Args {
    /// The episode bounds after the `--steps` override.
    pub fn episode_with_overrides(&self, episode: EpisodeSpec) -> (e: EpisodeSpec)
        ensures
            e.warmup == episode.warmup,
            e.max_steps == match self.steps {
                Some(s) => s,
                None => episode.max_steps,
            },
    {
        match self.steps {
            Some(s) => EpisodeSpec { max_steps: s, ..episode },
            None => episode,
        }
    }
}

} // verus!
