//! The deterministic core of a Gymnasium-style, O(1)-step backtest
//! environment: the observation layout, the rollout cursor, the feed checks
//! and the command protocol, each stated as a contract and proved.

pub mod error;
pub mod text;
pub mod feature;
pub mod spec;
pub mod feeds;
pub mod rollout;
pub mod tensor;
pub mod command;
pub mod ffi;
pub mod json;
pub mod cli;
pub mod indicators;

pub use error::Error;
pub use feature::{Feature, MicroField, Param, PriceField};
pub use feeds::{Available, BarShape, FeedKind, feed_kind};
pub use rollout::Rollout;
pub use tensor::{FeatureTensor, TensorBuilder};
pub use cli::{Args, Format, Policy};
pub use command::CommandKind;
pub use indicators::FieldWatch;
pub use spec::{ActionShape, Column, EpisodeSpec, ObsSpec, RewardKind};

use vstd::prelude::*;

verus! {

/// The crate version.
pub fn version() -> (v: &'static str)
    ensures
        v@ == "0.1.4"@,
{
    "0.1.4"
}

} // verus!
