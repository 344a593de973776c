//! The environment data model: the observation definition [`ObsSpec`] with its
//! column layout, the reward kind, the episode bounds, and the structural
//! checks a spec must pass.

use vstd::prelude::*;
use crate::error::Error;
use crate::feature::{Feature, MicroField};
use crate::text::{decimal, push_decimal};

verus! {

/// The observation definition: an ordered feature list plus optional raw
/// orderbook / funding-OI blocks. The order here *is* the observation-vector
/// order.
#[derive(Clone, Debug, PartialEq)]
pub struct ObsSpec {
    /// Declared observation columns, in vector order.
    pub features: Vec<Feature>,
    /// `N` orderbook levels appended as `4*N` columns (`bid_px,bid_sz,ask_px,ask_sz`
    /// per level); `0` = no raw book block.
    pub include_book_levels: u32,
    /// When `true`, append `funding` and `oi` columns.
    pub include_funding_oi: bool,
}

/// Where one observation column takes its value from.
#[derive(Clone, Copy, Debug, PartialEq, Eq, Structural)]
pub enum Column {
    /// The declared feature at this index of `features`.
    Declared(usize),
    /// A raw book column: `field` is one of the four level fields.
    Book { field: MicroField, level: u32 },
    /// The funding rate.
    Funding,
    /// The open interest.
    Oi,
}

/// The four columns of one book level, in order.
pub open spec fn level_columns(level: u32) -> Seq<Column> {
    seq![
        Column::Book { field: MicroField::BidPx, level },
        Column::Book { field: MicroField::BidSz, level },
        Column::Book { field: MicroField::AskPx, level },
        Column::Book { field: MicroField::AskSz, level },
    ]
}

/// The columns of the first `n` book levels.
pub open spec fn book_columns(n: nat) -> Seq<Column>
    decreases n,
{
    if n == 0 {
        Seq::empty()
    } else {
        book_columns((n - 1) as nat) + level_columns((n - 1) as u32)
    }
}

/// The funding/OI block.
pub open spec fn funding_columns(included: bool) -> Seq<Column> {
    if included {
        seq![Column::Funding, Column::Oi]
    } else {
        Seq::empty()
    }
}

pub proof fn lemma_book_columns_len(n: nat)
    ensures
        book_columns(n).len() == 4 * n,
    decreases n,
{
    if n > 0 {
        lemma_book_columns_len((n - 1) as nat);
    }
}

impl ObsSpec {
    /// The observation-vector length.
    pub open spec fn spec_feature_dim(&self) -> nat {
        (self.features.len() + 4 * self.include_book_levels + if self.include_funding_oi {
            2int
        } else {
            0int
        }) as nat
    }

    /// The column layout: declared features in order, then four columns per
    /// book level, then `funding`, `oi`.
    pub open spec fn spec_columns(&self) -> Seq<Column> {
        Seq::new(self.features.len() as nat, |i: int| Column::Declared(i as usize))
            + book_columns(self.include_book_levels as nat)
            + funding_columns(self.include_funding_oi)
    }

    /// The canonical key naming a column. A book or funding/OI column is named
    /// exactly like the microstructure feature reading the same value.
    pub open spec fn spec_column_key(&self, c: Column) -> Seq<char> {
        match c {
            Column::Declared(i) => self.features@[i as int].spec_key(),
            Column::Book { field, level } =>
                "micro."@ + field.spec_name() + seq!['.'] + decimal(level as nat),
            Column::Funding => "micro."@ + MicroField::Funding.spec_name(),
            Column::Oi => "micro."@ + MicroField::Oi.spec_name(),
        }
    }

    /// The per-column keys in vector order.
    pub open spec fn spec_feature_keys(&self) -> Seq<Seq<char>> {
        self.spec_columns().map_values(|c: Column| self.spec_column_key(c))
    }

    /// The fixed observation-vector length: features, then `4` per book level,
    /// then `2` if funding/OI is included.
    pub fn feature_dim(&self) -> (d: usize)
        requires
            self.spec_feature_dim() <= usize::MAX,
        ensures
            d == self.spec_feature_dim(),
    {
        let extra: usize = if self.include_funding_oi { 2 } else { 0 };
        self.features.len() + 4 * (self.include_book_levels as usize) + extra
    }

    /// The column layout, in vector order.
    pub fn columns(&self) -> (cols: Vec<Column>)
        ensures
            cols@ == self.spec_columns(),
    {
        let mut cols: Vec<Column> = Vec::new();
        let n = self.features.len();
        let mut i: usize = 0;
        while i < n
            invariant
                i <= n,
                n == self.features.len(),
                cols@ =~= Seq::new(i as nat, |j: int| Column::Declared(j as usize)),
            decreases n - i,
        {
            cols.push(Column::Declared(i));
            i = i + 1;
        }
        let ghost declared = cols@;
        let mut level: u32 = 0;
        while level < self.include_book_levels
            invariant
                level <= self.include_book_levels,
                cols@ == declared + book_columns(level as nat),
            decreases self.include_book_levels - level,
        {
            cols.push(Column::Book { field: MicroField::BidPx, level });
            cols.push(Column::Book { field: MicroField::BidSz, level });
            cols.push(Column::Book { field: MicroField::AskPx, level });
            cols.push(Column::Book { field: MicroField::AskSz, level });
            proof {
                assert(book_columns(level as nat + 1) == book_columns(level as nat) + level_columns(level));
                assert(cols@ =~= declared + book_columns(level as nat + 1));
            }
            level = level + 1;
        }
        if self.include_funding_oi {
            cols.push(Column::Funding);
            cols.push(Column::Oi);
        }
        assert(cols@ =~= self.spec_columns());
        cols
    }

    /// The canonical key of one column.
    pub fn column_key(&self, c: Column) -> (k: String)
        requires
            c matches Column::Declared(i) ==> i < self.features.len(),
        ensures
            k@ == self.spec_column_key(c),
    {
        match c {
            Column::Declared(i) => self.features[i].key(),
            Column::Book { field, level } => {
                let mut k = String::from_str("micro.");
                k.append(field.as_str());
                k.push('.');
                push_decimal(&mut k, level as u64);
                k
            },
            Column::Funding => {
                let mut k = String::from_str("micro.");
                k.append(MicroField::Funding.as_str());
                k
            },
            Column::Oi => {
                let mut k = String::from_str("micro.");
                k.append(MicroField::Oi.as_str());
                k
            },
        }
    }

    /// The canonical per-column keys in vector order: declared features, then
    /// the book-level columns, then `micro.funding` / `micro.oi`.
    pub fn feature_keys(&self) -> (keys: Vec<String>)
        ensures
            keys@.map_values(|s: String| s@) == self.spec_feature_keys(),
    {
        let cols = self.columns();
        let mut keys: Vec<String> = Vec::new();
        let mut i: usize = 0;
        while i < cols.len()
            invariant
                i <= cols.len(),
                cols@ == self.spec_columns(),
                keys@.map_values(|s: String| s@) =~= cols@.take(i as int).map_values(
                    |c: Column| self.spec_column_key(c),
                ),
            decreases cols.len() - i,
        {
            proof {
                assert(self.spec_columns().contains(cols@[i as int]));
                lemma_declared_in_range(self, cols@[i as int]);
            }
            let k = self.column_key(cols[i]);
            let ghost before = keys@;
            keys.push(k);
            proof {
                assert(cols@.take(i as int + 1) =~= cols@.take(i as int).push(cols@[i as int]));
                assert(keys@ =~= before.push(k));
                assert(keys@.map_values(|s: String| s@) =~= before.map_values(|s: String| s@).push(
                    k@,
                ));
            }
            i = i + 1;
        }
        proof {
            assert(cols@.take(cols.len() as int) =~= cols@);
        }
        keys
    }
}

/// Every declared column of the layout names an existing feature.
pub proof fn lemma_declared_in_range(obs: &ObsSpec, c: Column)
    requires
        obs.spec_columns().contains(c),
    ensures
        c matches Column::Declared(i) ==> i < obs.features.len(),
{
    let cols = obs.spec_columns();
    let k = choose|k: int| 0 <= k < cols.len() && cols[k] == c;
    lemma_book_columns_len(obs.include_book_levels as nat);
    let n = obs.features.len() as int;
    if k >= n {
        let b = book_columns(obs.include_book_levels as nat);
        if k < n + b.len() {
            lemma_book_columns_not_declared(obs.include_book_levels as nat, k - n);
        }
    }
}

/// A book column is never a declared one.
pub proof fn lemma_book_columns_not_declared(n: nat, k: int)
    requires
        0 <= k < book_columns(n).len(),
    ensures
        !(book_columns(n)[k] is Declared),
    decreases n,
{
    lemma_book_columns_len(n);
    if n > 0 {
        lemma_book_columns_len((n - 1) as nat);
        if k < book_columns((n - 1) as nat).len() {
            lemma_book_columns_not_declared((n - 1) as nat, k);
        }
    }
}

/// Column `4 * l + j` of the book block is field `j` of level `l`.
pub proof fn lemma_book_column_at(n: nat, l: nat, j: nat)
    requires
        l < n,
        j < 4,
    ensures
        book_columns(n).len() == 4 * n,
        book_columns(n)[(4 * l + j) as int] == level_columns(l as u32)[j as int],
    decreases n,
{
    lemma_book_columns_len(n);
    lemma_book_columns_len((n - 1) as nat);
    if l < n - 1 {
        lemma_book_column_at((n - 1) as nat, l, j);
    }
}

/// Every column of the book block is a book column.
pub proof fn lemma_book_columns_are_book(n: nat, k: int)
    requires
        0 <= k < book_columns(n).len(),
    ensures
        book_columns(n)[k] is Book,
    decreases n,
{
    lemma_book_columns_len(n);
    if n > 0 {
        lemma_book_columns_len((n - 1) as nat);
        if k < book_columns((n - 1) as nat).len() {
            lemma_book_columns_are_book((n - 1) as nat, k);
        }
    }
}

/// The layout is made of three blocks and nothing else: one column per
/// declared feature, four per book level, and two more exactly when the
/// funding/OI block is requested. A funding or OI column occurs only when that
/// block is requested, and only at its own two places at the end; without it
/// the last column is a declared or a book column.
pub proof fn law_layout_blocks(obs: ObsSpec)
    ensures
        obs.spec_columns().len() == obs.features.len() + 4 * obs.include_book_levels + (if obs.include_funding_oi {
            2int
        } else {
            0int
        }),
        obs.spec_feature_dim() == obs.spec_columns().len(),
        obs.spec_feature_keys().len() == obs.spec_columns().len(),
        forall|i: int|
            0 <= i < obs.spec_columns().len() && (#[trigger] obs.spec_columns()[i] is Funding) ==> obs.include_funding_oi
                && i == obs.features.len() + 4 * obs.include_book_levels,
        forall|i: int|
            0 <= i < obs.spec_columns().len() && (#[trigger] obs.spec_columns()[i] is Oi) ==> obs.include_funding_oi
                && i == obs.features.len() + 4 * obs.include_book_levels + 1,
        !obs.include_funding_oi && obs.spec_columns().len() > 0 ==> (obs.spec_columns().last() is Declared
            || obs.spec_columns().last() is Book),
{
    let n = obs.include_book_levels as nat;
    let f = obs.features.len() as int;
    lemma_book_columns_len(n);
    let cols = obs.spec_columns();
    assert forall|i: int| 0 <= i < cols.len() && !(#[trigger] cols[i] is Declared) && !(cols[i] is Book) implies
        obs.include_funding_oi && (cols[i] is Funding ==> i == f + 4 * n) && (cols[i] is Oi ==> i == f + 4 * n + 1)
        && (cols[i] is Funding || cols[i] is Oi) by {
        if i < f {
        } else if i < f + 4 * n {
            lemma_book_columns_are_book(n, i - f);
            assert(cols[i] == book_columns(n)[i - f]);
        }
    }
    if !obs.include_funding_oi && cols.len() > 0 {
        assert(cols[cols.len() - 1] == cols.last());
    }
}

/// The observation has exactly `feature_dim` columns, and as many keys.
pub proof fn law_layout_len(obs: ObsSpec)
    ensures
        obs.spec_columns().len() == obs.spec_feature_dim(),
        obs.spec_feature_keys().len() == obs.spec_feature_dim(),
{
    lemma_book_columns_len(obs.include_book_levels as nat);
}

/// The exact observation order: the declared features first, in declaration
/// order; then, for each book level in turn, `bid_px, bid_sz, ask_px, ask_sz`;
/// then `funding, oi` when included. Each key names its column.
pub proof fn law_layout_order(obs: ObsSpec)
    ensures
        forall|i: int|
            0 <= i < obs.features.len() ==> #[trigger] obs.spec_columns()[i] == Column::Declared(
                i as usize,
            ) && obs.spec_feature_keys()[i] == obs.features@[i].spec_key(),
        forall|l: nat, j: nat|
            l < obs.include_book_levels && j < 4 ==> #[trigger] obs.spec_columns()[obs.features.len() + 4 * l + j]
                == level_columns(l as u32)[j as int],
        obs.include_funding_oi ==> obs.spec_columns()[obs.features.len() + 4 * obs.include_book_levels]
            == Column::Funding && obs.spec_columns()[obs.features.len() + 4 * obs.include_book_levels + 1]
            == Column::Oi,
        forall|i: int|
            0 <= i < obs.spec_columns().len() ==> #[trigger] obs.spec_feature_keys()[i]
                == obs.spec_column_key(obs.spec_columns()[i]),
{
    let n = obs.include_book_levels as nat;
    let f = obs.features.len() as int;
    lemma_book_columns_len(n);
    let declared = Seq::new(obs.features.len() as nat, |i: int| Column::Declared(i as usize));
    assert forall|l: nat, j: nat|
        l < obs.include_book_levels && j < 4 implies #[trigger] obs.spec_columns()[f + 4 * l + j]
        == level_columns(l as u32)[j as int] by {
        lemma_book_column_at(n, l, j);
        assert(obs.spec_columns()[f + 4 * l + j] == book_columns(n)[(4 * l + j) as int]);
    }
}

/// A book column is named exactly like the level feature reading the same
/// value, and the funding / OI columns like the aggregate features.
pub proof fn law_block_keys_match_features(obs: ObsSpec, field: MicroField, level: u32)
    requires
        field.spec_is_leveled(),
    ensures
        obs.spec_column_key(Column::Book { field, level }) == (Feature::Microstructure {
            field,
            level: Some(level),
        }).spec_key(),
        obs.spec_column_key(Column::Funding) == (Feature::Microstructure {
            field: MicroField::Funding,
            level: None,
        }).spec_key(),
        obs.spec_column_key(Column::Oi) == (Feature::Microstructure {
            field: MicroField::Oi,
            level: None,
        }).spec_key(),
{
}

/// The reward signal.
#[derive(Clone, Copy, Debug, PartialEq, Eq, Structural)]
pub enum RewardKind {
    /// Position times the next bar's price delta.
    Pnl,
    /// Dense increment of the running Sharpe ratio of the PnL series.
    Sharpe,
    /// Position times the next bar's log return.
    LogReturn,
}

/// Episode parameters.
#[derive(Clone, Copy, Debug, PartialEq, Eq, Structural)]
pub struct EpisodeSpec {
    /// The truncation limit: the number of `step()` calls per episode.
    pub max_steps: u32,
    /// Bars skipped so indicators are ready; `reset()` starts at `bar = warmup`.
    pub warmup: u32,
}


impl Default for ObsSpec {
    /// No declared features, no book levels, no funding/OI block.
    fn default() -> (o: ObsSpec)
        ensures
            o.features@.len() == 0,
            o.include_book_levels == 0,
            !o.include_funding_oi,
    {
        ObsSpec { features: Vec::new(), include_book_levels: 0, include_funding_oi: false }
    }
}

/// What the structural check reads of an action space: the bucket count of a
/// discrete space, and of a continuous one whether its band is a proper
/// interval (`low < high`, neither bound NaN).
#[derive(Clone, Copy, Debug, PartialEq, Eq, Structural)]
pub enum ActionShape {
    Discrete { n: u32 },
    Continuous { proper_band: bool },
}

/// `r` is `Err(BadSpec(m))` with message `m`.
pub open spec fn is_bad_spec(r: Result<(), Error>, m: Seq<char>) -> bool {
    r matches Err(Error::BadSpec(s)) && s@ == m
}

/// The message of the first structural check that fails, if any.
pub open spec fn structure_failure(episode: EpisodeSpec, action: ActionShape) -> Option<Seq<char>> {
    if episode.max_steps == 0 {
        Some("episode.max_steps must be > 0"@)
    } else {
        match action {
            ActionShape::Discrete { n } => if n == 0 {
                Some("discrete action space needs n >= 1"@)
            } else {
                None
            },
            ActionShape::Continuous { proper_band } => if !proper_band {
                Some("continuous action space needs low < high"@)
            } else {
                None
            },
        }
    }
}

/// Structural validation of a spec: a positive episode length and a
/// well-formed action space, checked in that order.
pub fn validate_structure(episode: &EpisodeSpec, action: ActionShape) -> (r: Result<(), Error>)
    ensures
        structure_failure(*episode, action) matches Some(m) ==> is_bad_spec(r, m),
        structure_failure(*episode, action) is None ==> r is Ok,
{
    if episode.max_steps == 0 {
        return Err(Error::BadSpec(String::from_str("episode.max_steps must be > 0")));
    }
    match action {
        ActionShape::Discrete { n } => {
            if n == 0 {
                return Err(Error::BadSpec(String::from_str("discrete action space needs n >= 1")));
            }
        },
        ActionShape::Continuous { proper_band } => {
            if !proper_band {
                return Err(
                    Error::BadSpec(String::from_str("continuous action space needs low < high")),
                );
            }
        },
    }
    Ok(())
}

/// The largest lookback of a list (`0` for none).
pub open spec fn max_lookback(lookbacks: Seq<usize>) -> nat
    decreases lookbacks.len(),
{
    if lookbacks.len() == 0 {
        0
    } else {
        let rest = max_lookback(lookbacks.drop_last());
        if lookbacks.last() as nat > rest {
            lookbacks.last() as nat
        } else {
            rest
        }
    }
}

/// Every lookback is at most the largest.
pub proof fn lemma_max_lookback_bounds(lookbacks: Seq<usize>, i: int)
    requires
        0 <= i < lookbacks.len(),
    ensures
        lookbacks[i] as nat <= max_lookback(lookbacks),
    decreases lookbacks.len(),
{
    if i < lookbacks.len() - 1 {
        lemma_max_lookback_bounds(lookbacks.drop_last(), i);
    }
}

/// The refusal of a warmup below what the observation's indicators need.
pub open spec fn warmup_message(warmup: nat, needed: nat) -> Seq<char> {
    "episode.warmup is "@ + decimal(warmup) + " but the observation needs "@ + decimal(needed)
        + ": below that an indicator column is 0.0 because nothing has been produced yet, which an agent cannot tell from a market reading of zero"@
}

/// The longest lookback among the given indicator lookbacks.
pub fn required_warmup(lookbacks: &[usize]) -> (needed: usize)
    ensures
        needed as nat == max_lookback(lookbacks@),
{
    let mut needed: usize = 0;
    let mut i: usize = 0;
    while i < lookbacks.len()
        invariant
            i <= lookbacks.len(),
            needed as nat == max_lookback(lookbacks@.take(i as int)),
        decreases lookbacks.len() - i,
    {
        proof {
            assert(lookbacks@.take(i as int + 1).drop_last() =~= lookbacks@.take(i as int));
        }
        if lookbacks[i] > needed {
            needed = lookbacks[i];
        }
        i = i + 1;
    }
    proof {
        assert(lookbacks@.take(lookbacks.len() as int) =~= lookbacks@);
    }
    needed
}

/// The warmup floor: `episode.warmup` must be at least the longest lookback
/// among the observation's indicators, since below it an indicator column is
/// `0.0` for lack of data rather than a market reading.
pub fn check_warmup(warmup: u32, lookbacks: &[usize]) -> (r: Result<(), Error>)
    ensures
        (warmup as nat) < max_lookback(lookbacks@) ==> is_bad_spec(
            r,
            warmup_message(warmup as nat, max_lookback(lookbacks@)),
        ),
        (warmup as nat) >= max_lookback(lookbacks@) ==> r is Ok,
{
    let needed = required_warmup(lookbacks);
    if (warmup as usize) < needed {
        let mut m = String::from_str("episode.warmup is ");
        push_decimal(&mut m, warmup as u64);
        m.append(" but the observation needs ");
        push_decimal(&mut m, needed as u64);
        m.append(
            ": below that an indicator column is 0.0 because nothing has been produced yet, which an agent cannot tell from a market reading of zero",
        );
        Err(Error::BadSpec(m))
    } else {
        Ok(())
    }
}

} // verus!
