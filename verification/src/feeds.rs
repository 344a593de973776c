//! The side feeds an indicator may consume beyond the candle, and the refusal of
//! a spec whose indicator needs a feed the dataset cannot supply: such a
//! column could only ever read `0.0`, indistinguishable from a warming-up one.

use vstd::prelude::*;
use crate::error::Error;
use crate::feature::Feature;
use crate::spec::ObsSpec;

verus! {

/// Which side feed an indicator family consumes. This refines the registry's
/// own classification with the pairwise family, which the registry files under
/// the candle feed.
#[derive(Clone, Copy, Debug, PartialEq, Eq, Structural)]
pub enum FeedKind {
    /// The candle alone.
    Candle,
    /// The candle plus a reference series' close (pairwise indicators).
    Pair,
    /// A derivatives tick: funding, open interest, mark and index.
    Derivatives,
    /// An order-book snapshot.
    OrderBook,
    /// The trades that printed within the bar.
    Trades,
    /// Trades quoted against the book mid (needs both feeds).
    TradeQuote,
    /// The market cross-section, for the breadth family.
    CrossSection,
}

impl FeedKind {
    /// The name used in error messages and documentation.
    pub open spec fn spec_name(self) -> Seq<char> {
        match self {
            FeedKind::Candle => "candle"@,
            FeedKind::Pair => "reference"@,
            FeedKind::Derivatives => "funding/open-interest"@,
            FeedKind::OrderBook => "orderbook"@,
            FeedKind::Trades => "trades"@,
            FeedKind::TradeQuote => "trades and orderbook"@,
            FeedKind::CrossSection => "cross-section"@,
        }
    }

    /// Why a dataset cannot carry this feed.
    pub open spec fn spec_why_absent(self) -> Seq<char> {
        match self {
            FeedKind::Pair => "an environment steps one symbol, so there is no second series to read"@,
            FeedKind::Trades | FeedKind::TradeQuote => "a bar carries aggregate volume, not the individual prints"@,
            FeedKind::CrossSection => "an environment steps one symbol, so there is no market panel"@,
            FeedKind::Derivatives => "no bar in this dataset carries funding or open interest"@,
            FeedKind::OrderBook => "no bar in this dataset carries order-book levels"@,
            FeedKind::Candle => "the candle is always present"@,
        }
    }

    /// The name used in error messages and documentation.
    pub fn as_str(self) -> (s: &'static str)
        ensures
            s@ == self.spec_name(),
    {
        match self {
            FeedKind::Candle => "candle",
            FeedKind::Pair => "reference",
            FeedKind::Derivatives => "funding/open-interest",
            FeedKind::OrderBook => "orderbook",
            FeedKind::Trades => "trades",
            FeedKind::TradeQuote => "trades and orderbook",
            FeedKind::CrossSection => "cross-section",
        }
    }

    /// Why a dataset cannot carry this feed, for the ones no bar ever holds.
    pub fn why_absent(self) -> (s: &'static str)
        ensures
            s@ == self.spec_why_absent(),
    {
        match self {
            FeedKind::Pair => "an environment steps one symbol, so there is no second series to read",
            FeedKind::Trades | FeedKind::TradeQuote => "a bar carries aggregate volume, not the individual prints",
            FeedKind::CrossSection => "an environment steps one symbol, so there is no market panel",
            FeedKind::Derivatives => "no bar in this dataset carries funding or open interest",
            FeedKind::OrderBook => "no bar in this dataset carries order-book levels",
            FeedKind::Candle => "the candle is always present",
        }
    }
}

/// The registry's own feed classes, one per variant of its `Feed` enum.
#[derive(Clone, Copy, Debug, PartialEq, Eq, Structural)]
pub enum RegistryFeed {
    Kline,
    Trade,
    Orderbook,
    TradeQuote,
    Derivatives,
    CrossSection,
}

/// The registry's classification of an indicator name (`None` for a name it
/// does not know).
pub uninterp spec fn registry_feed_of(name: Seq<char>) -> Option<RegistryFeed>;

/// Calls `wickra_backtest::core::registry::feed_of`, the registry's lookup
/// table from indicator name to feed. Claims only that the answer is a function
/// of the name (named `registry_feed_of`); each `Feed` variant maps to the
/// `RegistryFeed` variant of the same name.
#[verifier::external_body]
fn registry_feed(name: &str) -> (r: Option<RegistryFeed>)
    ensures
        r == registry_feed_of(name@),
{
    match wickra_backtest::core::registry::feed_of(name) {
        None => None,
        Some(wickra_backtest::core::spec::Feed::Kline) => Some(RegistryFeed::Kline),
        Some(wickra_backtest::core::spec::Feed::Trade) => Some(RegistryFeed::Trade),
        Some(wickra_backtest::core::spec::Feed::Orderbook) => Some(RegistryFeed::Orderbook),
        Some(wickra_backtest::core::spec::Feed::TradeQuote) => Some(RegistryFeed::TradeQuote),
        Some(wickra_backtest::core::spec::Feed::Derivatives) => Some(RegistryFeed::Derivatives),
        Some(wickra_backtest::core::spec::Feed::CrossSection) => Some(RegistryFeed::CrossSection),
    }
}

/// Character-wise equality of two strings.
pub fn str_eq(a: &str, b: &str) -> (r: bool)
    ensures
        r == (a@ == b@),
{
    let n = a.unicode_len();
    if n != b.unicode_len() {
        return false;
    }
    let mut i: usize = 0;
    while i < n
        invariant
            i <= n,
            n == a@.len(),
            n == b@.len(),
            forall|j: int| 0 <= j < i ==> a@[j] == b@[j],
        decreases n - i,
    {
        if a.get_char(i) != b.get_char(i) {
            return false;
        }
        i = i + 1;
    }
    assert(a@ =~= b@);
    true
}

/// The pairwise indicators, which read a reference series' close alongside the
/// bar close; the registry classifies them under the candle feed.
pub open spec fn is_pairwise(name: Seq<char>) -> bool {
    ||| name == "Alpha"@
    ||| name == "Beta"@
    ||| name == "BetaNeutralSpread"@
    ||| name == "Cointegration"@
    ||| name == "DistanceSsd"@
    ||| name == "GrangerCausality"@
    ||| name == "HasbrouckInformationShare"@
    ||| name == "InformationRatio"@
    ||| name == "KalmanHedgeRatio"@
    ||| name == "KendallTau"@
    ||| name == "LeadLagCrossCorrelation"@
    ||| name == "OuHalfLife"@
    ||| name == "PairSpreadZScore"@
    ||| name == "PairwiseBeta"@
    ||| name == "PearsonCorrelation"@
    ||| name == "RelativeStrengthAB"@
    ||| name == "RollingCorrelation"@
    ||| name == "RollingCovariance"@
    ||| name == "SpearmanCorrelation"@
    ||| name == "SpreadAr1Coefficient"@
    ||| name == "SpreadBollingerBands"@
    ||| name == "SpreadHurst"@
    ||| name == "TreynorRatio"@
    ||| name == "VarianceRatio"@
}

/// Whether `name` is one of the pairwise indicators.
pub fn pairwise(name: &str) -> (r: bool)
    ensures
        r == is_pairwise(name@),
{
    str_eq(name, "Alpha") || str_eq(name, "Beta") || str_eq(name, "BetaNeutralSpread")
        || str_eq(name, "Cointegration") || str_eq(name, "DistanceSsd")
        || str_eq(name, "GrangerCausality") || str_eq(name, "HasbrouckInformationShare")
        || str_eq(name, "InformationRatio") || str_eq(name, "KalmanHedgeRatio")
        || str_eq(name, "KendallTau") || str_eq(name, "LeadLagCrossCorrelation")
        || str_eq(name, "OuHalfLife") || str_eq(name, "PairSpreadZScore")
        || str_eq(name, "PairwiseBeta") || str_eq(name, "PearsonCorrelation")
        || str_eq(name, "RelativeStrengthAB") || str_eq(name, "RollingCorrelation")
        || str_eq(name, "RollingCovariance") || str_eq(name, "SpearmanCorrelation")
        || str_eq(name, "SpreadAr1Coefficient") || str_eq(name, "SpreadBollingerBands")
        || str_eq(name, "SpreadHurst") || str_eq(name, "TreynorRatio")
        || str_eq(name, "VarianceRatio")
}

/// The feed an indicator consumes, given the registry's class for its name:
/// the pairwise names of the candle class are set apart.
pub open spec fn spec_classify(name: Seq<char>, class: Option<RegistryFeed>) -> Option<FeedKind> {
    match class {
        None => None,
        Some(RegistryFeed::Kline) => if is_pairwise(name) {
            Some(FeedKind::Pair)
        } else {
            Some(FeedKind::Candle)
        },
        Some(RegistryFeed::Trade) => Some(FeedKind::Trades),
        Some(RegistryFeed::Orderbook) => Some(FeedKind::OrderBook),
        Some(RegistryFeed::TradeQuote) => Some(FeedKind::TradeQuote),
        Some(RegistryFeed::Derivatives) => Some(FeedKind::Derivatives),
        Some(RegistryFeed::CrossSection) => Some(FeedKind::CrossSection),
    }
}

/// The feed an indicator consumes: the registry's class for its name.
pub open spec fn spec_feed_kind(name: Seq<char>) -> Option<FeedKind> {
    spec_classify(name, registry_feed_of(name))
}

/// Which feed an indicator consumes, given the registry's class for its name
/// (`None` for a name the registry does not know).
pub fn classify(name: &str, class: Option<RegistryFeed>) -> (k: Option<FeedKind>)
    ensures
        k == spec_classify(name@, class),
{
    match class {
        None => None,
        Some(RegistryFeed::Kline) => if pairwise(name) {
            Some(FeedKind::Pair)
        } else {
            Some(FeedKind::Candle)
        },
        Some(RegistryFeed::Trade) => Some(FeedKind::Trades),
        Some(RegistryFeed::Orderbook) => Some(FeedKind::OrderBook),
        Some(RegistryFeed::TradeQuote) => Some(FeedKind::TradeQuote),
        Some(RegistryFeed::Derivatives) => Some(FeedKind::Derivatives),
        Some(RegistryFeed::CrossSection) => Some(FeedKind::CrossSection),
    }
}

/// Which feed an indicator consumes, or `None` if the registry does not know it.
pub fn feed_kind(name: &str) -> (k: Option<FeedKind>)
    ensures
        k == spec_feed_kind(name@),
{
    let class = registry_feed(name);
    classify(name, class)
}

/// What one bar carries beyond OHLCV: the number of bid and ask price levels,
/// and whether it holds a funding rate and an open interest.
#[derive(Clone, Copy, Debug, PartialEq, Eq, Structural)]
pub struct BarShape {
    pub bid_levels: usize,
    pub ask_levels: usize,
    pub funding: bool,
    pub oi: bool,
}

/// Which feed families a dataset can supply.
#[derive(Clone, Copy, Debug, PartialEq, Eq, Structural)]
pub struct Available {
    /// Every bar carries at least one order-book level on both sides.
    pub orderbook: bool,
    /// Every bar carries a funding rate or an open interest.
    pub derivatives: bool,
}

impl Default for Available {
    /// Nothing available beyond the candle.
    fn default() -> (a: Available)
        ensures
            !a.orderbook && !a.derivatives,
    {
        Available { orderbook: false, derivatives: false }
    }
}

/// The bar carries a book on both sides.
pub open spec fn bar_has_book(b: BarShape) -> bool {
    b.bid_levels > 0 && b.ask_levels > 0
}

/// The bar carries funding or open interest.
pub open spec fn bar_has_derivatives(b: BarShape) -> bool {
    b.funding || b.oi
}

impl Available {
    /// What a dataset of bars with these shapes supplies: a feed counts only
    /// when every bar carries it, and an empty dataset supplies nothing.
    pub open spec fn spec_of(bars: Seq<BarShape>) -> Available {
        if bars.len() == 0 {
            Available { orderbook: false, derivatives: false }
        } else {
            Available {
                orderbook: forall|i: int| 0 <= i < bars.len() ==> bar_has_book(#[trigger] bars[i]),
                derivatives: forall|i: int|
                    0 <= i < bars.len() ==> bar_has_derivatives(#[trigger] bars[i]),
            }
        }
    }

    /// Whether a feed family is present.
    pub open spec fn spec_has(self, kind: FeedKind) -> bool {
        match kind {
            FeedKind::Candle => true,
            FeedKind::OrderBook => self.orderbook,
            FeedKind::Derivatives => self.derivatives,
            FeedKind::Pair | FeedKind::Trades | FeedKind::TradeQuote | FeedKind::CrossSection => false,
        }
    }

    /// What the bars can supply. A feed present on some bars and absent on
    /// others is not available: the indicator would tick on a hole.
    pub fn of(bars: &[BarShape]) -> (a: Available)
        ensures
            a == Available::spec_of(bars@),
    {
        if bars.len() == 0 {
            return Available { orderbook: false, derivatives: false };
        }
        let mut orderbook = true;
        let mut derivatives = true;
        let mut i: usize = 0;
        while i < bars.len()
            invariant
                i <= bars.len(),
                orderbook == forall|j: int| 0 <= j < i ==> bar_has_book(#[trigger] bars@[j]),
                derivatives == forall|j: int| 0 <= j < i ==> bar_has_derivatives(#[trigger] bars@[j]),
            decreases bars.len() - i,
        {
            let b = bars[i];
            if !(b.bid_levels > 0 && b.ask_levels > 0) {
                orderbook = false;
            }
            if !(b.funding || b.oi) {
                derivatives = false;
            }
            i = i + 1;
        }
        Available { orderbook, derivatives }
    }

    /// Whether a feed family is present. An environment steps one symbol over
    /// OHLCV bars: there is no second series, no individual prints and no
    /// market panel.
    pub fn has(self, kind: FeedKind) -> (b: bool)
        ensures
            b == self.spec_has(kind),
    {
        match kind {
            FeedKind::Candle => true,
            FeedKind::OrderBook => self.orderbook,
            FeedKind::Derivatives => self.derivatives,
            FeedKind::Pair | FeedKind::Trades | FeedKind::TradeQuote | FeedKind::CrossSection => false,
        }
    }
}

/// The feed a declared feature needs and the dataset lacks, if any.
pub open spec fn refused_feed(f: Feature, avail: Available) -> Option<FeedKind> {
    match f {
        Feature::Indicator { name, .. } => match spec_feed_kind(name@) {
            Some(k) => if !avail.spec_has(k) {
                Some(k)
            } else {
                None
            },
            None => None,
        },
        _ => None,
    }
}

/// `e` is the refusal of indicator `name` for lack of feed `k`.
pub open spec fn is_missing_feed(e: Error, name: Seq<char>, k: FeedKind) -> bool {
    e matches Error::MissingFeed { indicator, feed, why } && indicator@ == name && feed@
        == k.spec_name() && why@ == k.spec_why_absent()
}

/// The pairwise indicators, listed by name: the only names of the candle class
/// that read a second series.
pub open spec fn pairwise_list() -> Seq<Seq<char>> {
    seq![
        "Alpha"@,
        "Beta"@,
        "BetaNeutralSpread"@,
        "Cointegration"@,
        "DistanceSsd"@,
        "GrangerCausality"@,
        "HasbrouckInformationShare"@,
        "InformationRatio"@,
        "KalmanHedgeRatio"@,
        "KendallTau"@,
        "LeadLagCrossCorrelation"@,
        "OuHalfLife"@,
        "PairSpreadZScore"@,
        "PairwiseBeta"@,
        "PearsonCorrelation"@,
        "RelativeStrengthAB"@,
        "RollingCorrelation"@,
        "RollingCovariance"@,
        "SpearmanCorrelation"@,
        "SpreadAr1Coefficient"@,
        "SpreadBollingerBands"@,
        "SpreadHurst"@,
        "TreynorRatio"@,
        "VarianceRatio"@,
    ]
}

/// Within the registry's candle class, a name is classified `Pair` exactly when
/// it is one of the twenty-four pairwise indicators, and `Candle` otherwise;
/// every other registry class maps to its own feed, and an unknown name to
/// nothing.
pub proof fn law_classify(name: Seq<char>)
    ensures
        pairwise_list().len() == 24,
        pairwise_list().contains(name) ==> spec_classify(name, Some(RegistryFeed::Kline)) == Some(
            FeedKind::Pair,
        ),
        !pairwise_list().contains(name) ==> spec_classify(name, Some(RegistryFeed::Kline)) == Some(
            FeedKind::Candle,
        ),
        spec_classify(name, Some(RegistryFeed::Trade)) == Some(FeedKind::Trades),
        spec_classify(name, Some(RegistryFeed::Orderbook)) == Some(FeedKind::OrderBook),
        spec_classify(name, Some(RegistryFeed::TradeQuote)) == Some(FeedKind::TradeQuote),
        spec_classify(name, Some(RegistryFeed::Derivatives)) == Some(FeedKind::Derivatives),
        spec_classify(name, Some(RegistryFeed::CrossSection)) == Some(FeedKind::CrossSection),
        spec_classify(name, None) is None,
{
    let list = pairwise_list();
    if name == "Alpha"@ {
        assert(list[0] == name);
    } else if name == "Beta"@ {
        assert(list[1] == name);
    } else if name == "BetaNeutralSpread"@ {
        assert(list[2] == name);
    } else if name == "Cointegration"@ {
        assert(list[3] == name);
    } else if name == "DistanceSsd"@ {
        assert(list[4] == name);
    } else if name == "GrangerCausality"@ {
        assert(list[5] == name);
    } else if name == "HasbrouckInformationShare"@ {
        assert(list[6] == name);
    } else if name == "InformationRatio"@ {
        assert(list[7] == name);
    } else if name == "KalmanHedgeRatio"@ {
        assert(list[8] == name);
    } else if name == "KendallTau"@ {
        assert(list[9] == name);
    } else if name == "LeadLagCrossCorrelation"@ {
        assert(list[10] == name);
    } else if name == "OuHalfLife"@ {
        assert(list[11] == name);
    } else if name == "PairSpreadZScore"@ {
        assert(list[12] == name);
    } else if name == "PairwiseBeta"@ {
        assert(list[13] == name);
    } else if name == "PearsonCorrelation"@ {
        assert(list[14] == name);
    } else if name == "RelativeStrengthAB"@ {
        assert(list[15] == name);
    } else if name == "RollingCorrelation"@ {
        assert(list[16] == name);
    } else if name == "RollingCovariance"@ {
        assert(list[17] == name);
    } else if name == "SpearmanCorrelation"@ {
        assert(list[18] == name);
    } else if name == "SpreadAr1Coefficient"@ {
        assert(list[19] == name);
    } else if name == "SpreadBollingerBands"@ {
        assert(list[20] == name);
    } else if name == "SpreadHurst"@ {
        assert(list[21] == name);
    } else if name == "TreynorRatio"@ {
        assert(list[22] == name);
    } else if name == "VarianceRatio"@ {
        assert(list[23] == name);
    }
    if list.contains(name) {
        let i = choose|i: int| 0 <= i < list.len() && list[i] == name;
        assert(is_pairwise(list[i]));
    }
}

/// A feed counts as available exactly when every bar of a non-empty dataset
/// carries it: the book when each bar has a level on both sides, the
/// derivatives feed when each bar has a funding rate or an open interest
/// (either one suffices). An empty dataset supplies neither. Beyond those two,
/// only the candle is ever present.
pub proof fn law_available_of(bars: Seq<BarShape>)
    ensures
        bars.len() == 0 ==> !Available::spec_of(bars).orderbook && !Available::spec_of(bars).derivatives,
        bars.len() > 0 ==> (Available::spec_of(bars).derivatives <==> forall|i: int|
            0 <= i < bars.len() ==> (#[trigger] bars[i]).funding || bars[i].oi),
        bars.len() > 0 ==> (Available::spec_of(bars).orderbook <==> forall|i: int|
            0 <= i < bars.len() ==> (#[trigger] bars[i]).bid_levels > 0 && bars[i].ask_levels > 0),
        forall|a: Available| #[trigger] a.spec_has(FeedKind::Candle),
        forall|a: Available| #[trigger] a.spec_has(FeedKind::Derivatives) == a.derivatives,
        forall|a: Available| #[trigger] a.spec_has(FeedKind::OrderBook) == a.orderbook,
        forall|a: Available, k: FeedKind|
            k != FeedKind::Candle && k != FeedKind::Derivatives && k != FeedKind::OrderBook ==> !#[trigger] a.spec_has(k),
{
}

impl ObsSpec {
    /// Refuse a spec whose indicator needs a feed the dataset cannot supply:
    /// the first such indicator, in declaration order, is named together with
    /// the feed and the reason it is absent.
    pub fn check_feeds(&self, avail: Available) -> (r: Result<(), Error>)
        ensures
            r is Ok <==> forall|i: int|
                0 <= i < self.features.len() ==> refused_feed(#[trigger] self.features@[i], avail) is None,
            r matches Err(e) ==> exists|i: int|
                0 <= i < self.features.len() && (forall|j: int|
                    0 <= j < i ==> refused_feed(#[trigger] self.features@[j], avail) is None)
                    && (refused_feed(#[trigger] self.features@[i], avail) matches Some(k) && self.features@[i] matches Feature::Indicator {
                    name,
                    ..
                } && is_missing_feed(e, name@, k)),
    {
        let mut i: usize = 0;
        while i < self.features.len()
            invariant
                i <= self.features.len(),
                forall|j: int| 0 <= j < i ==> refused_feed(#[trigger] self.features@[j], avail) is None,
            decreases self.features.len() - i,
        {
            match &self.features[i] {
                Feature::Indicator { name, .. } => {
                    match feed_kind(name.as_str()) {
                        Some(k) => {
                            if !avail.has(k) {
                                let e = Error::MissingFeed {
                                    indicator: name.clone(),
                                    feed: String::from_str(k.as_str()),
                                    why: String::from_str(k.why_absent()),
                                };
                                return Err(e);
                            }
                        },
                        None => {},
                    }
                },
                _ => {},
            }
            i = i + 1;
        }
        Ok(())
    }
}

} // verus!
