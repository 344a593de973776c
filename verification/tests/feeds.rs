use gym_core::feeds::{classify, BarShape, RegistryFeed};
use gym_core::{feed_kind, Available, Error, Feature, FeedKind, ObsSpec, Param, PriceField};

fn plain() -> BarShape {
    BarShape {
        bid_levels: 0,
        ask_levels: 0,
        funding: false,
        oi: false,
    }
}

fn book() -> BarShape {
    BarShape {
        bid_levels: 2,
        ask_levels: 2,
        ..plain()
    }
}

fn funded() -> BarShape {
    BarShape {
        funding: true,
        oi: true,
        ..plain()
    }
}

#[test]
fn availability_needs_every_bar_to_carry_the_feed() {
    let mixed = [book(), plain()];
    assert!(
        !Available::of(&mixed).orderbook,
        "a feed on some bars only is not available"
    );
    let all = [book(), book()];
    assert!(Available::of(&all).orderbook);
}

#[test]
fn an_empty_dataset_supplies_nothing() {
    assert_eq!(Available::of(&[]), Available::default());
}

#[test]
fn the_three_families_an_environment_cannot_have_are_never_available() {
    let all = Available {
        orderbook: true,
        derivatives: true,
    };
    for kind in [
        FeedKind::Pair,
        FeedKind::Trades,
        FeedKind::TradeQuote,
        FeedKind::CrossSection,
    ] {
        assert!(!all.has(kind), "{} must never be available", kind.as_str());
        assert!(!kind.why_absent().is_empty());
    }
    assert!(all.has(FeedKind::Candle));
    assert!(all.has(FeedKind::OrderBook));
    assert!(all.has(FeedKind::Derivatives));
}

#[test]
fn feed_kind_classifies_the_families() {
    assert_eq!(feed_kind("Rsi"), Some(FeedKind::Candle));
    assert_eq!(feed_kind("Microprice"), Some(FeedKind::OrderBook));
    assert_eq!(feed_kind("FundingRate"), Some(FeedKind::Derivatives));
    assert_eq!(feed_kind("RollingCorrelation"), Some(FeedKind::Pair));
    assert_eq!(feed_kind("NotAnIndicator"), None);
}

#[test]
fn derivatives_need_funding_or_open_interest_on_every_bar() {
    let only_oi = BarShape {
        oi: true,
        ..plain()
    };
    assert!(Available::of(&[funded(), only_oi]).derivatives);
    assert!(!Available::of(&[funded(), plain()]).derivatives);
    let one_sided = BarShape {
        bid_levels: 1,
        ..plain()
    };
    assert!(!Available::of(&[one_sided]).orderbook);
    let a = Available::of(&[plain()]);
    assert!(!a.has(FeedKind::OrderBook));
    assert!(!a.has(FeedKind::Derivatives));
    assert!(a.has(FeedKind::Candle));
}

#[test]
fn feed_names_and_reasons() {
    assert_eq!(FeedKind::Candle.as_str(), "candle");
    assert_eq!(FeedKind::Pair.as_str(), "reference");
    assert_eq!(FeedKind::Derivatives.as_str(), "funding/open-interest");
    assert_eq!(FeedKind::OrderBook.as_str(), "orderbook");
    assert_eq!(FeedKind::Trades.as_str(), "trades");
    assert_eq!(FeedKind::TradeQuote.as_str(), "trades and orderbook");
    assert_eq!(FeedKind::CrossSection.as_str(), "cross-section");
    assert_eq!(
        FeedKind::OrderBook.why_absent(),
        "no bar in this dataset carries order-book levels"
    );
    assert_eq!(
        FeedKind::Pair.why_absent(),
        "an environment steps one symbol, so there is no second series to read"
    );
    assert_eq!(FeedKind::Candle.why_absent(), "the candle is always present");
}

fn spec_for(name: &str, params: Vec<Param>) -> ObsSpec {
    ObsSpec {
        features: vec![
            Feature::Indicator {
                name: name.to_string(),
                params,
                field: None,
            },
            Feature::Price {
                field: PriceField::Close,
            },
        ],
        include_book_levels: 0,
        include_funding_oi: false,
    }
}

fn assert_refused(name: &str, feed: &str) {
    let avail = Available::of(&[plain(), plain()]);
    match spec_for(name, vec![]).check_feeds(avail) {
        Err(Error::MissingFeed {
            indicator,
            feed: got,
            why,
        }) => {
            assert_eq!(indicator, name);
            assert_eq!(got, feed);
            assert!(!why.is_empty(), "the refusal says why the feed is absent");
        }
        other => panic!("{name}: expected MissingFeed, got {other:?}"),
    }
}

#[test]
fn an_order_book_indicator_is_refused_without_a_book_and_accepted_with_one() {
    assert_refused("Microprice", "orderbook");
    let avail = Available::of(&[book(), book()]);
    assert!(spec_for("Microprice", vec![]).check_feeds(avail).is_ok());
}

#[test]
fn a_derivatives_indicator_is_refused_without_funding_and_accepted_with_it() {
    assert_refused("FundingRate", "funding/open-interest");
    let avail = Available::of(&[funded()]);
    assert!(spec_for("FundingRate", vec![]).check_feeds(avail).is_ok());
}

#[test]
fn a_candle_indicator_needs_no_side_feed() {
    let avail = Available::of(&[plain()]);
    assert!(spec_for("Rsi", vec![Param::Whole(14)])
        .check_feeds(avail)
        .is_ok());
}

#[test]
fn the_families_without_a_source_are_refused_with_a_reason() {
    assert_refused("CumulativeVolumeDelta", "trades");
    assert_refused("EffectiveSpread", "trades and orderbook");
    assert_refused("AdvanceDecline", "cross-section");
}

#[test]
fn every_pairwise_indicator_is_refused_for_lack_of_a_reference() {
    const PAIRWISE: [&str; 24] = [
        "Alpha",
        "Beta",
        "BetaNeutralSpread",
        "Cointegration",
        "DistanceSsd",
        "GrangerCausality",
        "HasbrouckInformationShare",
        "InformationRatio",
        "KalmanHedgeRatio",
        "KendallTau",
        "LeadLagCrossCorrelation",
        "OuHalfLife",
        "PairSpreadZScore",
        "PairwiseBeta",
        "PearsonCorrelation",
        "RelativeStrengthAB",
        "RollingCorrelation",
        "RollingCovariance",
        "SpearmanCorrelation",
        "SpreadAr1Coefficient",
        "SpreadBollingerBands",
        "SpreadHurst",
        "TreynorRatio",
        "VarianceRatio",
    ];
    for name in PAIRWISE {
        assert_refused(name, "reference");
    }
}

#[test]
fn the_first_refused_indicator_is_named_and_the_message_reads_in_full() {
    let obs = ObsSpec {
        features: vec![
            Feature::Indicator {
                name: "Rsi".into(),
                params: vec![Param::Whole(14)],
                field: None,
            },
            Feature::Indicator {
                name: "Microprice".into(),
                params: vec![],
                field: None,
            },
            Feature::Indicator {
                name: "Beta".into(),
                params: vec![Param::Whole(20)],
                field: None,
            },
        ],
        include_book_levels: 0,
        include_funding_oi: false,
    };
    let err = obs.check_feeds(Available::of(&[plain()])).unwrap_err();
    assert_eq!(
        err.message(),
        "Microprice needs the orderbook feed: no bar in this dataset carries order-book levels"
    );
}

#[test]
fn registry_classes_map_onto_feed_kinds() {
    assert_eq!(classify("Rsi", Some(RegistryFeed::Kline)), Some(FeedKind::Candle));
    assert_eq!(classify("Beta", Some(RegistryFeed::Kline)), Some(FeedKind::Pair));
    assert_eq!(classify("Beta", Some(RegistryFeed::Trade)), Some(FeedKind::Trades));
    assert_eq!(classify("X", Some(RegistryFeed::Orderbook)), Some(FeedKind::OrderBook));
    assert_eq!(classify("X", Some(RegistryFeed::TradeQuote)), Some(FeedKind::TradeQuote));
    assert_eq!(classify("X", Some(RegistryFeed::Derivatives)), Some(FeedKind::Derivatives));
    assert_eq!(classify("X", Some(RegistryFeed::CrossSection)), Some(FeedKind::CrossSection));
    assert_eq!(classify("Rsi", None), None);
    // Pairwise membership is by exact name.
    assert_eq!(classify("beta", Some(RegistryFeed::Kline)), Some(FeedKind::Candle));
    assert_eq!(classify("Betas", Some(RegistryFeed::Kline)), Some(FeedKind::Candle));
}
