use gym_core::spec::ObsSpec;
use gym_core::Column;
use gym_core::{Feature, MicroField, Param, PriceField};

fn indicator(name: &str, params: Vec<Param>, field: Option<&str>) -> Feature {
    Feature::Indicator {
        name: name.to_string(),
        params,
        field: field.map(|f| f.to_string()),
    }
}

#[test]
fn indicator_key_formats_params_and_field() {
    let rsi = indicator("rsi", vec![Param::Whole(14)], None);
    assert_eq!(rsi.key(), "rsi(14)");

    let macd = indicator(
        "macd",
        vec![Param::Whole(12), Param::Whole(26), Param::Whole(9)],
        Some("hist"),
    );
    assert_eq!(macd.key(), "macd(12,26,9).hist");
}

#[test]
fn price_and_micro_keys() {
    assert_eq!(
        Feature::Price {
            field: PriceField::Close
        }
        .key(),
        "price.close"
    );
    assert_eq!(
        Feature::Microstructure {
            field: MicroField::BidSz,
            level: Some(0)
        }
        .key(),
        "micro.bid_sz.0"
    );
    assert_eq!(
        Feature::Microstructure {
            field: MicroField::Funding,
            level: None
        }
        .key(),
        "micro.funding"
    );
}

#[test]
fn feature_key_snapshots() {
    let key = |f: Feature| f.key();
    assert_eq!(key(indicator("Rsi", vec![Param::Whole(14)], None)), "Rsi(14)");
    assert_eq!(
        key(indicator(
            "Macd",
            vec![Param::Whole(12), Param::Whole(26), Param::Whole(9)],
            Some("hist")
        )),
        "Macd(12,26,9).hist"
    );
    assert_eq!(
        key(Feature::Price {
            field: PriceField::Volume
        }),
        "price.volume"
    );
    assert_eq!(
        key(Feature::Microstructure {
            field: MicroField::AskSz,
            level: Some(1)
        }),
        "micro.ask_sz.1"
    );
    assert_eq!(
        key(Feature::Microstructure {
            field: MicroField::Funding,
            level: None
        }),
        "micro.funding"
    );
}

#[test]
fn feature_dim_and_keys_follow_canonical_order() {
    let o = ObsSpec {
        features: vec![
            Feature::Price {
                field: PriceField::Close,
            },
            indicator("rsi", vec![Param::Whole(14)], None),
        ],
        include_book_levels: 2,
        include_funding_oi: true,
    };
    // 2 features + 4*2 book columns + 2 funding/oi = 12.
    assert_eq!(o.feature_dim(), 12);
    let keys = o.feature_keys();
    assert_eq!(keys.len(), 12);
    assert_eq!(keys[0], "price.close");
    assert_eq!(keys[1], "rsi(14)");
    assert_eq!(keys[2], "micro.bid_px.0");
    assert_eq!(keys[5], "micro.ask_sz.0");
    assert_eq!(keys[6], "micro.bid_px.1");
    assert_eq!(keys[10], "micro.funding");
    assert_eq!(keys[11], "micro.oi");
}

#[test]
fn feature_keys_follow_canonical_order() {
    let obs = ObsSpec {
        features: vec![
            Feature::Price {
                field: PriceField::Close,
            },
            indicator("Sma", vec![Param::Whole(10)], None),
        ],
        include_book_levels: 1,
        include_funding_oi: true,
    };
    assert_eq!(obs.feature_dim(), 2 + 4 + 2);
    assert_eq!(
        obs.feature_keys(),
        vec![
            "price.close",
            "Sma(10)",
            "micro.bid_px.0",
            "micro.bid_sz.0",
            "micro.ask_px.0",
            "micro.ask_sz.0",
            "micro.funding",
            "micro.oi",
        ]
    );
}

#[test]
fn param_renderings_in_keys() {
    let f = indicator(
        "Alma",
        vec![Param::Whole(9), Param::Real("0.85".to_string()), Param::Whole(-6)],
        None,
    );
    assert_eq!(f.key(), "Alma(9,0.85,-6)");
    assert_eq!(indicator("AnchoredRsi", vec![], None).key(), "AnchoredRsi()");
    assert_eq!(
        indicator("X", vec![Param::Whole(i64::MIN)], None).key(),
        "X(-9223372036854775808)"
    );
    assert_eq!(indicator("X", vec![Param::Whole(0)], Some("upper")).key(), "X(0).upper");
}

#[test]
fn a_missing_level_reads_level_zero_and_aggregates_ignore_it() {
    assert_eq!(
        Feature::Microstructure {
            field: MicroField::BidPx,
            level: None
        }
        .key(),
        "micro.bid_px.0"
    );
    assert_eq!(
        Feature::Microstructure {
            field: MicroField::Spread,
            level: Some(3)
        }
        .key(),
        "micro.spread"
    );
    assert_eq!(
        Feature::Microstructure {
            field: MicroField::AskPx,
            level: Some(4_000_000_000)
        }
        .key(),
        "micro.ask_px.4000000000"
    );
}

#[test]
fn field_names_and_leveling() {
    let prices = [
        (PriceField::Open, "open"),
        (PriceField::High, "high"),
        (PriceField::Low, "low"),
        (PriceField::Close, "close"),
        (PriceField::Volume, "volume"),
    ];
    for (f, name) in prices {
        assert_eq!(f.as_str(), name);
    }
    let micro = [
        (MicroField::BidPx, "bid_px", true),
        (MicroField::BidSz, "bid_sz", true),
        (MicroField::AskPx, "ask_px", true),
        (MicroField::AskSz, "ask_sz", true),
        (MicroField::Spread, "spread", false),
        (MicroField::Imbalance, "imbalance", false),
        (MicroField::Funding, "funding", false),
        (MicroField::Oi, "oi", false),
    ];
    for (f, name, leveled) in micro {
        assert_eq!(f.as_str(), name);
        assert_eq!(f.is_leveled(), leveled);
    }
}

#[test]
fn layout_columns_match_keys() {
    let obs = ObsSpec {
        features: vec![Feature::Price {
            field: PriceField::Open,
        }],
        include_book_levels: 2,
        include_funding_oi: true,
    };
    let cols = obs.columns();
    assert_eq!(cols.len(), obs.feature_dim());
    assert_eq!(cols[0], Column::Declared(0));
    assert_eq!(
        cols[5],
        Column::Book {
            field: MicroField::BidPx,
            level: 1
        }
    );
    assert_eq!(cols[9], Column::Funding);
    assert_eq!(cols[10], Column::Oi);
    let keys = obs.feature_keys();
    for (i, c) in cols.iter().enumerate() {
        assert_eq!(obs.column_key(*c), keys[i]);
    }
    assert_eq!(ObsSpec::default().feature_dim(), 0);
    assert!(ObsSpec::default().feature_keys().is_empty());
}
