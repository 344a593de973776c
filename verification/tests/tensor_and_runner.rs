use gym_core::indicators::{validate_fields, Reading};
use gym_core::{Args, EpisodeSpec, Error, FieldWatch, Format, ObsSpec, Policy, TensorBuilder};
use gym_core::{Feature, PriceField};

#[test]
fn empty_dataset_is_no_data() {
    let obs = ObsSpec::default();
    let builder: TensorBuilder<f64> = TensorBuilder::for_obs(&obs);
    assert!(matches!(builder.finish(), Err(Error::NoData)));
}

#[test]
fn rows_are_the_pushed_bars() {
    let obs = ObsSpec {
        features: vec![Feature::Price {
            field: PriceField::Close,
        }],
        include_book_levels: 0,
        include_funding_oi: true,
    };
    let mut b: TensorBuilder<f64> = TensorBuilder::for_obs(&obs);
    assert_eq!(b.dim(), 3);
    b.push_bar(&[100.0, 0.0, 0.0], 100.0);
    b.push_bar(&[101.5, 0.25, 7.0], 101.5);
    b.push_bar(&[99.25, 0.0, 1.0], 99.25);
    let t = b.finish().unwrap();
    assert_eq!(t.n_bars(), 3);
    assert_eq!(t.dim(), 3);
    assert_eq!(t.row(0), &[100.0, 0.0, 0.0]);
    assert_eq!(t.row(1), &[101.5, 0.25, 7.0]);
    assert_eq!(t.row(2), &[99.25, 0.0, 1.0]);
    assert_eq!(t.close(1), 101.5);
}

#[test]
fn a_zero_width_tensor_still_indexes() {
    let mut b: TensorBuilder<u8> = TensorBuilder::for_obs(&ObsSpec::default());
    b.push_bar(&[], 1);
    b.push_bar(&[], 2);
    let t = b.finish().unwrap();
    assert_eq!(t.row(1), &[] as &[u8]);
    assert_eq!(t.close(0), 1);
}

#[test]
fn policies_pick_their_buckets() {
    for step in 0..7u32 {
        assert_eq!(Policy::Always0.action(step), 0);
        assert_eq!(Policy::Always1.action(step), 1);
        assert_eq!(Policy::Always2.action(step), 2);
        assert_eq!(Policy::Cycle.action(step), step % 3);
    }
    assert_eq!(Policy::Cycle.action(5), 2);
}

#[test]
fn the_steps_override_replaces_max_steps_only() {
    let mut args = Args {
        spec: "spec.json".into(),
        data: "data.csv".into(),
        policy: Policy::Cycle,
        steps: None,
        seed: None,
        format: Format::Text,
    };
    let e = EpisodeSpec {
        max_steps: 5,
        warmup: 15,
    };
    assert_eq!(args.episode_with_overrides(e), e);
    args.steps = Some(2);
    assert_eq!(
        args.episode_with_overrides(e),
        EpisodeSpec {
            max_steps: 2,
            warmup: 15
        }
    );
}

#[test]
fn a_requested_output_is_selected_by_name() {
    let mut w = FieldWatch::new("Macd(12,26,9).hist".into(), Some("hist".into()));
    assert_eq!(w.select(&[]), Reading::Absent);
    assert!(w.check().is_ok());
    assert_eq!(w.select(&["macd", "signal", "hist", "hist"]), Reading::Output(2));
    assert!(w.check().is_ok());
    let mut primary = FieldWatch::new("Rsi(14)".into(), None);
    assert_eq!(primary.select(&["a", "b"]), Reading::Primary);
    assert!(primary.check().is_ok());
    assert!(validate_fields(&[w, primary]).is_ok());
}

#[test]
fn an_output_never_named_is_refused_after_the_pass() {
    let mut w = FieldWatch::new("Macd(12,26,9).bogus".into(), Some("bogus".into()));
    assert_eq!(w.select(&["macd", "signal", "hist"]), Reading::Absent);
    let ok = FieldWatch::new("Rsi(14)".into(), None);
    match validate_fields(&[ok, w]) {
        Err(e) => assert_eq!(
            e.message(),
            "bad spec: indicator 'Macd(12,26,9).bogus' has no output field 'bogus'"
        ),
        Ok(()) => panic!("a missing output must be refused"),
    }
    // An indicator that never exposed named outputs is not held to the field.
    let quiet = FieldWatch::new("Sma(3).x".into(), Some("x".into()));
    assert!(validate_fields(&[quiet]).is_ok());
}
