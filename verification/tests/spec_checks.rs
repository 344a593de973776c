use gym_core::spec::{check_warmup, required_warmup, validate_structure};
use gym_core::{ActionShape, EpisodeSpec, Error};

#[test]
fn validate_rejects_bad_specs() {
    let mut episode = EpisodeSpec {
        max_steps: 0,
        warmup: 0,
    };
    let discrete = ActionShape::Discrete { n: 3 };
    assert!(validate_structure(&episode, discrete).is_err()); // max_steps == 0
    episode.max_steps = 10;
    assert!(validate_structure(&episode, discrete).is_ok());
    // low = 1.0, high = 1.0: low !< high.
    let (low, high) = (1.0f64, 1.0f64);
    let continuous = ActionShape::Continuous {
        proper_band: low < high,
    };
    assert!(validate_structure(&episode, continuous).is_err());
}

#[test]
fn structural_messages_in_check_order() {
    let zero = EpisodeSpec {
        max_steps: 0,
        warmup: 0,
    };
    let ok = EpisodeSpec {
        max_steps: 5,
        warmup: 0,
    };
    let msg = |e: &EpisodeSpec, a: ActionShape| match validate_structure(e, a) {
        Err(Error::BadSpec(m)) => m,
        other => panic!("expected BadSpec, got {other:?}"),
    };
    assert_eq!(
        msg(&zero, ActionShape::Discrete { n: 0 }),
        "episode.max_steps must be > 0"
    );
    assert_eq!(
        msg(&ok, ActionShape::Discrete { n: 0 }),
        "discrete action space needs n >= 1"
    );
    assert_eq!(
        msg(&ok, ActionShape::Continuous { proper_band: false }),
        "continuous action space needs low < high"
    );
    assert!(validate_structure(&ok, ActionShape::Discrete { n: 1 }).is_ok());
    assert!(validate_structure(&ok, ActionShape::Continuous { proper_band: true }).is_ok());
}

#[test]
fn the_warmup_floor_is_the_longest_lookback() {
    assert_eq!(required_warmup(&[]), 0);
    assert_eq!(required_warmup(&[15, 3, 26, 9]), 26);
    assert!(check_warmup(0, &[]).is_ok());
    assert!(check_warmup(15, &[15]).is_ok());
    assert!(check_warmup(3, &[3, 1]).is_ok());
    match check_warmup(1, &[2, 3]) {
        Err(e @ Error::BadSpec(_)) => assert_eq!(
            e.message(),
            "bad spec: episode.warmup is 1 but the observation needs 3: below that an \
             indicator column is 0.0 because nothing has been produced yet, which an agent \
             cannot tell from a market reading of zero"
        ),
        other => panic!("expected BadSpec, got {other:?}"),
    }
}
