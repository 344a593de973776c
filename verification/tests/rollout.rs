use gym_core::{EpisodeSpec, Error, Rollout};

fn episode(max_steps: u32, warmup: u32) -> EpisodeSpec {
    EpisodeSpec { max_steps, warmup }
}

#[test]
fn reset_before_load_is_no_data() {
    let mut r = Rollout::new(episode(10, 0), None);
    let err = r.reset(None).unwrap_err();
    assert!(matches!(err, Error::NoData));
    assert!(err.message().contains("no data"));
    assert!(matches!(r.begin_step(), Err(Error::NoData)));
}

#[test]
fn step_after_load_before_reset_is_not_reset() {
    let mut r = Rollout::new(episode(10, 0), None);
    r.load(5).unwrap();
    let err = r.begin_step().unwrap_err();
    assert!(matches!(err, Error::NotReset));
    assert!(err.message().contains("not reset"));
}

#[test]
fn four_bars_give_three_steps_then_episode_done() {
    let mut r = Rollout::new(episode(10, 0), None);
    r.load(4).unwrap();
    assert_eq!(r.reset(None).unwrap(), 0);
    assert_eq!(r.begin_step().unwrap(), 0);
    assert_eq!(r.finish_step(), (false, false));
    assert_eq!(r.begin_step().unwrap(), 1);
    assert_eq!(r.finish_step(), (false, false));
    assert_eq!(r.begin_step().unwrap(), 2);
    // The cursor reaches bar 3 == n - 1: terminated.
    assert_eq!(r.finish_step(), (true, false));
    assert_eq!(r.bar(), 3);
    assert_eq!(r.steps(), 3);
    let err = r.begin_step().unwrap_err();
    assert!(matches!(err, Error::EpisodeDone));
    assert!(err.message().contains("episode done"));
}

#[test]
fn truncation_fires_exactly_at_max_steps() {
    let mut r = Rollout::new(episode(2, 3), Some(9));
    r.load(20).unwrap();
    assert_eq!(r.reset(Some(42)).unwrap(), 3);
    r.begin_step().unwrap();
    assert_eq!(r.finish_step(), (false, false));
    r.begin_step().unwrap();
    assert_eq!(r.finish_step(), (false, true));
    assert!(matches!(r.begin_step(), Err(Error::EpisodeDone)));
    // A reset starts a fresh episode at the warmup bar.
    assert_eq!(r.reset(None).unwrap(), 3);
    assert_eq!(r.steps(), 0);
    assert!(r.begin_step().is_ok());
}

#[test]
fn warmup_past_the_dataset_is_a_data_error() {
    let mut r = Rollout::new(episode(5, 4), None);
    r.load(4).unwrap();
    match r.reset(Some(1)) {
        Err(Error::Data(m)) => assert_eq!(m, "warmup exceeds the loaded dataset"),
        other => panic!("expected Data, got {other:?}"),
    }
    assert!(matches!(r.begin_step(), Err(Error::NotReset)));
    r.load(5).unwrap();
    assert_eq!(r.reset(Some(1)).unwrap(), 4);
    // The warmup bar is the last one: no step is possible.
    assert!(matches!(r.begin_step(), Err(Error::EpisodeDone)));
}

#[test]
fn an_empty_load_is_refused_and_keeps_the_cursor() {
    let mut r = Rollout::new(episode(5, 0), None);
    r.load(3).unwrap();
    r.reset(None).unwrap();
    r.begin_step().unwrap();
    r.finish_step();
    assert!(matches!(r.load(0), Err(Error::NoData)));
    assert_eq!(r.bar(), 1);
    assert_eq!(r.n_bars(), Some(3));
    // A real load clears the cursor: a reset is needed again.
    r.load(6).unwrap();
    assert_eq!(r.bar(), 0);
    assert!(matches!(r.begin_step(), Err(Error::NotReset)));
}

#[test]
fn same_seed_resets_identically() {
    let mut a = Rollout::new(episode(8, 3), None);
    let mut b = Rollout::new(episode(8, 3), None);
    a.load(20).unwrap();
    b.load(20).unwrap();
    assert_eq!(a.reset(Some(42)).unwrap(), b.reset(Some(42)).unwrap());
    assert_eq!(a.reset(Some(7)).unwrap(), 3);
    assert_eq!(a.episode(), episode(8, 3));
}

#[test]
fn the_episode_length_is_the_budget_capped_by_the_bars() {
    for (n, max_steps, warmup) in [(30usize, 5u32, 15u32), (8, 10, 2), (10, 1, 0), (3, 3, 0)] {
        let mut r = Rollout::new(episode(max_steps, warmup), None);
        r.load(n).unwrap();
        r.reset(None).unwrap();
        let mut steps = 0u32;
        loop {
            if r.begin_step().is_err() {
                break;
            }
            let (terminated, truncated) = r.finish_step();
            steps += 1;
            if truncated {
                assert_eq!(steps, max_steps);
            }
            if terminated || truncated {
                assert!(r.begin_step().is_err());
                break;
            }
        }
        let room = (n as u32) - 1 - warmup;
        assert_eq!(steps, max_steps.min(room));
    }
}
