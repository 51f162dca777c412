use libuv::errno::EINVAL;
use libuv::RunMode;

#[test]
fn modes_have_their_numbers() {
    assert_eq!(RunMode::Default.to_raw(), 0);
    assert_eq!(RunMode::Once.to_raw(), 1);
    assert_eq!(RunMode::NoWait.to_raw(), 2);
}

#[test]
fn numbers_read_as_their_modes() {
    assert_eq!(RunMode::from_raw(0), Ok(RunMode::Default));
    assert_eq!(RunMode::from_raw(1), Ok(RunMode::Once));
    assert_eq!(RunMode::from_raw(2), Ok(RunMode::NoWait));
}

#[test]
fn every_mode_survives_the_round_trip() {
    for mode in [RunMode::Default, RunMode::Once, RunMode::NoWait] {
        assert_eq!(RunMode::from_raw(mode.to_raw()), Ok(mode));
    }
}

#[test]
fn every_number_of_a_mode_survives_the_round_trip() {
    for raw in 0..3u32 {
        assert_eq!(RunMode::from_raw(raw).map(|mode| mode.to_raw()), Ok(raw));
    }
}

#[test]
fn other_numbers_are_refused() {
    assert_eq!(RunMode::from_raw(3), Err(EINVAL));
    assert_eq!(RunMode::from_raw(4), Err(EINVAL));
    assert_eq!(RunMode::from_raw(255), Err(EINVAL));
    assert_eq!(RunMode::from_raw(u32::MAX), Err(EINVAL));
}

#[test]
fn modes_differ() {
    assert_ne!(RunMode::Default, RunMode::Once);
    assert_ne!(RunMode::Once, RunMode::NoWait);
    assert_ne!(RunMode::Default, RunMode::NoWait);
}
