use neolink::clock::{
    local_as_utc, local_now, local_now_by, local_time_at, update_camera_time, ClockAction, ClockStep,
    ClockSync, ZonedTime, EARLIEST_NANOS, LATEST_NANOS, MAX_OFFSET_SECS,
};

type Failure = neolink::error::Failure<()>;
type ClockEvent = neolink::clock::ClockEvent<()>;

const SECOND: i128 = 1_000_000_000;

fn failure(text: &str) -> Failure {
    Failure { cause: None, text: text.to_string() }
}

fn begun(update_time: bool) -> ClockSync {
    let mut sync = ClockSync::new(update_time);
    assert_eq!(update_camera_time(&mut sync, ClockEvent::Begin), ClockAction::GetTime);
    assert_eq!(sync.step, ClockStep::Reading);
    sync
}

#[test]
fn camera_shows_local_time() {
    // 2024-05-06 07:08:09.5 UTC
    let now = 1_714_979_289 * SECOND + SECOND / 2;
    assert_eq!(
        local_as_utc(now, Some(5 * 3600 + 1800)),
        ZonedTime { unix_nanos: now + 19_800 * SECOND, offset_secs: 0 }
    );
    assert_eq!(
        local_as_utc(now, Some(-3 * 3600)),
        ZonedTime { unix_nanos: now - 10_800 * SECOND, offset_secs: 0 }
    );
    assert_eq!(local_as_utc(now, None), ZonedTime { unix_nanos: now, offset_secs: 0 });
}

#[test]
fn camera_time_agrees_with_the_calendar() {
    let now = 1_714_979_289 * SECOND;
    let set_to = local_as_utc(now, Some(-(10 * 3600)));
    let shown = time::OffsetDateTime::from_unix_timestamp_nanos(set_to.unix_nanos).unwrap();
    let offset = time::UtcOffset::from_hms(-10, 0, 0).unwrap();
    let local = time::OffsetDateTime::from_unix_timestamp_nanos(now).unwrap().to_offset(offset);
    assert_eq!((shown.date(), shown.time()), (local.date(), local.time()));
    assert_eq!(shown.offset(), time::UtcOffset::UTC);
}

#[test]
fn range_ends_are_representable() {
    assert_eq!(local_as_utc(EARLIEST_NANOS, None).unix_nanos, EARLIEST_NANOS);
    assert_eq!(local_as_utc(LATEST_NANOS, None).unix_nanos, LATEST_NANOS);
    assert!(time::OffsetDateTime::from_unix_timestamp_nanos(EARLIEST_NANOS - 1).is_err());
    assert!(time::OffsetDateTime::from_unix_timestamp_nanos(LATEST_NANOS + 1).is_err());
    let largest = MAX_OFFSET_SECS as i128 * SECOND;
    assert_eq!(
        local_as_utc(EARLIEST_NANOS + largest, Some(-MAX_OFFSET_SECS)).unix_nanos,
        EARLIEST_NANOS
    );
    assert_eq!(
        local_as_utc(LATEST_NANOS - largest, Some(MAX_OFFSET_SECS)).unix_nanos,
        LATEST_NANOS
    );
    assert!(time::UtcOffset::from_whole_seconds(MAX_OFFSET_SECS + 1).is_err());
}

#[test]
fn local_time_out_of_range_is_none() {
    assert_eq!(local_time_at(LATEST_NANOS, Some(1)), None);
    assert_eq!(local_time_at(EARLIEST_NANOS, Some(-1)), None);
    assert_eq!(
        local_time_at(LATEST_NANOS, None),
        Some(ZonedTime { unix_nanos: LATEST_NANOS, offset_secs: 0 })
    );
    assert_eq!(
        local_time_at(LATEST_NANOS, Some(-3600)),
        Some(ZonedTime { unix_nanos: LATEST_NANOS - 3600 * SECOND, offset_secs: 0 })
    );
    assert_eq!(
        local_time_at(0, Some(7200)),
        Some(ZonedTime { unix_nanos: 7200 * SECOND, offset_secs: 0 })
    );
}

#[test]
fn local_now_is_near_the_system_clock() {
    let before = time::OffsetDateTime::now_utc().unix_timestamp_nanos();
    let set_to = local_now().unwrap();
    assert_eq!(set_to.offset_secs, 0);
    let shift = set_to.unix_nanos - before;
    assert!(shift.abs() <= (MAX_OFFSET_SECS as i128 + 60) * SECOND);
    let utc = time::OffsetDateTime::from_unix_timestamp_nanos(before).unwrap();
    if let Ok(offset) = time::UtcOffset::local_offset_at(utc) {
        let drift = shift - offset.whole_seconds() as i128 * SECOND;
        assert!((0..60 * SECOND).contains(&drift));
    }
}

#[test]
fn offset_is_asked_at_the_moment_of_the_clock() {
    let zone = |at: i128| Some((at / SECOND) as i32);
    assert_eq!(
        local_now_by(|| 100 * SECOND, zone),
        Some(ZonedTime { unix_nanos: 200 * SECOND, offset_secs: 0 })
    );
    assert_eq!(local_now_by(|| LATEST_NANOS, |_| Some(1)), None);
}

fn noon() -> ZonedTime {
    ZonedTime { unix_nanos: 43_200 * SECOND, offset_secs: 0 }
}

#[test]
fn camera_without_time_is_set() {
    let mut sync = begun(false);
    assert!(sync.must_set(&ClockEvent::Read(Ok(false))));
    assert_eq!(
        sync.advance(ClockEvent::Read(Ok(false)), Some(noon())),
        ClockAction::SetTime { time: noon() }
    );
    assert_eq!(update_camera_time(&mut sync, ClockEvent::Updated(Ok(()))), ClockAction::GetTime);
    assert!(!sync.must_set(&ClockEvent::Read(Ok(false))));
    assert_eq!(
        update_camera_time(&mut sync, ClockEvent::Read(Ok(true))),
        ClockAction::Return(Ok(()))
    );
    assert_eq!(sync.step, ClockStep::Done);
}

#[test]
fn camera_is_set_to_local_time_now() {
    let before = local_now().unwrap();
    let mut sync = begun(false);
    match update_camera_time(&mut sync, ClockEvent::Read(Ok(false))) {
        ClockAction::SetTime { time } => {
            assert_eq!(time.offset_secs, 0);
            assert!((0..60 * SECOND).contains(&(time.unix_nanos - before.unix_nanos)));
        }
        action => panic!("{:?}", action),
    }
    assert_eq!(sync.step, ClockStep::Setting);
}

#[test]
fn camera_is_not_set_without_a_local_time() {
    let mut sync = begun(true);
    assert_eq!(sync.advance(ClockEvent::Read(Ok(true)), None), ClockAction::NoLocalTime);
    assert_eq!(sync.step, ClockStep::Done);
}

#[test]
fn camera_with_time_is_set_on_request_only() {
    let mut keep = begun(false);
    assert_eq!(
        update_camera_time(&mut keep, ClockEvent::Read(Ok(true))),
        ClockAction::Return(Ok(()))
    );
    let mut update = begun(true);
    assert_eq!(
        update.advance(ClockEvent::Read(Ok(true)), Some(noon())),
        ClockAction::SetTime { time: noon() }
    );
}

#[test]
fn rejected_time_is_no_failure() {
    let mut sync = begun(true);
    update_camera_time(&mut sync, ClockEvent::Read(Ok(false)));
    assert_eq!(
        update_camera_time(&mut sync, ClockEvent::Updated(Err(failure("not an admin")))),
        ClockAction::Return(Ok(()))
    );
}

#[test]
fn unreadable_clock_is_a_failure() {
    let mut first = begun(true);
    assert_eq!(
        update_camera_time(&mut first, ClockEvent::Read(Err(failure("a")))),
        ClockAction::Return(Err(failure("a")))
    );
    let mut second = begun(true);
    update_camera_time(&mut second, ClockEvent::Read(Ok(true)));
    update_camera_time(&mut second, ClockEvent::Updated(Ok(())));
    assert_eq!(
        update_camera_time(&mut second, ClockEvent::Read(Err(failure("b")))),
        ClockAction::Return(Err(failure("b")))
    );
}
