//! Setting a camera's clock to local time.

use vstd::prelude::*;

use crate::error::Failure;

verus! {

/// The nanoseconds of a second.
pub const NANOS_PER_SEC: i128 = 1_000_000_000;

/// The first representable date-time, the start of the year -9999, as
/// nanoseconds from 1970-01-01 00:00.
pub const EARLIEST_NANOS: i128 = -377_705_116_800_000_000_000;

/// The last representable date-time, the end of the year 9999, as nanoseconds
/// from 1970-01-01 00:00.
pub const LATEST_NANOS: i128 = 253_402_300_799_999_999_999;

/// The largest offset from UTC on either side, 25:59:59, in seconds.
pub const MAX_OFFSET_SECS: i32 = 93_599;

/// A moment, and the offset from UTC in which it is told.
#[derive(Debug, Clone, Copy, PartialEq, Eq)]
pub struct ZonedTime {
    /// The moment, in nanoseconds from 1970-01-01 00:00 UTC.
    pub unix_nanos: i128,
    /// The offset in seconds, positive to the east.
    pub offset_secs: i32,
}

/// Whether a date-time so many nanoseconds from 1970-01-01 00:00 is representable.
pub open spec fn is_representable(nanos: int) -> bool {
    EARLIEST_NANOS <= nanos <= LATEST_NANOS
}

/// Whether `offset_secs` is an offset from UTC.
pub open spec fn is_offset(offset_secs: int) -> bool {
    -MAX_OFFSET_SECS <= offset_secs <= MAX_OFFSET_SECS
}

/// The date and time that a clock shows at `unix_nanos` in the offset
/// `offset_secs`, as nanoseconds from 1970-01-01 00:00.
pub open spec fn wall_nanos(unix_nanos: int, offset_secs: int) -> int {
    unix_nanos + offset_secs * NANOS_PER_SEC
}

impl ZonedTime {
    /// The date and time that a clock shows, as nanoseconds from 1970-01-01 00:00.
    pub open spec fn wall(self) -> int {
        wall_nanos(self.unix_nanos as int, self.offset_secs as int)
    }

    /// Whether the moment, the offset and what a clock shows are in range.
    pub open spec fn wf(self) -> bool {
        is_representable(self.unix_nanos as int) && is_offset(self.offset_secs as int)
            && is_representable(self.wall())
    }
}

/// Reads the system clock with `time::OffsetDateTime::now_utc`: the moment, in
/// nanoseconds from 1970-01-01 00:00 UTC.
///
/// Of the moment nothing is claimed but that it is representable: the crate
/// holds no other. A system clock that stands outside the years that the crate
/// knows makes it panic.
#[verifier::external_body]
fn now_utc() -> (unix_nanos: i128)
    ensures
        is_representable(unix_nanos as int),
{
    time::OffsetDateTime::now_utc().unix_timestamp_nanos()
}

/// Asks the system for its offset from UTC at a moment, in seconds, with
/// `time::UtcOffset::local_offset_at`; `None` if it cannot be determined.
///
/// The answer depends on the machine's time zone. Nothing is claimed but that
/// an offset lies in the range that the crate's type has.
#[verifier::external_body]
fn local_offset_at(unix_nanos: i128) -> (offset_secs: Option<i32>)
    requires
        is_representable(unix_nanos as int),
    ensures
        offset_secs is Some ==> is_offset(offset_secs->0 as int),
{
    let at = time::OffsetDateTime::from_unix_timestamp_nanos(unix_nanos).unwrap();
    match time::UtcOffset::local_offset_at(at) {
        Ok(offset) => Some(offset.whole_seconds()),
        Err(_) => None,
    }
}

/// Tells a moment of UTC in another offset with `time::OffsetDateTime::to_offset`:
/// the moment stays, the offset is the new one.
///
/// The crate panics where the date-time in the new offset is not representable.
#[verifier::external_body]
fn to_offset(unix_nanos: i128, offset_secs: i32) -> (r: ZonedTime)
    requires
        is_representable(unix_nanos as int),
        is_offset(offset_secs as int),
        is_representable(wall_nanos(unix_nanos as int, offset_secs as int)),
    ensures
        r == (ZonedTime { unix_nanos, offset_secs }),
{
    let at = time::OffsetDateTime::from_unix_timestamp_nanos(unix_nanos).unwrap();
    let told = at.to_offset(time::UtcOffset::from_whole_seconds(offset_secs).unwrap());
    ZonedTime {
        unix_nanos: told.unix_timestamp_nanos(),
        offset_secs: told.offset().whole_seconds(),
    }
}

/// Replaces the offset with `time::OffsetDateTime::replace_offset`: what a clock
/// shows stays, the offset is the new one.
#[verifier::external_body]
fn replace_offset(at: ZonedTime, offset_secs: i32) -> (r: ZonedTime)
    requires
        at.wf(),
        is_offset(offset_secs as int),
    ensures
        r.offset_secs == offset_secs,
        r.wall() == at.wall(),
{
    let moment = time::OffsetDateTime::from_unix_timestamp_nanos(at.unix_nanos).unwrap();
    let told = moment.to_offset(time::UtcOffset::from_whole_seconds(at.offset_secs).unwrap());
    let moved = told.replace_offset(time::UtcOffset::from_whole_seconds(offset_secs).unwrap());
    ZonedTime {
        unix_nanos: moved.unix_timestamp_nanos(),
        offset_secs: moved.offset().whole_seconds(),
    }
}

/// The offset to use where the system's is `offset`: UTC if it is not known.
pub open spec fn offset_or_utc(offset: Option<i32>) -> int {
    match offset {
        Some(secs) => secs as int,
        None => 0,
    }
}

/// Whether a clock can stand at `unix_nanos` with a local offset `offset`.
pub open spec fn is_clock_reading(unix_nanos: i128, offset: Option<i32>) -> bool {
    is_representable(unix_nanos as int) && is_offset(offset_or_utc(offset))
}

/// The time to set a camera to: UTC shows on it what a local clock shows.
pub open spec fn camera_time(unix_nanos: i128, offset: Option<i32>) -> Option<ZonedTime> {
    let shown = wall_nanos(unix_nanos as int, offset_or_utc(offset));
    if is_representable(shown) {
        Some(ZonedTime { unix_nanos: shown as i128, offset_secs: 0 })
    } else {
        None
    }
}

/// The time to set a camera to when the clock stands at `unix_nanos` and the
/// local offset is `offset`, or UTC if that is not known.
///
/// The offset is stripped so that the camera stores local wall-clock time as it is.
pub fn local_as_utc(unix_nanos: i128, offset: Option<i32>) -> (r: ZonedTime)
    requires
        is_clock_reading(unix_nanos, offset),
        camera_time(unix_nanos, offset) is Some,
    ensures
        Some(r) == camera_time(unix_nanos, offset),
{
    let offset_secs: i32 = match offset {
        Some(secs) => secs,
        None => 0,
    };
    replace_offset(to_offset(unix_nanos, offset_secs), 0)
}

/// The time to set a camera to when the clock stands at `unix_nanos` and the
/// local offset is `offset`; `None` if local time is not representable.
pub fn local_time_at(unix_nanos: i128, offset: Option<i32>) -> (r: Option<ZonedTime>)
    requires
        is_clock_reading(unix_nanos, offset),
    ensures
        r == camera_time(unix_nanos, offset),
{
    let offset_secs: i32 = match offset {
        Some(secs) => secs,
        None => 0,
    };
    let shown: i128 = unix_nanos + offset_secs as i128 * NANOS_PER_SEC;
    if EARLIEST_NANOS <= shown && shown <= LATEST_NANOS {
        Some(local_as_utc(unix_nanos, offset))
    } else {
        None
    }
}

/// The time to set a camera to: [`local_time_at`] the moment that `clock` tells and
/// the offset that `zone` gives at that moment.
pub fn local_now_by<C: Fn() -> i128, Z: Fn(i128) -> Option<i32>>(clock: C, zone: Z) -> (r: Option<
    ZonedTime,
>)
    requires
        call_requires(clock, ()),
        forall|n: i128| #[trigger] call_ensures(clock, (), n) ==> call_requires(zone, (n,)),
        forall|n: i128, o: Option<i32>|
            call_ensures(clock, (), n) && #[trigger] call_ensures(zone, (n,), o)
                ==> is_clock_reading(n, o),
    ensures
        exists|n: i128, o: Option<i32>|
            call_ensures(clock, (), n) && #[trigger] call_ensures(zone, (n,), o) && r
                == camera_time(n, o),
{
    let unix_nanos: i128 = clock();
    let offset: Option<i32> = zone(unix_nanos);
    local_time_at(unix_nanos, offset)
}

/// The time to set a camera to now: [`local_now_by`] the system's clock and time zone.
///
/// What comes back rests on the two: it is the time for some reading of them.
pub fn local_now() -> (r: Option<ZonedTime>)
    ensures
        exists|unix_nanos: i128, offset: Option<i32>| #[trigger]
            is_clock_reading(unix_nanos, offset) && r == camera_time(unix_nanos, offset),
{
    let r = local_now_by(now_utc, local_offset_at);
    proof {
        let (n, o) = choose|n: i128, o: Option<i32>|
            call_ensures(now_utc, (), n) && #[trigger] call_ensures(local_offset_at, (n,), o) && r
                == camera_time(n, o);
        assert(is_clock_reading(n, o));
    }
    r
}

/// Where the setting of a camera's clock stands.
#[derive(Debug, Clone, Copy, PartialEq, Eq)]
pub enum ClockStep {
    /// Nothing has happened yet.
    Fresh,
    /// Reading the camera's clock.
    Reading,
    /// Setting it.
    Setting,
    /// Reading it again.
    Confirming,
    /// Over.
    Done,
}

/// The setting of a camera's clock.
#[derive(Debug, Clone, Copy, PartialEq, Eq)]
pub struct ClockSync {
    /// Whether a clock that is set is to be set all the same.
    pub update_time: bool,
    /// Where it stands.
    pub step: ClockStep,
}

/// What [`update_camera_time`] is told. `B` is the body of a message.
#[derive(Debug, PartialEq, Eq)]
pub enum ClockEvent<B> {
    /// The setting begins.
    Begin,
    /// Whether the camera has a time, or why that is not known.
    Read(Result<bool, Failure<B>>),
    /// The camera took the new time, or did not.
    Updated(Result<(), Failure<B>>),
}

/// What [`update_camera_time`] asks for.
#[derive(Debug, PartialEq, Eq)]
pub enum ClockAction<B> {
    /// Read the camera's clock.
    GetTime,
    /// Set the camera to this time.
    SetTime {
        /// The time.
        time: ZonedTime,
    },
    /// The camera is to be set, but there is no local time to set it to: that is
    /// not representable.
    NoLocalTime,
    /// The setting is over.
    Return(Result<(), Failure<B>>),
}

impl ClockSync {
    /// A setting that is about to begin.
    pub open spec fn fresh(update_time: bool) -> ClockSync {
        ClockSync { update_time, step: ClockStep::Fresh }
    }

    /// The setting of a clock that has a time if `update_time`, and else only of
    /// one that has none.
    pub fn new(update_time: bool) -> (r: ClockSync)
        ensures
            r == (ClockSync { update_time, step: ClockStep::Fresh }),
            r == ClockSync::fresh(update_time),
    {
        ClockSync { update_time, step: ClockStep::Fresh }
    }

    /// Whether `event` can happen now.
    pub open spec fn accepts<B>(self, event: ClockEvent<B>) -> bool {
        match event {
            ClockEvent::Begin => self.step is Fresh,
            ClockEvent::Read(_) => self.step is Reading || self.step is Confirming,
            ClockEvent::Updated(_) => self.step is Setting,
        }
    }

    /// The setting at `step`.
    pub open spec fn at(self, step: ClockStep) -> ClockSync {
        ClockSync { step, ..self }
    }

    /// Whether the clock is to be set upon `event`: the camera has no time, or an
    /// update is wanted anyway.
    pub open spec fn sets<B>(self, event: ClockEvent<B>) -> bool {
        self.step is Reading && (event matches ClockEvent::Read(Ok(has_time)) && (!has_time
            || self.update_time))
    }

    /// The setting after `event`, and what it asks for, where `local` is the time
    /// to set a camera to now.
    ///
    /// A camera that does not take the new time is left as it is.
    pub open spec fn next<B>(self, event: ClockEvent<B>, local: Option<ZonedTime>) -> (
        ClockSync,
        ClockAction<B>,
    ) {
        match event {
            ClockEvent::Begin => (self.at(ClockStep::Reading), ClockAction::GetTime),
            ClockEvent::Read(Err(e)) => (self.at(ClockStep::Done), ClockAction::Return(Err(e))),
            ClockEvent::Read(Ok(_)) => if !self.sets(event) {
                (self.at(ClockStep::Done), ClockAction::Return(Ok(())))
            } else if local is Some {
                (self.at(ClockStep::Setting), ClockAction::SetTime { time: local->0 })
            } else {
                (self.at(ClockStep::Done), ClockAction::NoLocalTime)
            },
            ClockEvent::Updated(Ok(_)) => (self.at(ClockStep::Confirming), ClockAction::GetTime),
            ClockEvent::Updated(Err(_)) => (self.at(ClockStep::Done), ClockAction::Return(Ok(()))),
        }
    }

    /// Tells whether the clock is to be set upon `event`.
    pub fn must_set<B>(&self, event: &ClockEvent<B>) -> (r: bool)
        ensures
            r == self.sets(*event),
    {
        match (&self.step, event) {
            (ClockStep::Reading, ClockEvent::Read(Ok(has_time))) => {
                let mut update = false;
                if *has_time {
                    if self.update_time {
                        update = true;
                    }
                } else {
                    update = true;
                }
                update
            },
            _ => false,
        }
    }

    /// One step of the setting, where `local` is the time to set a camera to now.
    pub fn advance<B>(&mut self, event: ClockEvent<B>, local: Option<ZonedTime>) -> (action:
        ClockAction<B>)
        requires
            old(self).accepts(event),
        ensures
            (*final(self), action) == old(self).next(event, local),
    {
        let set: bool = self.must_set(&event);
        match event {
            ClockEvent::Begin => {
                self.step = ClockStep::Reading;
                ClockAction::GetTime
            },
            ClockEvent::Read(result) => match result {
                Err(e) => {
                    self.step = ClockStep::Done;
                    ClockAction::Return(Err(e))
                },
                Ok(_) => if !set {
                    self.step = ClockStep::Done;
                    ClockAction::Return(Ok(()))
                } else {
                    match local {
                        Some(time) => {
                            self.step = ClockStep::Setting;
                            ClockAction::SetTime { time }
                        },
                        None => {
                            self.step = ClockStep::Done;
                            ClockAction::NoLocalTime
                        },
                    }
                },
            },
            ClockEvent::Updated(result) => match result {
                Ok(_) => {
                    self.step = ClockStep::Confirming;
                    ClockAction::GetTime
                },
                Err(_) => {
                    self.step = ClockStep::Done;
                    ClockAction::Return(Ok(()))
                },
            },
        }
    }
}

/// Sets a camera's clock to local time where it needs setting: one step of it.
///
/// Where the clock is to be set, the time that the camera gets rests on the
/// system's clock and time zone: it is the time for some reading of the two.
pub fn update_camera_time<B>(sync: &mut ClockSync, event: ClockEvent<B>) -> (action:
    ClockAction<B>)
    requires
        old(sync).accepts(event),
    ensures
        !old(sync).sets(event) ==> (*final(sync), action) == old(sync).next(event, None),
        old(sync).sets(event) ==> exists|unix_nanos: i128, offset: Option<i32>| #[trigger]
            is_clock_reading(unix_nanos, offset) && (*final(sync), action) == old(sync).next(
                event,
                camera_time(unix_nanos, offset),
            ),
{
    let local: Option<ZonedTime> = if sync.must_set(&event) {
        local_now()
    } else {
        None
    };
    sync.advance(event, local)
}

impl ClockSync {
    /// What the setting comes to, all told, where `local` is the time to set a
    /// camera to.
    pub open spec fn whole<B>(
        self,
        first: Result<bool, Failure<B>>,
        local: Option<ZonedTime>,
        updated: Result<(), Failure<B>>,
        second: Result<bool, Failure<B>>,
    ) -> ClockAction<B> {
        let begun = self.next(ClockEvent::<B>::Begin, local).0;
        let (read, action) = begun.next(ClockEvent::Read(first), local);
        if action is SetTime {
            let (confirming, confirm) = read.next(ClockEvent::Updated(updated), local);
            if confirm is GetTime {
                confirming.next(ClockEvent::Read(second), local).1
            } else {
                confirm
            }
        } else {
            action
        }
    }
}

/// The camera's clock is set just when it could be read, has no time or an
/// update is wanted, and there is a local time; it is set to that, and only once.
pub proof fn law_clock_set_when_needed<B>(
    sync: ClockSync,
    event: ClockEvent<B>,
    local: Option<ZonedTime>,
)
    requires
        sync.accepts(event),
    ensures
        sync.next(event, local).1 is SetTime <==> (sync.step is Reading && event is Read
            && event->Read_0 is Ok && (!event->Read_0->Ok_0 || sync.update_time) && local is Some),
        sync.next(event, local).1 matches ClockAction::SetTime { time } ==> Some(time) == local
            && sync.next(event, local).0.step is Setting,
        sync.next(event, local).0.step is Reading ==> sync.step is Fresh,
        sync.next(event, local).0.step !is Fresh,
        sync.next(event, local).0.update_time == sync.update_time,
{
}

/// Setting a clock fails only where the camera's clock cannot be read; a camera
/// that rejects the new time does not make it fail.
pub proof fn law_clock_fails_on_reading_only<B>(
    update_time: bool,
    first: Result<bool, Failure<B>>,
    local: Option<ZonedTime>,
    updated: Result<(), Failure<B>>,
    second: Result<bool, Failure<B>>,
)
    requires
        local is Some,
    ensures
        (ClockSync { update_time, step: ClockStep::Fresh }).whole(first, local, updated, second)
            == ClockAction::Return(
            if first is Err {
                Err(first->Err_0)
            } else if (!first->Ok_0 || update_time) && updated is Ok && second is Err {
                Err(second->Err_0)
            } else {
                Ok(())
            },
        ),
{
}

/// A camera that is set to a clock reading shows, in UTC, what a local clock shows.
pub proof fn law_camera_shows_local_time(unix_nanos: i128, offset: Option<i32>)
    requires
        is_clock_reading(unix_nanos, offset),
        camera_time(unix_nanos, offset) is Some,
    ensures
        camera_time(unix_nanos, offset)->0.wall() == wall_nanos(
            unix_nanos as int,
            offset_or_utc(offset),
        ),
        camera_time(unix_nanos, offset)->0.offset_secs == 0,
        camera_time(unix_nanos, offset)->0.wf(),
{
}

/// The time that a camera is set to is the moment plus the local offset, told in
/// UTC; the offset counts as none if it is not known. There is such a time just
/// when it lies in the years -9999 to 9999.
pub proof fn law_camera_time_is_moment_plus_offset(unix_nanos: i128, offset: Option<i32>)
    ensures
        ({
            let shown = unix_nanos + (if offset is Some {
                offset->0 as int
            } else {
                0
            }) * 1_000_000_000;
            let time = camera_time(unix_nanos, offset);
            &&& time is Some <==> -377_705_116_800_000_000_000 <= shown
                <= 253_402_300_799_999_999_999
            &&& time is Some ==> time->0.unix_nanos == shown && time->0.offset_secs == 0
        }),
{
}

/// Every moment of the years -9999 to 9999 is a clock reading, with an unknown
/// offset and with every offset of up to 25:59:59 on either side.
pub proof fn law_clock_readings(unix_nanos: i128, offset: Option<i32>)
    requires
        -377_705_116_800_000_000_000 <= unix_nanos <= 253_402_300_799_999_999_999,
        offset is Some ==> -93_599 <= offset->0 <= 93_599,
    ensures
        is_clock_reading(unix_nanos, offset),
{
}

/// Setting a clock first reads the camera's clock. A camera that has a time is
/// left alone unless an update is wanted; any other is set to local time, and its
/// clock is then read once more if it took that.
pub proof fn law_clock_course<B>(
    update_time: bool,
    has_time: bool,
    had_time: bool,
    time: ZonedTime,
    e: Failure<B>,
)
    ensures
        ({
            let local = Some(time);
            let (reading, first) = ClockSync::fresh(update_time).next(
                ClockEvent::<B>::Begin,
                local,
            );
            let (setting, second) = reading.next(ClockEvent::<B>::Read(Ok(has_time)), local);
            let (confirming, third) = setting.next(ClockEvent::<B>::Updated(Ok(())), local);
            let left_alone = ClockAction::<B>::Return(Ok(()));
            &&& ClockSync::fresh(update_time).accepts(ClockEvent::<B>::Begin)
            &&& first is GetTime
            &&& reading.accepts(ClockEvent::<B>::Read(Ok(has_time)))
            &&& reading.accepts(ClockEvent::<B>::Read(Err(e)))
            &&& reading.sets(ClockEvent::<B>::Read(Ok(has_time))) <==> (!has_time || update_time)
            &&& reading.next(ClockEvent::Read(Err(e)), local).1 == ClockAction::<B>::Return(Err(e))
            &&& has_time && !update_time ==> second == left_alone
            &&& !has_time || update_time ==> {
                &&& second == (ClockAction::<B>::SetTime { time })
                &&& reading.next(ClockEvent::<B>::Read(Ok(has_time)), None).1 is NoLocalTime
                &&& setting.accepts(ClockEvent::<B>::Updated(Ok(())))
                &&& setting.accepts(ClockEvent::<B>::Updated(Err(e)))
                &&& setting.next(ClockEvent::Updated(Err(e)), local).1 == left_alone
                &&& third is GetTime
                &&& confirming.accepts(ClockEvent::<B>::Read(Ok(had_time)))
                &&& confirming.accepts(ClockEvent::<B>::Read(Err(e)))
                &&& confirming.next(ClockEvent::<B>::Read(Ok(had_time)), local).1 == left_alone
                &&& confirming.next(ClockEvent::Read(Err(e)), local).1 == ClockAction::<
                    B,
                >::Return(Err(e))
            }
        }),
{
}

/// Local time matters only where the clock is set, and the clock is set upon a
/// reading only; a setting that returned is over.
pub proof fn law_local_time_matters_when_set<B>(
    sync: ClockSync,
    event: ClockEvent<B>,
    local: Option<ZonedTime>,
    other: Option<ZonedTime>,
)
    ensures
        !sync.sets(event) ==> sync.next(event, local) == sync.next(event, other),
        sync.sets(event) ==> event is Read && event->Read_0 is Ok && sync.step is Reading,
        sync.next(event, local).1 is Return ==> sync.next(event, local).0.step is Done,
        sync.step is Done ==> !sync.accepts(event),
{
}

} // verus!
