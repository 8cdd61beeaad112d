//! Video streams: their names and codes, the requests that start and stop
//! them, and the handle through which their data is pulled.

use vstd::prelude::*;

use crate::bc::{Bc, BcMeta, BcView, Preview, PreviewView, ProtocolIds, STREAM_CLASS};
use crate::error::Error;

verus! {

/// How long [`StreamData::shutdown`] waits for the background task, in milliseconds.
pub const SHUTDOWN_WAIT_MS: u64 = 3000;

/// The stream names supported by a camera.
#[derive(Debug, Copy, Clone, PartialEq, Eq, Hash)]
pub enum StreamKind {
    /// This is the HD stream.
    Main,
    /// This is the SD stream.
    Sub,
    /// This stream represents a balance between SD and HD.
    ///
    /// It is only available on some cameras. If the camera doesn't
    /// support it the stream will be the same as the SD stream.
    Extern,
}

impl StreamKind {
    /// The name of the stream in requests and logs.
    pub open spec fn name(self) -> Seq<char> {
        match self {
            StreamKind::Main => "mainStream"@,
            StreamKind::Sub => "subStream"@,
            StreamKind::Extern => "externStream"@,
        }
    }

    /// The code of the stream in message headers.
    pub open spec fn code(self) -> u8 {
        if self is Sub {
            1
        } else {
            0
        }
    }

    /// The handle of the stream in request bodies.
    pub open spec fn handle(self) -> u32 {
        match self {
            StreamKind::Main => 0,
            StreamKind::Sub => 256,
            StreamKind::Extern => 1024,
        }
    }

    /// The name of the stream.
    pub fn to_string(&self) -> (r: String)
        ensures
            r@ == self.name(),
    {
        match self {
            StreamKind::Main => "mainStream".to_owned(),
            StreamKind::Sub => "subStream".to_owned(),
            StreamKind::Extern => "externStream".to_owned(),
        }
    }

    /// The code of the stream in message headers.
    ///
    /// The main stream always has the code 0. On some cameras the sub stream
    /// has the code 1 and there is no extern stream; on others all have 0.
    pub fn stream_code(&self) -> (r: u8)
        ensures
            r == self.code(),
    {
        match self {
            StreamKind::Main => 0,
            StreamKind::Sub => 1,
            StreamKind::Extern => 0,
        }
    }

    /// The handle of the stream in request bodies.
    pub fn stream_handle(&self) -> (r: u32)
        ensures
            r == self.handle(),
    {
        match self {
            StreamKind::Main => 0,
            StreamKind::Sub => 256,
            StreamKind::Extern => 1024,
        }
    }
}

/// The header of a request `msg_id` about `stream`.
pub open spec fn request_meta(
    msg_id: u32,
    channel_id: u8,
    msg_num: u16,
    stream: StreamKind,
) -> BcMeta {
    BcMeta {
        msg_id,
        channel_id,
        msg_num,
        stream_type: stream.code(),
        response_code: 0,
        class: STREAM_CLASS,
    }
}

/// The request that starts `stream`: it names the stream.
pub open spec fn start_message(
    ids: ProtocolIds,
    channel_id: u8,
    msg_num: u16,
    stream: StreamKind,
) -> BcView {
    BcView {
        meta: request_meta(ids.video, channel_id, msg_num, stream),
        preview: PreviewView {
            version: ids.xml_version@,
            channel_id,
            handle: stream.handle(),
            stream_type: Some(stream.name()),
        },
    }
}

/// The request that stops `stream`: it gives the handle alone.
pub open spec fn stop_message(
    ids: ProtocolIds,
    channel_id: u8,
    msg_num: u16,
    stream: StreamKind,
) -> BcView {
    BcView {
        meta: request_meta(ids.video_stop, channel_id, msg_num, stream),
        preview: PreviewView {
            version: ids.xml_version@,
            channel_id,
            handle: stream.handle(),
            stream_type: None,
        },
    }
}

/// Builds the request that starts `stream`.
pub fn new_start_message(
    ids: &ProtocolIds,
    channel_id: u8,
    msg_num: u16,
    stream: StreamKind,
) -> (r: Bc)
    ensures
        r@ == start_message(*ids, channel_id, msg_num, stream),
{
    Bc {
        meta: BcMeta {
            msg_id: ids.video,
            channel_id,
            msg_num,
            stream_type: stream.stream_code(),
            response_code: 0,
            class: STREAM_CLASS,
        },
        preview: Preview {
            version: ids.xml_version.clone(),
            channel_id,
            handle: stream.stream_handle(),
            stream_type: Some(stream.to_string()),
        },
    }
}

/// Builds the request that stops `stream`.
pub fn new_stop_message(
    ids: &ProtocolIds,
    channel_id: u8,
    msg_num: u16,
    stream: StreamKind,
) -> (r: Bc)
    ensures
        r@ == stop_message(*ids, channel_id, msg_num, stream),
{
    Bc {
        meta: BcMeta {
            msg_id: ids.video_stop,
            channel_id,
            msg_num,
            stream_type: stream.stream_code(),
            response_code: 0,
            class: STREAM_CLASS,
        },
        preview: Preview {
            version: ids.xml_version.clone(),
            channel_id,
            handle: stream.stream_handle(),
            stream_type: None,
        },
    }
}

/// The background task as its owner sees it.
#[derive(Debug, Copy, Clone, PartialEq, Eq)]
pub enum TaskHandle {
    /// The task's result has not been collected.
    Held,
    /// The task's result has been collected; it cannot be collected again.
    Joined,
    /// The handle was given away.
    Taken,
}

/// A handle on currently streaming data.
///
/// The data can be pulled using `get_data`, which returns raw media packets.
/// When this object is dropped the streaming is stopped.
#[derive(Debug, PartialEq, Eq)]
pub struct StreamData {
    /// The background task.
    pub handle: TaskHandle,
    /// Whether the background task was told to stop.
    pub cancelled: bool,
    /// Human-readable label for logging (e.g. "mainStream", "replay").
    pub label: String,
}

/// What [`StreamData::get_data`] is told.
#[derive(Debug, PartialEq, Eq)]
pub enum PullEvent<T, B> {
    /// A packet is wanted; `finished` says whether the background task has ended.
    Begin {
        /// Whether the background task has ended.
        finished: bool,
    },
    /// The result of the ended task.
    Joined(Result<(), Error<B>>),
    /// What came out of the buffer; `None` if its sender is gone.
    Received(Option<T>),
}

/// What [`StreamData::get_data`] asks for.
#[derive(Debug, PartialEq, Eq)]
pub enum PullAction<T, B> {
    /// Collect the result of the ended task.
    AwaitTask,
    /// Wait for the buffer.
    Receive,
    /// The pull is over.
    Return(Result<T, Error<B>>),
}

/// What [`StreamData::shutdown`] is told.
#[derive(Debug, PartialEq, Eq)]
pub enum ShutdownEvent<B> {
    /// The stream is to be shut down.
    Begin,
    /// The task ended: its result, or why there is none.
    Joined(Result<Result<(), Error<B>>, Error<B>>),
    /// The task did not end within the time given.
    TimedOut,
}

/// What [`StreamData::shutdown`] asks for.
#[derive(Debug, PartialEq, Eq)]
pub enum ShutdownAction<B> {
    /// Wait for the task, for at most so many milliseconds.
    AwaitTask {
        /// The longest wait.
        limit_ms: u64,
    },
    /// The shutdown is over.
    Return(Result<(), Error<B>>),
}

impl StreamData {
    /// This handle once the task was told to stop and `handle` says what is left of it.
    pub open spec fn stopped(self, handle: TaskHandle) -> StreamData {
        StreamData { handle, cancelled: true, ..self }
    }

    /// Stream data for a task that was just started.
    pub open spec fn started(label: String) -> StreamData {
        StreamData { handle: TaskHandle::Held, cancelled: false, label }
    }

    /// Creates stream data for a task that was just started.
    pub fn from_parts(label: String) -> (r: StreamData)
        ensures
            r == (StreamData { handle: TaskHandle::Held, cancelled: false, label }),
            r == StreamData::started(label),
    {
        StreamData { handle: TaskHandle::Held, cancelled: false, label }
    }

    /// Whether a pull may go on with `event`.
    ///
    /// A task's result can be collected once; asking again would panic.
    pub open spec fn can_pull<T, B>(self, event: PullEvent<T, B>) -> bool {
        match event {
            PullEvent::Begin { .. } => self.handle !is Joined,
            _ => self.handle is Held,
        }
    }

    /// The handle after a pull went on with `event`, and what the pull asks for.
    ///
    /// A pull that does not yield a packet stops the task.
    pub open spec fn pulled<T, B>(self, event: PullEvent<T, B>) -> (StreamData, PullAction<T, B>) {
        match event {
            PullEvent::Begin { finished } => if self.handle is Taken {
                (self.stopped(self.handle), PullAction::Return(Err(Error::StreamFinished)))
            } else if finished {
                (self.stopped(self.handle), PullAction::AwaitTask)
            } else {
                (self, PullAction::Receive)
            },
            PullEvent::Joined(Ok(_)) => (
                StreamData { handle: TaskHandle::Joined, ..self },
                PullAction::Return(Err(Error::StreamFinished)),
            ),
            PullEvent::Joined(Err(e)) => (
                StreamData { handle: TaskHandle::Joined, ..self },
                PullAction::Return(Err(e)),
            ),
            PullEvent::Received(Some(data)) => (self, PullAction::Return(Ok(data))),
            PullEvent::Received(None) => (
                self.stopped(self.handle),
                PullAction::Return(Err(Error::StreamFinished)),
            ),
        }
    }

    /// Pulls data from the camera's buffer: one step of a pull.
    pub fn get_data<T, B>(&mut self, event: PullEvent<T, B>) -> (action: PullAction<T, B>)
        requires
            old(self).can_pull(event),
        ensures
            (*final(self), action) == old(self).pulled(event),
    {
        match event {
            PullEvent::Begin { finished } => match self.handle {
                TaskHandle::Taken => {
                    self.cancelled = true;
                    PullAction::Return(Err(Error::StreamFinished))
                },
                _ => if finished {
                    self.cancelled = true;
                    PullAction::AwaitTask
                } else {
                    PullAction::Receive
                },
            },
            PullEvent::Joined(result) => {
                self.handle = TaskHandle::Joined;
                match result {
                    Ok(_) => PullAction::Return(Err(Error::StreamFinished)),
                    Err(e) => PullAction::Return(Err(e)),
                }
            },
            PullEvent::Received(received) => match received {
                Some(data) => PullAction::Return(Ok(data)),
                None => {
                    self.cancelled = true;
                    PullAction::Return(Err(Error::StreamFinished))
                },
            },
        }
    }

    /// Whether a shutdown may go on with `event`.
    pub open spec fn can_shut_down<B>(self, event: ShutdownEvent<B>) -> bool {
        match event {
            ShutdownEvent::Begin => self.handle !is Joined,
            _ => self.handle is Taken,
        }
    }

    /// The handle after a shutdown went on with `event`, and what the shutdown asks for.
    ///
    /// Only a task whose end could not be observed makes the shutdown fail; what
    /// the task itself returned, and a task that does not end in time, do not.
    pub open spec fn shut_down<B>(self, event: ShutdownEvent<B>) -> (
        StreamData,
        ShutdownAction<B>,
    ) {
        match event {
            ShutdownEvent::Begin => (
                self.stopped(TaskHandle::Taken),
                if self.handle is Held {
                    ShutdownAction::AwaitTask { limit_ms: SHUTDOWN_WAIT_MS }
                } else {
                    ShutdownAction::Return(Ok(()))
                },
            ),
            ShutdownEvent::Joined(Err(e)) => (self, ShutdownAction::Return(Err(e))),
            ShutdownEvent::Joined(Ok(_)) => (self, ShutdownAction::Return(Ok(()))),
            ShutdownEvent::TimedOut => (self, ShutdownAction::Return(Ok(()))),
        }
    }

    /// Attempts to gracefully shut down: one step of it.
    ///
    /// The background task is told to stop, upon which it sends the stop
    /// request to the camera.
    pub fn shutdown<B>(&mut self, event: ShutdownEvent<B>) -> (action: ShutdownAction<B>)
        requires
            old(self).can_shut_down(event),
        ensures
            (*final(self), action) == old(self).shut_down(event),
    {
        match event {
            ShutdownEvent::Begin => {
                self.cancelled = true;
                match self.handle {
                    TaskHandle::Taken => ShutdownAction::Return(Ok(())),
                    _ => {
                        self.handle = TaskHandle::Taken;
                        ShutdownAction::AwaitTask { limit_ms: SHUTDOWN_WAIT_MS }
                    },
                }
            },
            ShutdownEvent::Joined(joined) => match joined {
                Ok(_) => ShutdownAction::Return(Ok(())),
                Err(e) => ShutdownAction::Return(Err(e)),
            },
            ShutdownEvent::TimedOut => ShutdownAction::Return(Ok(())),
        }
    }

    /// Lets go of the stream: the task is told to stop and left to itself.
    pub fn detach(&mut self)
        ensures
            *final(self) == old(self).stopped(TaskHandle::Taken),
    {
        self.cancelled = true;
        self.handle = TaskHandle::Taken;
    }
}

impl StreamData {
    /// A whole pull: `finished` says whether the task had ended, `result` is what
    /// it returned if so, and `received` what came out of the buffer if not.
    pub open spec fn whole_pull<T, B>(
        self,
        finished: bool,
        result: Result<(), Error<B>>,
        received: Option<T>,
    ) -> (StreamData, PullAction<T, B>) {
        let (begun, action) = self.pulled(PullEvent::<T, B>::Begin { finished });
        match action {
            PullAction::AwaitTask => begun.pulled(PullEvent::<T, B>::Joined(result)),
            PullAction::Receive => begun.pulled(PullEvent::Received(received)),
            PullAction::Return(_) => (begun, action),
        }
    }
}

/// A pull yields a packet just when the task still runs and the buffer gives
/// one, and then changes nothing. Every other pull tells the task to stop, and
/// fails with the task's own error if it ended with one, and else because the
/// stream is finished.
pub proof fn law_pull<T, B>(
    data: StreamData,
    finished: bool,
    result: Result<(), Error<B>>,
    received: Option<T>,
)
    requires
        data.handle !is Joined,
    ensures
        ({
            let (after, action) = data.whole_pull(finished, result, received);
            if data.handle is Held && !finished && received is Some {
                action == PullAction::Return(Ok::<T, Error<B>>(received->0)) && after == data
            } else if data.handle is Held && finished && result is Err {
                action == PullAction::Return(Err::<T, Error<B>>(result->Err_0)) && after.cancelled
            } else {
                action == PullAction::Return(Err::<T, Error<B>>(Error::StreamFinished))
                    && after.cancelled
            }
        }),
{
}

/// A stream that was shut down is at an end: its task was told to stop, a pull
/// finds the stream finished, and another shutdown succeeds without a wait.
pub proof fn law_shutdown_is_final<T, B>(data: StreamData, finished: bool)
    requires
        data.handle !is Joined,
    ensures
        ({
            let down = data.shut_down(ShutdownEvent::<B>::Begin).0;
            &&& down.cancelled
            &&& down.handle is Taken
            &&& down.label == data.label
            &&& down.pulled(PullEvent::<T, B>::Begin { finished }) == (
                down,
                PullAction::<T, B>::Return(Err(Error::StreamFinished)),
            )
            &&& down.shut_down(ShutdownEvent::<B>::Begin) == (
                down,
                ShutdownAction::<B>::Return(Ok(())),
            )
        }),
{
}

/// An order to stop is never taken back.
pub proof fn law_cancel_is_never_undone<T, B>(
    data: StreamData,
    pull: PullEvent<T, B>,
    shutdown: ShutdownEvent<B>,
    handle: TaskHandle,
)
    requires
        data.cancelled,
    ensures
        data.pulled(pull).0.cancelled,
        data.shut_down(shutdown).0.cancelled,
        data.stopped(handle).cancelled,
{
}

/// The requests that start and stop a stream differ in their message ids and in
/// that only the first names the stream; they agree on channel, number, code,
/// class, handle and version.
pub proof fn law_start_and_stop_agree(
    ids: ProtocolIds,
    channel_id: u8,
    msg_num: u16,
    stream: StreamKind,
)
    ensures
        ({
            let start = start_message(ids, channel_id, msg_num, stream);
            let stop = stop_message(ids, channel_id, msg_num, stream);
            &&& start.meta == (BcMeta { msg_id: ids.video, ..stop.meta })
            &&& stop.meta.msg_id == ids.video_stop
            &&& start.preview == (PreviewView {
                stream_type: Some(stream.name()),
                ..stop.preview
            })
            &&& stop.preview.stream_type is None
        }),
{
}

/// Different streams have different handles and different names.
pub proof fn law_streams_told_apart(a: StreamKind, b: StreamKind)
    requires
        a != b,
    ensures
        a.handle() != b.handle(),
        a.name() != b.name(),
{
    reveal_strlit("mainStream");
    reveal_strlit("subStream");
    reveal_strlit("externStream");
    assert("mainStream"@.len() == 10);
    assert("subStream"@.len() == 9);
    assert("externStream"@.len() == 12);
}

/// The main stream has code 0 and handle 0, the sub stream code 1 and handle
/// 256, the extern stream code 0 and handle 1024; each goes by its own name.
pub proof fn law_stream_identifiers(stream: StreamKind)
    ensures
        stream is Main ==> stream.name() == "mainStream"@ && stream.code() == 0
            && stream.handle() == 0,
        stream is Sub ==> stream.name() == "subStream"@ && stream.code() == 1
            && stream.handle() == 256,
        stream is Extern ==> stream.name() == "externStream"@ && stream.code() == 0
            && stream.handle() == 1024,
{
}

/// A request carries what was asked: the message id of its kind, the channel
/// (twice), the number, the code and the handle of the very stream, and the
/// version. A start names that stream, a stop does not.
pub proof fn law_requests_carry_what_was_asked(
    ids: ProtocolIds,
    channel_id: u8,
    msg_num: u16,
    stream: StreamKind,
)
    ensures
        ({
            let start = start_message(ids, channel_id, msg_num, stream);
            let stop = stop_message(ids, channel_id, msg_num, stream);
            let code: u8 = if stream is Sub {
                1
            } else {
                0
            };
            let handle: u32 = if stream is Main {
                0
            } else if stream is Sub {
                256
            } else {
                1024
            };
            let name = if stream is Main {
                "mainStream"@
            } else if stream is Sub {
                "subStream"@
            } else {
                "externStream"@
            };
            &&& start.meta == (BcMeta {
                msg_id: ids.video,
                channel_id,
                msg_num,
                stream_type: code,
                response_code: 0,
                class: 0x6414,
            })
            &&& stop.meta == (BcMeta {
                msg_id: ids.video_stop,
                channel_id,
                msg_num,
                stream_type: code,
                response_code: 0,
                class: 0x6414,
            })
            &&& start.preview == (PreviewView {
                version: ids.xml_version@,
                channel_id,
                handle,
                stream_type: Some(name),
            })
            &&& stop.preview == (PreviewView {
                version: ids.xml_version@,
                channel_id,
                handle,
                stream_type: None,
            })
        }),
{
}

/// A pull of a running task waits for the buffer and hands over what comes out
/// of it, packet after packet, without a trace on the handle. When the buffer's
/// sender is gone it tells the task to stop and finds the stream finished.
pub proof fn law_pull_hands_over_the_buffer<T, B>(
    data: StreamData,
    received: Option<T>,
)
    requires
        data.handle is Held,
    ensures
        ({
            let begin = PullEvent::<T, B>::Begin { finished: false };
            let (waiting, asked) = data.pulled(begin);
            let (after, action) = waiting.pulled(PullEvent::<T, B>::Received(received));
            &&& data.can_pull(begin)
            &&& asked is Receive
            &&& waiting == data
            &&& waiting.can_pull(PullEvent::<T, B>::Received(received))
            &&& received matches Some(packet) ==> after == data && action == PullAction::<
                T,
                B,
            >::Return(Ok(packet))
            &&& received is None ==> after == (StreamData { cancelled: true, ..data }) && action
                == PullAction::<T, B>::Return(Err(Error::StreamFinished))
        }),
{
}

/// A pull of a task that has ended tells it to stop, collects its result, once,
/// and fails: with the task's own error, or else because the stream is finished.
/// A pull of a task that was given away asks for nothing and finds it finished.
pub proof fn law_pull_of_an_ended_task<T, B>(data: StreamData, result: Result<(), Error<B>>)
    requires
        data.handle !is Joined,
    ensures
        ({
            let begin = PullEvent::<T, B>::Begin { finished: true };
            let (waiting, asked) = data.pulled(begin);
            let (after, action) = waiting.pulled(PullEvent::<T, B>::Joined(result));
            &&& data.can_pull(begin)
            &&& waiting == (StreamData { cancelled: true, ..data })
            &&& data.handle is Held ==> {
                &&& asked is AwaitTask
                &&& waiting.can_pull(PullEvent::<T, B>::Joined(result))
                &&& after == (StreamData {
                    handle: TaskHandle::Joined,
                    cancelled: true,
                    label: data.label,
                })
                &&& result is Ok ==> action == PullAction::<T, B>::Return(
                    Err(Error::StreamFinished),
                )
                &&& result matches Err(e) ==> action == PullAction::<T, B>::Return(Err(e))
            }
            &&& data.handle is Taken ==> {
                &&& asked == PullAction::<T, B>::Return(Err(Error::StreamFinished))
                &&& data.can_pull(PullEvent::<T, B>::Begin { finished: false })
                &&& data.pulled(PullEvent::<T, B>::Begin { finished: false }) == (waiting, asked)
            }
        }),
{
}

/// A shutdown tells the task to stop and gives its handle away; of a task that
/// was held it waits for the end, three seconds at most. It fails just when that
/// end could not be observed, and then with that error: whatever the task itself
/// returned, and a task that does not end in time, make it succeed.
pub proof fn law_shutdown_fails_on_a_lost_task_only<B>(
    data: StreamData,
    result: Result<(), Error<B>>,
    e: Error<B>,
)
    requires
        data.handle !is Joined,
    ensures
        ({
            let (down, asked) = data.shut_down(ShutdownEvent::<B>::Begin);
            &&& data.can_shut_down(ShutdownEvent::<B>::Begin)
            &&& down == (StreamData {
                handle: TaskHandle::Taken,
                cancelled: true,
                label: data.label,
            })
            &&& data.handle is Held ==> asked == (ShutdownAction::<B>::AwaitTask {
                limit_ms: 3000,
            })
            &&& data.handle is Taken ==> asked == ShutdownAction::<B>::Return(Ok(()))
            &&& down.can_shut_down(ShutdownEvent::Joined(Ok(result)))
            &&& down.can_shut_down(ShutdownEvent::<B>::Joined(Err(e)))
            &&& down.can_shut_down(ShutdownEvent::<B>::TimedOut)
            &&& down.shut_down(ShutdownEvent::Joined(Ok(result))) == (
                down,
                ShutdownAction::<B>::Return(Ok(())),
            )
            &&& down.shut_down(ShutdownEvent::<B>::TimedOut) == (
                down,
                ShutdownAction::<B>::Return(Ok(())),
            )
            &&& down.shut_down(ShutdownEvent::Joined(Err(e))) == (
                down,
                ShutdownAction::<B>::Return(Err(e)),
            )
        }),
{
}

/// Stream data begins with a task that is held and not told to stop, under its
/// label. Letting go of it, at any time, tells the task to stop and gives its
/// handle away.
pub proof fn law_stream_begins_and_is_let_go(label: String, data: StreamData)
    ensures
        StreamData::started(label).handle is Held,
        !StreamData::started(label).cancelled,
        StreamData::started(label).label == label,
        data.stopped(TaskHandle::Taken).handle is Taken,
        data.stopped(TaskHandle::Taken).cancelled,
        data.stopped(TaskHandle::Taken).label == data.label,
{
}

} // verus!
