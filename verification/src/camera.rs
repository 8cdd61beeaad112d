//! Starting and stopping a video stream on a camera.

use vstd::pervasive::unreached;
use vstd::prelude::*;

use crate::bc::{Bc, BcView, Message, ProtocolIds, RESPONSE_OK};
use crate::error::Error;
use crate::stream::{
    new_stop_message, start_message, stop_message, ShutdownEvent, StreamData, StreamKind,
    TaskHandle,
};
use crate::stream_task::{
    law_task_identity, StreamTask, TaskActionView, TaskEvent, TaskPhase, STOP_HANDSHAKE_MS,
};

verus! {

/// The ability, for reading and writing, that streams need.
pub const PREVIEW_ABILITY: &'static str = "preview";

/// The ability, for reading, that will do in its place.
pub const STREAM_TABLE_ABILITY: &'static str = "streamTable";

/// How many packets are buffered when the caller does not say.
pub const DEFAULT_BUFFER_SIZE: usize = 100;

/// What stream requests need to know of a camera.
#[derive(Debug, PartialEq, Eq)]
pub struct BcCamera {
    /// The channel of the camera.
    pub channel_id: u8,
    /// The identifiers of the message layer.
    pub ids: ProtocolIds,
}

/// Where a call stands.
#[derive(Debug, PartialEq, Eq)]
pub enum CallStep<B> {
    /// Nothing has happened yet.
    Fresh,
    /// Asking for the preview ability.
    AskingPreview,
    /// That was denied with this error; asking for the stream table ability.
    AskingStreamTable(Error<B>),
    /// Taking a message number.
    Numbering,
    /// Subscribing to the replies.
    Subscribing {
        /// The number of the request.
        msg_num: u16,
    },
    /// Sending the request.
    Sending,
    /// Waiting for the reply.
    Awaiting,
    /// The call is over.
    Done,
}

/// What [`BcCamera::start_video`] is told.
#[derive(Debug, PartialEq, Eq)]
pub enum StartEvent<B> {
    /// The call begins.
    Begin,
    /// Whether the login may read and write the preview ability.
    Preview(Result<(), Error<B>>),
    /// Whether the login may read the stream table ability.
    StreamTable(Result<(), Error<B>>),
    /// The next message number.
    Numbered(u16),
}

/// What [`BcCamera::stop_video`] is told.
#[derive(Debug, PartialEq, Eq)]
pub enum StopEvent<B> {
    /// The call begins.
    Begin,
    /// Whether the login may read and write the preview ability.
    Preview(Result<(), Error<B>>),
    /// Whether the login may read the stream table ability.
    StreamTable(Result<(), Error<B>>),
    /// The next message number.
    Numbered(u16),
    /// The subscription stands, or failed.
    Subscribed(Result<(), Error<B>>),
    /// The request was sent, or was not.
    Sent(Result<(), Error<B>>),
    /// A reply came, or none will.
    Replied(Result<Message<B>, Error<B>>),
}

/// A stream that was started.
#[derive(Debug, PartialEq, Eq)]
pub struct StartedStream<B> {
    /// The caller's handle.
    pub data: StreamData,
    /// The background task, about to subscribe.
    pub task: StreamTask<B>,
    /// How many packets to buffer between the two.
    pub buffer_size: usize,
}

/// A call that starts a stream.
#[derive(Debug, PartialEq, Eq)]
pub struct StartCall<B> {
    /// The stream.
    pub stream: StreamKind,
    /// How many packets to buffer; 0 for the default.
    pub buffer_size: usize,
    /// Whether an unexpected packet is an error.
    pub strict: bool,
    /// Where the call stands.
    pub step: CallStep<B>,
}

/// What [`BcCamera::start_video`] asks for.
#[derive(Debug, PartialEq, Eq)]
pub enum StartAction<B> {
    /// Find out whether the login may read and write this ability.
    AskReadWrite {
        /// The name of the ability.
        ability: &'static str,
    },
    /// Find out whether the login may read this ability.
    AskRead {
        /// The name of the ability.
        ability: &'static str,
    },
    /// Take the next message number.
    TakeNumber,
    /// The call is over.
    Return(Result<StartedStream<B>, Error<B>>),
}

/// What a [`StartedStream`] says.
pub struct StartedStreamView<B> {
    pub handle: TaskHandle,
    pub cancelled: bool,
    pub label: Seq<char>,
    pub task: StreamTask<B>,
    pub buffer_size: usize,
}

/// What a [`StartAction`] says.
pub enum StartActionView<B> {
    AskReadWrite { ability: Seq<char> },
    AskRead { ability: Seq<char> },
    TakeNumber,
    Return(Result<StartedStreamView<B>, Error<B>>),
}

impl<B> View for StartedStream<B> {
    type V = StartedStreamView<B>;

    open spec fn view(&self) -> StartedStreamView<B> {
        StartedStreamView {
            handle: self.data.handle,
            cancelled: self.data.cancelled,
            label: self.data.label@,
            task: self.task,
            buffer_size: self.buffer_size,
        }
    }
}

impl<B> View for StartAction<B> {
    type V = StartActionView<B>;

    open spec fn view(&self) -> StartActionView<B> {
        match *self {
            StartAction::AskReadWrite { ability } => StartActionView::AskReadWrite {
                ability: ability@,
            },
            StartAction::AskRead { ability } => StartActionView::AskRead { ability: ability@ },
            StartAction::TakeNumber => StartActionView::TakeNumber,
            StartAction::Return(Ok(started)) => StartActionView::Return(Ok(started@)),
            StartAction::Return(Err(e)) => StartActionView::Return(Err(e)),
        }
    }
}

/// A call that stops a stream.
#[derive(Debug, PartialEq, Eq)]
pub struct StopCall<B> {
    /// The stream.
    pub stream: StreamKind,
    /// Where the call stands.
    pub step: CallStep<B>,
}

/// What [`BcCamera::stop_video`] asks for.
#[derive(Debug, PartialEq, Eq)]
pub enum StopAction<B> {
    /// Find out whether the login may read and write this ability.
    AskReadWrite {
        /// The name of the ability.
        ability: &'static str,
    },
    /// Find out whether the login may read this ability.
    AskRead {
        /// The name of the ability.
        ability: &'static str,
    },
    /// Take the next message number.
    TakeNumber,
    /// Subscribe to the messages with this id and number.
    Subscribe {
        /// The message id.
        msg_id: u32,
        /// The message number.
        msg_num: u16,
    },
    /// Send this request.
    Send(Bc),
    /// Wait for a reply.
    Receive,
    /// The call is over.
    Return(Result<(), Error<B>>),
}

/// What a [`StopAction`] says.
pub enum StopActionView<B> {
    AskReadWrite { ability: Seq<char> },
    AskRead { ability: Seq<char> },
    TakeNumber,
    Subscribe { msg_id: u32, msg_num: u16 },
    Send(BcView),
    Receive,
    Return(Result<(), Error<B>>),
}

impl<B> View for StopAction<B> {
    type V = StopActionView<B>;

    open spec fn view(&self) -> StopActionView<B> {
        match *self {
            StopAction::AskReadWrite { ability } => StopActionView::AskReadWrite {
                ability: ability@,
            },
            StopAction::AskRead { ability } => StopActionView::AskRead { ability: ability@ },
            StopAction::TakeNumber => StopActionView::TakeNumber,
            StopAction::Subscribe { msg_id, msg_num } => StopActionView::Subscribe {
                msg_id,
                msg_num,
            },
            StopAction::Send(bc) => StopActionView::Send(bc@),
            StopAction::Receive => StopActionView::Receive,
            StopAction::Return(r) => StopActionView::Return(r),
        }
    }
}

/// The number of packets to buffer when `asked` are asked for.
pub open spec fn buffer_size_for(asked: usize) -> usize {
    if asked == 0 {
        DEFAULT_BUFFER_SIZE
    } else {
        asked
    }
}

impl<B> StartCall<B> {
    /// A call that is about to start `stream`.
    pub open spec fn fresh(stream: StreamKind, buffer_size: usize, strict: bool) -> StartCall<B> {
        StartCall { stream, buffer_size, strict, step: CallStep::Fresh }
    }

    /// A call that starts `stream`, buffering `buffer_size` complete packets;
    /// if 0 the default is used.
    pub fn new(stream: StreamKind, buffer_size: usize, strict: bool) -> (r: StartCall<B>)
        ensures
            r == (StartCall { stream, buffer_size, strict, step: CallStep::<B>::Fresh }),
            r == StartCall::<B>::fresh(stream, buffer_size, strict),
    {
        StartCall { stream, buffer_size, strict, step: CallStep::Fresh }
    }

    /// Whether `event` can happen now.
    pub open spec fn accepts(self, event: StartEvent<B>) -> bool {
        match event {
            StartEvent::Begin => self.step is Fresh,
            StartEvent::Preview(_) => self.step is AskingPreview,
            StartEvent::StreamTable(_) => self.step is AskingStreamTable,
            StartEvent::Numbered(_) => self.step is Numbering,
        }
    }

    /// The call at `step`.
    pub open spec fn at(self, step: CallStep<B>) -> StartCall<B> {
        StartCall { step, ..self }
    }
}

impl<B> StopCall<B> {
    /// A call that is about to stop `stream`.
    pub open spec fn fresh(stream: StreamKind) -> StopCall<B> {
        StopCall { stream, step: CallStep::Fresh }
    }

    /// A call that stops `stream`.
    pub fn new(stream: StreamKind) -> (r: StopCall<B>)
        ensures
            r == (StopCall { stream, step: CallStep::<B>::Fresh }),
            r == StopCall::<B>::fresh(stream),
    {
        StopCall { stream, step: CallStep::Fresh }
    }

    /// Whether `event` can happen now.
    pub open spec fn accepts(self, event: StopEvent<B>) -> bool {
        match event {
            StopEvent::Begin => self.step is Fresh,
            StopEvent::Preview(_) => self.step is AskingPreview,
            StopEvent::StreamTable(_) => self.step is AskingStreamTable,
            StopEvent::Numbered(_) => self.step is Numbering,
            StopEvent::Subscribed(_) => self.step is Subscribing,
            StopEvent::Sent(_) => self.step is Sending,
            StopEvent::Replied(_) => self.step is Awaiting,
        }
    }

    /// The call at `step`.
    pub open spec fn at(self, step: CallStep<B>) -> StopCall<B> {
        StopCall { step, ..self }
    }
}

impl BcCamera {
    /// What `call` yields with message number `msg_num`.
    pub open spec fn started<B>(self, call: StartCall<B>, msg_num: u16) -> StartedStreamView<B> {
        StartedStreamView {
            handle: TaskHandle::Held,
            cancelled: false,
            label: call.stream.name(),
            task: StreamTask::fresh(self.ids, self.channel_id, msg_num, call.stream, call.strict),
            buffer_size: buffer_size_for(call.buffer_size),
        }
    }

    /// The call after `event`, and what it asks for.
    ///
    /// A login without the preview ability may still use the stream table
    /// ability; without either, the call fails with the first denial.
    pub open spec fn start_next<B>(self, call: StartCall<B>, event: StartEvent<B>) -> (
        StartCall<B>,
        StartActionView<B>,
    ) {
        match event {
            StartEvent::Begin => (
                call.at(CallStep::AskingPreview),
                StartActionView::AskReadWrite { ability: PREVIEW_ABILITY@ },
            ),
            StartEvent::Preview(Ok(_)) | StartEvent::StreamTable(Ok(_)) => (
                call.at(CallStep::Numbering),
                StartActionView::TakeNumber,
            ),
            StartEvent::Preview(Err(e)) => (
                call.at(CallStep::AskingStreamTable(e)),
                StartActionView::AskRead { ability: STREAM_TABLE_ABILITY@ },
            ),
            StartEvent::StreamTable(Err(_)) => (
                call.at(CallStep::Done),
                StartActionView::Return(Err(call.step->AskingStreamTable_0)),
            ),
            StartEvent::Numbered(msg_num) => (
                call.at(CallStep::Done),
                StartActionView::Return(Ok(self.started(call, msg_num))),
            ),
        }
    }

    /// Starts the video stream: one step of the call.
    ///
    /// The object that the call yields manages the data stream; when it is
    /// dropped the video stop signal is sent to the camera.
    pub fn start_video<B>(&self, call: &mut StartCall<B>, event: StartEvent<B>) -> (action:
        StartAction<B>)
        requires
            old(call).accepts(event),
        ensures
            (*final(call), action@) == self.start_next(*old(call), event),
    {
        match event {
            StartEvent::Begin => {
                call.step = CallStep::AskingPreview;
                StartAction::AskReadWrite { ability: PREVIEW_ABILITY }
            },
            StartEvent::Preview(result) => match result {
                Ok(_) => {
                    call.step = CallStep::Numbering;
                    StartAction::TakeNumber
                },
                Err(e) => {
                    call.step = CallStep::AskingStreamTable(e);
                    StartAction::AskRead { ability: STREAM_TABLE_ABILITY }
                },
            },
            StartEvent::StreamTable(result) => match result {
                Ok(_) => {
                    call.step = CallStep::Numbering;
                    StartAction::TakeNumber
                },
                Err(_) => StartAction::Return(Err(call.step.take_denial())),
            },
            StartEvent::Numbered(msg_num) => {
                call.step = CallStep::Done;
                StartAction::Return(
                    Ok(
                        StartedStream {
                            data: StreamData::from_parts(call.stream.to_string()),
                            task: StreamTask::new(
                                ProtocolIds {
                                    video: self.ids.video,
                                    video_stop: self.ids.video_stop,
                                    xml_version: self.ids.xml_version.clone(),
                                },
                                self.channel_id,
                                msg_num,
                                call.stream,
                                call.strict,
                            ),
                            buffer_size: if call.buffer_size == 0 {
                                DEFAULT_BUFFER_SIZE
                            } else {
                                call.buffer_size
                            },
                        },
                    ),
                )
            },
        }
    }

    /// The call after `event`, and what it asks for.
    pub open spec fn stop_next<B>(self, call: StopCall<B>, event: StopEvent<B>) -> (
        StopCall<B>,
        StopActionView<B>,
    ) {
        match event {
            StopEvent::Begin => (
                call.at(CallStep::AskingPreview),
                StopActionView::AskReadWrite { ability: PREVIEW_ABILITY@ },
            ),
            StopEvent::Preview(Ok(_)) | StopEvent::StreamTable(Ok(_)) => (
                call.at(CallStep::Numbering),
                StopActionView::TakeNumber,
            ),
            StopEvent::Preview(Err(e)) => (
                call.at(CallStep::AskingStreamTable(e)),
                StopActionView::AskRead { ability: STREAM_TABLE_ABILITY@ },
            ),
            StopEvent::StreamTable(Err(_)) => (
                call.at(CallStep::Done),
                StopActionView::Return(Err(call.step->AskingStreamTable_0)),
            ),
            StopEvent::Numbered(msg_num) => (
                call.at(CallStep::Subscribing { msg_num }),
                StopActionView::Subscribe { msg_id: self.ids.video_stop, msg_num },
            ),
            StopEvent::Subscribed(Ok(_)) => (
                call.at(CallStep::Sending),
                StopActionView::Send(
                    stop_message(
                        self.ids,
                        self.channel_id,
                        call.step->Subscribing_msg_num,
                        call.stream,
                    ),
                ),
            ),
            StopEvent::Sent(Ok(_)) => (call.at(CallStep::Awaiting), StopActionView::Receive),
            StopEvent::Subscribed(Err(e)) | StopEvent::Sent(Err(e)) | StopEvent::Replied(Err(e)) => (
                call.at(CallStep::Done),
                StopActionView::Return(Err(e)),
            ),
            StopEvent::Replied(Ok(reply)) => (
                call.at(CallStep::Done),
                StopActionView::Return(
                    if reply.meta.response_code == RESPONSE_OK {
                        Ok(())
                    } else {
                        Err(
                            Error::CameraServiceUnavailable {
                                id: reply.meta.msg_id,
                                code: reply.meta.response_code,
                            },
                        )
                    },
                ),
            ),
        }
    }

    /// Stops a camera from sending more stream data: one step of the call.
    pub fn stop_video<B>(&self, call: &mut StopCall<B>, event: StopEvent<B>) -> (action:
        StopAction<B>)
        requires
            old(call).accepts(event),
        ensures
            (*final(call), action@) == self.stop_next(*old(call), event),
    {
        match event {
            StopEvent::Begin => {
                call.step = CallStep::AskingPreview;
                StopAction::AskReadWrite { ability: PREVIEW_ABILITY }
            },
            StopEvent::Preview(result) => match result {
                Ok(_) => {
                    call.step = CallStep::Numbering;
                    StopAction::TakeNumber
                },
                Err(e) => {
                    call.step = CallStep::AskingStreamTable(e);
                    StopAction::AskRead { ability: STREAM_TABLE_ABILITY }
                },
            },
            StopEvent::StreamTable(result) => match result {
                Ok(_) => {
                    call.step = CallStep::Numbering;
                    StopAction::TakeNumber
                },
                Err(_) => StopAction::Return(Err(call.step.take_denial())),
            },
            StopEvent::Numbered(msg_num) => {
                call.step = CallStep::Subscribing { msg_num };
                StopAction::Subscribe { msg_id: self.ids.video_stop, msg_num }
            },
            StopEvent::Subscribed(result) => match result {
                Ok(_) => {
                    let msg_num: u16 = match call.step {
                        CallStep::Subscribing { msg_num } => msg_num,
                        _ => unreached(),
                    };
                    call.step = CallStep::Sending;
                    StopAction::Send(
                        new_stop_message(&self.ids, self.channel_id, msg_num, call.stream),
                    )
                },
                Err(e) => {
                    call.step = CallStep::Done;
                    StopAction::Return(Err(e))
                },
            },
            StopEvent::Sent(result) => match result {
                Ok(_) => {
                    call.step = CallStep::Awaiting;
                    StopAction::Receive
                },
                Err(e) => {
                    call.step = CallStep::Done;
                    StopAction::Return(Err(e))
                },
            },
            StopEvent::Replied(result) => {
                call.step = CallStep::Done;
                match result {
                    Ok(reply) => if reply.meta.response_code == RESPONSE_OK {
                        StopAction::Return(Ok(()))
                    } else {
                        StopAction::Return(
                            Err(
                                Error::CameraServiceUnavailable {
                                    id: reply.meta.msg_id,
                                    code: reply.meta.response_code,
                                },
                            ),
                        )
                    },
                    Err(e) => StopAction::Return(Err(e)),
                }
            },
        }
    }
}

impl<B> CallStep<B> {
    /// Ends a call that was denied the preview ability, and gives the denial.
    fn take_denial(&mut self) -> (e: Error<B>)
        requires
            *old(self) is AskingStreamTable,
        ensures
            *final(self) == CallStep::<B>::Done,
            e == (*old(self))->AskingStreamTable_0,
    {
        let mut step = CallStep::Done;
        std::mem::swap(self, &mut step);
        match step {
            CallStep::AskingStreamTable(e) => e,
            _ => unreached(),
        }
    }
}

impl BcCamera {
    /// What starting a stream comes to, all told, where `preview` and `table`
    /// say which abilities the login has and `msg_num` is the next number.
    pub open spec fn whole_start<B>(
        self,
        call: StartCall<B>,
        preview: Result<(), Error<B>>,
        table: Result<(), Error<B>>,
        msg_num: u16,
    ) -> StartActionView<B> {
        let begun = self.start_next(call, StartEvent::Begin).0;
        let (asked, first) = self.start_next(begun, StartEvent::Preview(preview));
        let (granted, second) = if first is AskRead {
            self.start_next(asked, StartEvent::StreamTable(table))
        } else {
            (asked, first)
        };
        if second is TakeNumber {
            self.start_next(granted, StartEvent::Numbered(msg_num)).1
        } else {
            second
        }
    }

    /// What stopping a stream comes to, all told.
    pub open spec fn whole_stop<B>(
        self,
        call: StopCall<B>,
        preview: Result<(), Error<B>>,
        table: Result<(), Error<B>>,
        msg_num: u16,
        subscribed: Result<(), Error<B>>,
        sent: Result<(), Error<B>>,
        replied: Result<Message<B>, Error<B>>,
    ) -> StopActionView<B> {
        let begun = self.stop_next(call, StopEvent::Begin).0;
        let (asked, first) = self.stop_next(begun, StopEvent::Preview(preview));
        let (granted, second) = if first is AskRead {
            self.stop_next(asked, StopEvent::StreamTable(table))
        } else {
            (asked, first)
        };
        if second is TakeNumber {
            let numbered = self.stop_next(granted, StopEvent::Numbered(msg_num)).0;
            let (sending, third) = self.stop_next(numbered, StopEvent::Subscribed(subscribed));
            if third is Send {
                let (awaiting, fourth) = self.stop_next(sending, StopEvent::Sent(sent));
                if fourth is Receive {
                    self.stop_next(awaiting, StopEvent::Replied(replied)).1
                } else {
                    fourth
                }
            } else {
                third
            }
        } else {
            second
        }
    }
}

/// A stream is started just when the login has one of the two abilities. If it
/// has neither, the call fails with the denial of the preview ability.
pub proof fn law_start_needs_an_ability<B>(
    camera: BcCamera,
    call: StartCall<B>,
    preview: Result<(), Error<B>>,
    table: Result<(), Error<B>>,
    msg_num: u16,
)
    requires
        call.step is Fresh,
    ensures
        camera.whole_start(call, preview, table, msg_num) == StartActionView::Return(
            if preview is Err && table is Err {
                Err(preview->Err_0)
            } else {
                Ok(camera.started(call, msg_num))
            },
        ),
{
}

/// A stream is stopped just when the login has one of the two abilities, the
/// request goes out and the camera's reply accepts it. The call fails with the
/// first thing that went wrong; a refusal is reported with its id and code.
pub proof fn law_stop_succeeds_when_accepted<B>(
    camera: BcCamera,
    call: StopCall<B>,
    preview: Result<(), Error<B>>,
    table: Result<(), Error<B>>,
    msg_num: u16,
    subscribed: Result<(), Error<B>>,
    sent: Result<(), Error<B>>,
    replied: Result<Message<B>, Error<B>>,
)
    requires
        call.step is Fresh,
    ensures
        camera.whole_stop(call, preview, table, msg_num, subscribed, sent, replied)
            == StopActionView::Return(
            if preview is Err && table is Err {
                Err(preview->Err_0)
            } else if subscribed is Err {
                Err(subscribed->Err_0)
            } else if sent is Err {
                Err(sent->Err_0)
            } else if replied is Err {
                Err(replied->Err_0)
            } else if replied->Ok_0.meta.response_code != RESPONSE_OK {
                Err(
                    Error::CameraServiceUnavailable {
                        id: replied->Ok_0.meta.msg_id,
                        code: replied->Ok_0.meta.response_code,
                    },
                )
            } else {
                Ok(())
            },
        ),
{
}

/// A stream that is dropped is stopped on the camera: whatever its task was
/// doing in the stream itself, the order to stop makes it subscribe to the
/// replies to a stop request and then send that request, for the stream, the
/// channel and the number with which the stream was started.
pub proof fn law_dropped_stream_is_stopped<M, B>(
    camera: BcCamera,
    call: StartCall<B>,
    msg_num: u16,
    events: Seq<TaskEvent<M, B>>,
)
    requires
        camera.started(call, msg_num).task.admits(events),
        camera.started(call, msg_num).task.after(events).phase.is_guarded(),
    ensures
        ({
            let task = camera.started(call, msg_num).task.after(events);
            let (stopping, action) = task.next(TaskEvent::<M, B>::Cancelled);
            &&& task.accepts(TaskEvent::<M, B>::Cancelled)
            &&& action == (TaskActionView::<M, B>::Stop {
                msg_id: camera.ids.video_stop,
                msg_num,
                limit_ms: STOP_HANDSHAKE_MS,
            })
            &&& stopping.accepts(TaskEvent::<M, B>::Subscribed(Ok(())))
            &&& stopping.next(TaskEvent::<M, B>::Subscribed(Ok(()))).1 == (
            TaskActionView::<M, B>::Send(
                stop_message(camera.ids, camera.channel_id, msg_num, call.stream),
            ))
        }),
{
    law_task_identity(camera.started(call, msg_num).task, events);
}

/// Shutting down a stream waits for its task longer than the task may take to
/// stop the camera.
pub proof fn law_shutdown_outlasts_the_stop<M, B>(data: StreamData, task: StreamTask<B>)
    requires
        data.handle is Held,
        task.wf(),
        task.phase.is_guarded(),
    ensures
        ({
            let wait = data.shut_down(ShutdownEvent::<B>::Begin).1;
            let stop = task.next(TaskEvent::<M, B>::Cancelled).1;
            &&& wait is AwaitTask
            &&& stop is Stop
            &&& wait->limit_ms > stop->limit_ms
        }),
{
}

/// What a call asks for is told in full, and so is the stream that it yields.
pub proof fn law_call_action_says_all<B>(
    ability: &'static str,
    started: StartedStream<B>,
    bc: Bc,
    msg_id: u32,
    msg_num: u16,
    result: Result<(), Error<B>>,
    e: Error<B>,
)
    ensures
        started@ == (StartedStreamView {
            handle: started.data.handle,
            cancelled: started.data.cancelled,
            label: started.data.label@,
            task: started.task,
            buffer_size: started.buffer_size,
        }),
        (StartAction::<B>::AskReadWrite { ability })@ == (StartActionView::<B>::AskReadWrite {
            ability: ability@,
        }),
        (StartAction::<B>::AskRead { ability })@ == (StartActionView::<B>::AskRead {
            ability: ability@,
        }),
        StartAction::<B>::TakeNumber@ is TakeNumber,
        StartAction::<B>::Return(Ok(started))@ == StartActionView::<B>::Return(Ok(started@)),
        StartAction::<B>::Return(Err(e))@ == StartActionView::<B>::Return(Err(e)),
        (StopAction::<B>::AskReadWrite { ability })@ == (StopActionView::<B>::AskReadWrite {
            ability: ability@,
        }),
        (StopAction::<B>::AskRead { ability })@ == (StopActionView::<B>::AskRead {
            ability: ability@,
        }),
        StopAction::<B>::TakeNumber@ is TakeNumber,
        (StopAction::<B>::Subscribe { msg_id, msg_num })@ == (StopActionView::<B>::Subscribe {
            msg_id,
            msg_num,
        }),
        StopAction::<B>::Send(bc)@ == StopActionView::<B>::Send(bc@),
        StopAction::<B>::Receive@ is Receive,
        StopAction::<B>::Return(result)@ == StopActionView::<B>::Return(result),
{
}

/// Starting a stream asks whether the login may read and write `preview`, and
/// only if not, whether it may read `streamTable`; what the second question
/// brought does not matter beyond that. With either, it takes a number.
pub proof fn law_start_asks_for_abilities<B>(
    camera: BcCamera,
    stream: StreamKind,
    buffer_size: usize,
    strict: bool,
    denial: Error<B>,
    second: Error<B>,
)
    ensures
        ({
            let call = StartCall::<B>::fresh(stream, buffer_size, strict);
            let numbering = StartCall::<B> {
                stream,
                buffer_size,
                strict,
                step: CallStep::Numbering,
            };
            let (asking, first) = camera.start_next(call, StartEvent::Begin);
            let (denied, other) = camera.start_next(asking, StartEvent::Preview(Err(denial)));
            &&& call.accepts(StartEvent::Begin)
            &&& first == (StartActionView::<B>::AskReadWrite { ability: "preview"@ })
            &&& asking.accepts(StartEvent::Preview(Ok(())))
            &&& asking.accepts(StartEvent::Preview(Err(denial)))
            &&& camera.start_next(asking, StartEvent::Preview(Ok(()))) == (
                numbering,
                StartActionView::<B>::TakeNumber,
            )
            &&& other == (StartActionView::<B>::AskRead { ability: "streamTable"@ })
            &&& denied.accepts(StartEvent::StreamTable(Ok(())))
            &&& denied.accepts(StartEvent::StreamTable(Err(second)))
            &&& camera.start_next(denied, StartEvent::StreamTable(Ok(()))) == (
                numbering,
                StartActionView::<B>::TakeNumber,
            )
            &&& camera.start_next(denied, StartEvent::StreamTable(Err(second))).1
                == StartActionView::<B>::Return(Err(denial))
        }),
{
}

/// A stream that is started is the one that was asked for: its task is about to
/// begin, with the camera's identifiers and channel, the number taken, the stream
/// and the strictness asked for; its handle holds that task under the stream's
/// name; and as many packets are buffered as were asked for, or 100 if none were.
pub proof fn law_started_stream_is_what_was_asked<B>(
    camera: BcCamera,
    stream: StreamKind,
    buffer_size: usize,
    strict: bool,
    msg_num: u16,
)
    ensures
        ({
            let call = StartCall::<B> { stream, buffer_size, strict, step: CallStep::Numbering };
            let action = camera.start_next(call, StartEvent::Numbered(msg_num)).1;
            &&& call.accepts(StartEvent::Numbered(msg_num))
            &&& action matches StartActionView::Return(Ok(started))
            &&& started.handle is Held
            &&& !started.cancelled
            &&& started.label == stream.name()
            &&& started.buffer_size == (if buffer_size == 0 {
                100
            } else {
                buffer_size
            })
            &&& started.task == (StreamTask::<B> {
                ids: camera.ids,
                channel_id: camera.channel_id,
                msg_num,
                stream,
                strict,
                phase: TaskPhase::Fresh,
                outcome: None,
            })
        }),
{
}

/// The task of a stream that was started asks the camera for that stream: from
/// whatever it went through before, a subscription that stands is followed by the
/// start request for the camera's channel, the number taken and the stream asked
/// for.
pub proof fn law_started_stream_is_requested<M, B>(
    camera: BcCamera,
    call: StartCall<B>,
    msg_num: u16,
    events: Seq<TaskEvent<M, B>>,
)
    requires
        camera.started(call, msg_num).task.admits(events),
        camera.started(call, msg_num).task.after(events).phase is Subscribing,
    ensures
        ({
            let task = camera.started(call, msg_num).task.after(events);
            &&& task.accepts(TaskEvent::<M, B>::Subscribed(Ok(())))
            &&& task.next(TaskEvent::<M, B>::Subscribed(Ok(()))).1 == TaskActionView::<M, B>::Send(
                start_message(camera.ids, camera.channel_id, msg_num, call.stream),
            )
        }),
{
    law_task_identity(camera.started(call, msg_num).task, events);
}

/// Stopping a stream asks for the abilities that starting it asks for, and with
/// either takes a number.
pub proof fn law_stop_asks_for_abilities<B>(
    camera: BcCamera,
    stream: StreamKind,
    denial: Error<B>,
    second: Error<B>,
)
    ensures
        ({
            let call = StopCall::<B>::fresh(stream);
            let numbering = StopCall::<B> { stream, step: CallStep::Numbering };
            let (asking, first) = camera.stop_next(call, StopEvent::Begin);
            let (denied, other) = camera.stop_next(asking, StopEvent::Preview(Err(denial)));
            &&& call.accepts(StopEvent::Begin)
            &&& first == (StopActionView::<B>::AskReadWrite { ability: "preview"@ })
            &&& asking.accepts(StopEvent::Preview(Ok(())))
            &&& asking.accepts(StopEvent::Preview(Err(denial)))
            &&& camera.stop_next(asking, StopEvent::Preview(Ok(()))) == (
                numbering,
                StopActionView::<B>::TakeNumber,
            )
            &&& other == (StopActionView::<B>::AskRead { ability: "streamTable"@ })
            &&& denied.accepts(StopEvent::StreamTable(Ok(())))
            &&& denied.accepts(StopEvent::StreamTable(Err(second)))
            &&& camera.stop_next(denied, StopEvent::StreamTable(Ok(()))) == (
                numbering,
                StopActionView::<B>::TakeNumber,
            )
            &&& camera.stop_next(denied, StopEvent::StreamTable(Err(second))).1
                == StopActionView::<B>::Return(Err(denial))
        }),
{
}

/// The request that a stop call sends is the one for the stream of the call, the
/// camera's channel and the number taken, on a subscription to the replies under
/// that number; and the call goes on to wait for the reply.
pub proof fn law_stop_call_sends_its_request<B>(
    camera: BcCamera,
    stream: StreamKind,
    msg_num: u16,
)
    ensures
        ({
            let call = StopCall::<B> { stream, step: CallStep::Numbering };
            let (subscribing, first) = camera.stop_next(call, StopEvent::Numbered(msg_num));
            let (sending, second) = camera.stop_next(subscribing, StopEvent::Subscribed(Ok(())));
            let (awaiting, third) = camera.stop_next(sending, StopEvent::Sent(Ok(())));
            &&& call.accepts(StopEvent::Numbered(msg_num))
            &&& first == (StopActionView::<B>::Subscribe {
                msg_id: camera.ids.video_stop,
                msg_num,
            })
            &&& subscribing == (StopCall::<B> { stream, step: CallStep::Subscribing { msg_num } })
            &&& subscribing.accepts(StopEvent::Subscribed(Ok(())))
            &&& second == StopActionView::<B>::Send(
                stop_message(camera.ids, camera.channel_id, msg_num, stream),
            )
            &&& sending == (StopCall::<B> { stream, step: CallStep::Sending })
            &&& sending.accepts(StopEvent::Sent(Ok(())))
            &&& third is Receive
            &&& awaiting == (StopCall::<B> { stream, step: CallStep::Awaiting })
        }),
{
}

/// A stop call succeeds just when the reply has code 200, whatever else the reply
/// holds; any other reply is reported with its id and code. Whatever fails on the
/// way there is what the call returns.
pub proof fn law_stop_call_returns_the_reply<B>(
    camera: BcCamera,
    call: StopCall<B>,
    msg: Message<B>,
    e: Error<B>,
)
    ensures
        call.step is Awaiting ==> {
            let action = camera.stop_next(call, StopEvent::Replied(Ok(msg))).1;
            &&& call.accepts(StopEvent::Replied(Ok(msg)))
            &&& call.accepts(StopEvent::Replied(Err(e)))
            &&& msg.meta.response_code == 200 ==> action == StopActionView::<B>::Return(Ok(()))
            &&& msg.meta.response_code != 200 ==> action == StopActionView::<B>::Return(
                Err(
                    Error::CameraServiceUnavailable {
                        id: msg.meta.msg_id,
                        code: msg.meta.response_code,
                    },
                ),
            )
            &&& camera.stop_next(call, StopEvent::Replied(Err(e))).1 == StopActionView::<
                B,
            >::Return(Err(e))
        },
        call.step is Sending ==> call.accepts(StopEvent::Sent(Err(e))) && camera.stop_next(
            call,
            StopEvent::Sent(Err(e)),
        ).1 == StopActionView::<B>::Return(Err(e)),
        call.step is Subscribing ==> call.accepts(StopEvent::Subscribed(Err(e)))
            && camera.stop_next(call, StopEvent::Subscribed(Err(e))).1 == StopActionView::<
            B,
        >::Return(Err(e)),
{
}

/// A call keeps what it was asked through every step, and one that returned is
/// over: nothing can happen in it any more.
pub proof fn law_call_keeps_what_was_asked<B>(
    camera: BcCamera,
    start: StartCall<B>,
    started: StartEvent<B>,
    stop: StopCall<B>,
    stopped: StopEvent<B>,
)
    ensures
        ({
            let (after, action) = camera.start_next(start, started);
            &&& after.stream == start.stream
            &&& after.buffer_size == start.buffer_size
            &&& after.strict == start.strict
            &&& action is Return ==> after.step is Done
        }),
        ({
            let (after, action) = camera.stop_next(stop, stopped);
            &&& after.stream == stop.stream
            &&& action is Return ==> after.step is Done
        }),
        start.step is Done ==> !start.accepts(started),
        stop.step is Done ==> !stop.accepts(stopped),
{
}

} // verus!
