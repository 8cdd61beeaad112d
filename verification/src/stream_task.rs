//! The background task of a video stream.
//!
//! The task subscribes to the stream, asks the camera to start it and forwards
//! the packets that come. Whatever ends this, it then runs one bounded attempt
//! to make the camera stop.

use vstd::pervasive::unreached;
use vstd::prelude::*;

use crate::bc::{Bc, BcView, Message, ProtocolIds, RESPONSE_OK};
use crate::error::Error;
use crate::stream::{new_start_message, new_stop_message, start_message, stop_message, StreamKind};

verus! {

/// How long the attempt to stop the camera may take in all, in milliseconds.
pub const STOP_HANDSHAKE_MS: u64 = 2000;

/// What is wrong with a reply that does not accept the start of a stream.
pub const START_NOT_ACCEPTED: &'static str =
    "The camera did not accept the stream start command.";

/// Where the task stands.
#[derive(Debug, Copy, Clone, PartialEq, Eq)]
pub enum TaskPhase {
    /// Nothing has happened yet.
    Fresh,
    /// Subscribing to the stream.
    Subscribing,
    /// Sending the start request.
    Starting,
    /// Waiting for the reply to the start request.
    AwaitingAccept,
    /// Waiting for the next packet.
    Streaming,
    /// Passing a packet on.
    Forwarding,
    /// Subscribing to the replies to the stop request.
    StopSubscribing,
    /// Sending the stop request.
    StopSending,
    /// Waiting for the reply to the stop request.
    StopAwaiting,
    /// Ended.
    Exited,
}

/// The background task of a video stream. `B` is the body of a message.
#[derive(Debug, PartialEq, Eq)]
pub struct StreamTask<B> {
    /// The identifiers of the message layer.
    pub ids: ProtocolIds,
    /// The camera channel.
    pub channel_id: u8,
    /// The number of the task's messages.
    pub msg_num: u16,
    /// The stream.
    pub stream: StreamKind,
    /// Whether an unexpected packet is an error.
    pub strict: bool,
    /// Where the task stands.
    pub phase: TaskPhase,
    /// What the task will return, known from when the stop begins.
    pub outcome: Option<Result<(), Error<B>>>,
}

/// What the task is told.
#[derive(Debug, PartialEq, Eq)]
pub enum TaskEvent<M, B> {
    /// The task begins.
    Begin,
    /// The owner told the task to stop.
    Cancelled,
    /// The attempt to stop the camera ran out of time.
    StopTimedOut,
    /// The subscription stands, or failed.
    Subscribed(Result<(), Error<B>>),
    /// The request was sent, or was not.
    Sent(Result<(), Error<B>>),
    /// A reply came, or none will.
    Replied(Result<Message<B>, Error<B>>),
    /// The next packet; `None` if there are no more.
    Media(Option<M>),
    /// Whether the packet was taken.
    Forwarded {
        /// False if nobody receives packets any more.
        taken: bool,
    },
}

/// What the task asks for.
#[derive(Debug, PartialEq, Eq)]
pub enum TaskAction<M, B> {
    /// Subscribe to the messages with this id and number.
    Subscribe {
        /// The message id.
        msg_id: u32,
        /// The message number.
        msg_num: u16,
    },
    /// The stream is over. From here on the task may wait for so long in all;
    /// first, subscribe to the messages with this id and number.
    Stop {
        /// The message id.
        msg_id: u32,
        /// The message number.
        msg_num: u16,
        /// The longest wait, in milliseconds.
        limit_ms: u64,
    },
    /// Send this request.
    Send(Bc),
    /// Wait for a reply.
    Receive,
    /// Wait for the next packet.
    NextMedia {
        /// Whether an unexpected packet is an error.
        strict: bool,
    },
    /// Pass this packet on.
    Forward(M),
    /// The task is over.
    Return(Result<(), Error<B>>),
}

/// What a [`TaskAction`] says.
pub enum TaskActionView<M, B> {
    Subscribe { msg_id: u32, msg_num: u16 },
    Stop { msg_id: u32, msg_num: u16, limit_ms: u64 },
    Send(BcView),
    Receive,
    NextMedia { strict: bool },
    Forward(M),
    Return(Result<(), Error<B>>),
}

impl<M, B> View for TaskAction<M, B> {
    type V = TaskActionView<M, B>;

    open spec fn view(&self) -> TaskActionView<M, B> {
        match *self {
            TaskAction::Subscribe { msg_id, msg_num } => TaskActionView::Subscribe {
                msg_id,
                msg_num,
            },
            TaskAction::Stop { msg_id, msg_num, limit_ms } => TaskActionView::Stop {
                msg_id,
                msg_num,
                limit_ms,
            },
            TaskAction::Send(bc) => TaskActionView::Send(bc@),
            TaskAction::Receive => TaskActionView::Receive,
            TaskAction::NextMedia { strict } => TaskActionView::NextMedia { strict },
            TaskAction::Forward(m) => TaskActionView::Forward(m),
            TaskAction::Return(r) => TaskActionView::Return(r),
        }
    }
}

impl TaskPhase {
    /// Whether the task is on its way to, or in, the stream itself.
    pub open spec fn is_guarded(self) -> bool {
        self is Fresh || self is Subscribing || self is Starting || self is AwaitingAccept
            || self is Streaming || self is Forwarding
    }

    /// Whether the task tries to stop the camera.
    pub open spec fn is_stopping(self) -> bool {
        self is StopSubscribing || self is StopSending || self is StopAwaiting
    }
}

impl<B> StreamTask<B> {
    /// The task knows its outcome while, and only while, it tries to stop the camera.
    pub open spec fn wf(self) -> bool {
        self.outcome is Some <==> self.phase.is_stopping()
    }

    /// Whether `event` can happen now.
    ///
    /// The owner can tell the task to stop at every wait of the stream itself,
    /// and the attempt to stop the camera can run out of time at each of its waits.
    pub open spec fn accepts<M>(self, event: TaskEvent<M, B>) -> bool {
        match event {
            TaskEvent::Begin => self.phase is Fresh,
            TaskEvent::Cancelled => self.phase.is_guarded(),
            TaskEvent::StopTimedOut => self.phase.is_stopping(),
            TaskEvent::Subscribed(_) => self.phase is Subscribing || self.phase is StopSubscribing,
            TaskEvent::Sent(_) => self.phase is Starting || self.phase is StopSending,
            TaskEvent::Replied(_) => self.phase is AwaitingAccept || self.phase is StopAwaiting,
            TaskEvent::Media(_) => self.phase is Streaming,
            TaskEvent::Forwarded { .. } => self.phase is Forwarding,
        }
    }

    /// The task goes on in `phase`, asking for `action`.
    pub open spec fn goes_on<M>(self, phase: TaskPhase, action: TaskActionView<M, B>) -> (
        StreamTask<B>,
        TaskActionView<M, B>,
    ) {
        (StreamTask { phase, ..self }, action)
    }

    /// What the task asks for first to stop the camera.
    pub open spec fn stop_action<M>(self) -> TaskActionView<M, B> {
        TaskActionView::Stop {
            msg_id: self.ids.video_stop,
            msg_num: self.msg_num,
            limit_ms: STOP_HANDSHAKE_MS,
        }
    }

    /// The stream is over with `outcome`: the task starts to stop the camera.
    pub open spec fn winds_down<M>(self, outcome: Result<(), Error<B>>) -> (
        StreamTask<B>,
        TaskActionView<M, B>,
    ) {
        (
            StreamTask { phase: TaskPhase::StopSubscribing, outcome: Some(outcome), ..self },
            self.stop_action(),
        )
    }

    /// The attempt to stop the camera is over: the task returns its outcome.
    pub open spec fn exits<M>(self) -> (StreamTask<B>, TaskActionView<M, B>) {
        (
            StreamTask { phase: TaskPhase::Exited, outcome: None, ..self },
            TaskActionView::Return(self.outcome->0),
        )
    }

    /// A step failed with `e`. In the stream itself `e` becomes the outcome; in
    /// the attempt to stop the camera it is ignored.
    pub open spec fn fails<M>(self, e: Error<B>) -> (StreamTask<B>, TaskActionView<M, B>) {
        if self.phase.is_guarded() {
            self.winds_down(Err(e))
        } else {
            self.exits()
        }
    }

    /// The task after `event`, and what it asks for.
    pub open spec fn next<M>(self, event: TaskEvent<M, B>) -> (
        StreamTask<B>,
        TaskActionView<M, B>,
    ) {
        match event {
            TaskEvent::Begin => self.goes_on(
                TaskPhase::Subscribing,
                TaskActionView::Subscribe { msg_id: self.ids.video, msg_num: self.msg_num },
            ),
            TaskEvent::Cancelled => self.winds_down(Ok(())),
            TaskEvent::StopTimedOut => self.exits(),
            TaskEvent::Subscribed(Err(e)) => self.fails(e),
            TaskEvent::Subscribed(Ok(_)) => if self.phase is Subscribing {
                self.goes_on(
                    TaskPhase::Starting,
                    TaskActionView::Send(
                        start_message(self.ids, self.channel_id, self.msg_num, self.stream),
                    ),
                )
            } else {
                self.goes_on(
                    TaskPhase::StopSending,
                    TaskActionView::Send(
                        stop_message(self.ids, self.channel_id, self.msg_num, self.stream),
                    ),
                )
            },
            TaskEvent::Sent(Err(e)) => self.fails(e),
            TaskEvent::Sent(Ok(_)) => self.goes_on(
                if self.phase is Starting {
                    TaskPhase::AwaitingAccept
                } else {
                    TaskPhase::StopAwaiting
                },
                TaskActionView::Receive,
            ),
            TaskEvent::Replied(Err(e)) => self.fails(e),
            TaskEvent::Replied(Ok(msg)) => if self.phase is AwaitingAccept {
                if msg.meta.response_code == RESPONSE_OK {
                    self.goes_on(
                        TaskPhase::Streaming,
                        TaskActionView::NextMedia { strict: self.strict },
                    )
                } else {
                    self.fails(Error::UnintelligibleReply { reply: msg, why: START_NOT_ACCEPTED })
                }
            } else if msg.meta.msg_id == self.ids.video_stop {
                self.exits()
            } else {
                self.goes_on(TaskPhase::StopAwaiting, TaskActionView::Receive)
            },
            TaskEvent::Media(Some(m)) => self.goes_on(
                TaskPhase::Forwarding,
                TaskActionView::Forward(m),
            ),
            TaskEvent::Media(None) => self.winds_down(Ok(())),
            TaskEvent::Forwarded { taken } => if taken {
                self.goes_on(
                    TaskPhase::Streaming,
                    TaskActionView::NextMedia { strict: self.strict },
                )
            } else {
                self.winds_down(Ok(()))
            },
        }
    }

    /// A task that is about to begin.
    pub open spec fn fresh(
        ids: ProtocolIds,
        channel_id: u8,
        msg_num: u16,
        stream: StreamKind,
        strict: bool,
    ) -> StreamTask<B> {
        StreamTask {
            ids,
            channel_id,
            msg_num,
            stream,
            strict,
            phase: TaskPhase::Fresh,
            outcome: None,
        }
    }

    /// Creates a task.
    pub fn new(
        ids: ProtocolIds,
        channel_id: u8,
        msg_num: u16,
        stream: StreamKind,
        strict: bool,
    ) -> (r: StreamTask<B>)
        ensures
            r.wf(),
            r == StreamTask::<B>::fresh(ids, channel_id, msg_num, stream, strict),
    {
        StreamTask {
            ids,
            channel_id,
            msg_num,
            stream,
            strict,
            phase: TaskPhase::Fresh,
            outcome: None,
        }
    }

    fn wind_down<M>(&mut self, outcome: Result<(), Error<B>>) -> (action: TaskAction<M, B>)
        ensures
            (*final(self), action@) == old(self).winds_down::<M>(outcome),
    {
        self.phase = TaskPhase::StopSubscribing;
        self.outcome = Some(outcome);
        TaskAction::Stop {
            msg_id: self.ids.video_stop,
            msg_num: self.msg_num,
            limit_ms: STOP_HANDSHAKE_MS,
        }
    }

    fn exit<M>(&mut self) -> (action: TaskAction<M, B>)
        requires
            old(self).outcome is Some,
        ensures
            (*final(self), action@) == old(self).exits::<M>(),
    {
        self.phase = TaskPhase::Exited;
        match self.outcome.take() {
            Some(outcome) => TaskAction::Return(outcome),
            None => unreached(),
        }
    }

    fn fail<M>(&mut self, e: Error<B>) -> (action: TaskAction<M, B>)
        requires
            old(self).wf(),
            old(self).phase !is Exited,
        ensures
            (*final(self), action@) == old(self).fails::<M>(e),
    {
        match self.phase {
            TaskPhase::StopSubscribing | TaskPhase::StopSending | TaskPhase::StopAwaiting => {
                self.exit()
            },
            _ => self.wind_down(Err(e)),
        }
    }

    /// One step of the task.
    pub fn advance<M>(&mut self, event: TaskEvent<M, B>) -> (action: TaskAction<M, B>)
        requires
            old(self).wf(),
            old(self).accepts(event),
        ensures
            final(self).wf(),
            (*final(self), action@) == old(self).next(event),
    {
        match event {
            TaskEvent::Begin => {
                self.phase = TaskPhase::Subscribing;
                TaskAction::Subscribe { msg_id: self.ids.video, msg_num: self.msg_num }
            },
            TaskEvent::Cancelled => self.wind_down(Ok(())),
            TaskEvent::StopTimedOut => self.exit(),
            TaskEvent::Subscribed(result) => match result {
                Err(e) => self.fail(e),
                Ok(_) => match self.phase {
                    TaskPhase::Subscribing => {
                        self.phase = TaskPhase::Starting;
                        TaskAction::Send(
                            new_start_message(&self.ids, self.channel_id, self.msg_num, self.stream),
                        )
                    },
                    _ => {
                        self.phase = TaskPhase::StopSending;
                        TaskAction::Send(
                            new_stop_message(&self.ids, self.channel_id, self.msg_num, self.stream),
                        )
                    },
                },
            },
            TaskEvent::Sent(result) => match result {
                Err(e) => self.fail(e),
                Ok(_) => {
                    self.phase = match self.phase {
                        TaskPhase::Starting => TaskPhase::AwaitingAccept,
                        _ => TaskPhase::StopAwaiting,
                    };
                    TaskAction::Receive
                },
            },
            TaskEvent::Replied(result) => match result {
                Err(e) => self.fail(e),
                Ok(msg) => match self.phase {
                    TaskPhase::AwaitingAccept => if msg.meta.response_code == RESPONSE_OK {
                        self.phase = TaskPhase::Streaming;
                        TaskAction::NextMedia { strict: self.strict }
                    } else {
                        self.fail(
                            Error::UnintelligibleReply { reply: msg, why: START_NOT_ACCEPTED },
                        )
                    },
                    _ => if msg.meta.msg_id == self.ids.video_stop {
                        self.exit()
                    } else {
                        TaskAction::Receive
                    },
                },
            },
            TaskEvent::Media(media) => match media {
                Some(m) => {
                    self.phase = TaskPhase::Forwarding;
                    TaskAction::Forward(m)
                },
                None => self.wind_down(Ok(())),
            },
            TaskEvent::Forwarded { taken } => if taken {
                self.phase = TaskPhase::Streaming;
                TaskAction::NextMedia { strict: self.strict }
            } else {
                self.wind_down(Ok(()))
            },
        }
    }
}

impl<B> StreamTask<B> {
    /// The task after `events`.
    pub open spec fn after<M>(self, events: Seq<TaskEvent<M, B>>) -> StreamTask<B>
        decreases events.len(),
    {
        if events.len() == 0 {
            self
        } else {
            self.after(events.drop_last()).next(events.last()).0
        }
    }

    /// Whether each of `events` can happen when its turn comes.
    pub open spec fn admits<M>(self, events: Seq<TaskEvent<M, B>>) -> bool
        decreases events.len(),
    {
        events.len() == 0 || (self.admits(events.drop_last()) && self.after(
            events.drop_last(),
        ).accepts(events.last()))
    }

    /// What the task asks for after event `i` of `events`.
    pub open spec fn action_at<M>(self, events: Seq<TaskEvent<M, B>>, i: int) -> TaskActionView<
        M,
        B,
    > {
        self.after(events.take(i)).next(events[i]).1
    }

    /// Whether event `i` of `events` ends the stream itself with `outcome`.
    pub open spec fn ends_at<M>(
        self,
        events: Seq<TaskEvent<M, B>>,
        i: int,
        outcome: Result<(), Error<B>>,
    ) -> bool {
        let before = self.after(events.take(i));
        before.phase.is_guarded() && before.next(events[i]) == before.winds_down::<M>(outcome)
    }

    /// The packets that the task passed on in the course of `events`.
    pub open spec fn forwarded<M>(self, events: Seq<TaskEvent<M, B>>) -> Seq<M>
        decreases events.len(),
    {
        if events.len() == 0 {
            Seq::empty()
        } else {
            let earlier = self.forwarded(events.drop_last());
            match self.after(events.drop_last()).next(events.last()).1 {
                TaskActionView::Forward(m) => earlier.push(m),
                _ => earlier,
            }
        }
    }
}

/// The packets that came from the camera in the course of `events`.
pub open spec fn packets<M, B>(events: Seq<TaskEvent<M, B>>) -> Seq<M>
    decreases events.len(),
{
    if events.len() == 0 {
        Seq::empty()
    } else {
        match events.last() {
            TaskEvent::Media(Some(m)) => packets(events.drop_last()).push(m),
            _ => packets(events.drop_last()),
        }
    }
}

/// A task keeps its number, channel, stream and settings through every step.
pub proof fn law_task_identity<M, B>(task: StreamTask<B>, events: Seq<TaskEvent<M, B>>)
    ensures
        task.after(events).ids == task.ids,
        task.after(events).channel_id == task.channel_id,
        task.after(events).msg_num == task.msg_num,
        task.after(events).stream == task.stream,
        task.after(events).strict == task.strict,
    decreases events.len(),
{
    if events.len() > 0 {
        law_task_identity(task, events.drop_last());
    }
}

/// An order to stop is honoured at every wait of the stream itself: the task
/// goes straight to stopping the camera, and will return without an error.
pub proof fn law_cancellation_honoured<M, B>(task: StreamTask<B>)
    requires
        task.wf(),
        task.phase.is_guarded(),
    ensures
        task.accepts(TaskEvent::<M, B>::Cancelled),
        task.next(TaskEvent::<M, B>::Cancelled).0.phase is StopSubscribing,
        task.next(TaskEvent::<M, B>::Cancelled).0.outcome == Some(Ok::<(), Error<B>>(())),
        task.next(TaskEvent::<M, B>::Cancelled).1 == task.stop_action::<M>(),
{
}

/// Running out of time ends the attempt to stop the camera at each of its
/// waits, and the task returns what the stream itself came to.
pub proof fn law_stop_is_bounded<M, B>(task: StreamTask<B>)
    requires
        task.wf(),
        task.phase.is_stopping(),
    ensures
        task.accepts(TaskEvent::<M, B>::StopTimedOut),
        task.next(TaskEvent::<M, B>::StopTimedOut).0.phase is Exited,
        task.next(TaskEvent::<M, B>::StopTimedOut).1 == TaskActionView::<M, B>::Return(
            task.outcome->0,
        ),
{
}

/// A task that stops the camera never goes back to the stream: it goes on
/// stopping, with the same outcome, or returns that outcome.
pub proof fn law_stop_is_never_undone<M, B>(task: StreamTask<B>, event: TaskEvent<M, B>)
    requires
        task.wf(),
        task.phase.is_stopping(),
        task.accepts(event),
    ensures
        ({
            let (after, action) = task.next(event);
            if after.phase.is_stopping() {
                after.outcome == task.outcome && action !is Forward && action !is Return
            } else {
                after.phase is Exited && action == TaskActionView::<M, B>::Return(task.outcome->0)
            }
        }),
{
}

/// A subscription that stands while the camera is being stopped is followed by
/// the stop request for the task's own stream.
pub proof fn law_stop_request_sent<M, B>(task: StreamTask<B>)
    requires
        task.wf(),
        task.phase is StopSubscribing,
    ensures
        task.next(TaskEvent::<M, B>::Subscribed(Ok(()))).1 == TaskActionView::<M, B>::Send(
            stop_message(task.ids, task.channel_id, task.msg_num, task.stream),
        ),
{
}

proof fn lemma_course<M, B>(task: StreamTask<B>, events: Seq<TaskEvent<M, B>>) -> (r: (
    int,
    Result<(), Error<B>>,
))
    requires
        task.wf(),
        task.phase.is_guarded(),
        task.admits(events),
    ensures
        task.after(events).wf(),
        !task.after(events).phase.is_guarded() ==> {
            &&& 0 <= r.0 < events.len()
            &&& task.ends_at(events, r.0, r.1)
            &&& task.after(events).phase.is_stopping() ==> task.after(events).outcome == Some(r.1)
            &&& task.after(events).phase is Exited ==> r.0 + 1 < events.len() && task.action_at(
                events,
                events.len() - 1,
            ) == TaskActionView::<M, B>::Return(r.1)
        },
    decreases events.len(),
{
    if events.len() == 0 {
        (0, Ok(()))
    } else {
        let earlier = events.drop_last();
        let last = events.last();
        let (i, outcome) = lemma_course(task, earlier);
        let before = task.after(earlier);
        assert(events.take(events.len() - 1) =~= earlier);
        if before.phase.is_guarded() {
            let after = before.next(last).0;
            if after.phase.is_guarded() {
                (0, Ok(()))
            } else {
                assert(before.next(last) == before.winds_down::<M>(after.outcome->0));
                (events.len() - 1, after.outcome->0)
            }
        } else {
            assert(events.take(i) =~= earlier.take(i));
            assert(events[i] == earlier[i]);
            (i, outcome)
        }
    }
}

/// However the task ends, it has tried to stop the camera: some event ended the
/// stream itself, upon which the task subscribed to the replies to a stop
/// request. What the stream came to then is what the task returns in the end.
pub proof fn law_exit_follows_stop<M, B>(task: StreamTask<B>, events: Seq<TaskEvent<M, B>>)
    requires
        task.wf(),
        task.phase.is_guarded(),
        task.admits(events),
        task.after(events).phase is Exited,
    ensures
        exists|i: int, outcome: Result<(), Error<B>>|
            0 <= i < events.len() - 1 && #[trigger] task.ends_at(events, i, outcome)
                && task.action_at(events, i) == task.stop_action::<M>() && task.action_at(
                events,
                events.len() - 1,
            ) == TaskActionView::<M, B>::Return(outcome),
{
    let (i, outcome) = lemma_course(task, events);
    law_task_identity(task, events.take(i));
    assert(task.ends_at(events, i, outcome));
}

/// The packets passed on are those that came from the camera, all of them, in
/// the order in which they came.
pub proof fn law_packets_forwarded_in_order<M, B>(task: StreamTask<B>, events: Seq<TaskEvent<M, B>>)
    requires
        task.admits(events),
    ensures
        task.forwarded(events) == packets(events),
    decreases events.len(),
{
    if events.len() > 0 {
        law_packets_forwarded_in_order(task, events.drop_last());
    }
}

/// A task begins with what it was given, and with nothing done.
pub proof fn law_task_begins_as_given<B>(
    ids: ProtocolIds,
    channel_id: u8,
    msg_num: u16,
    stream: StreamKind,
    strict: bool,
)
    ensures
        ({
            let task = StreamTask::<B>::fresh(ids, channel_id, msg_num, stream, strict);
            &&& task.ids == ids
            &&& task.channel_id == channel_id
            &&& task.msg_num == msg_num
            &&& task.stream == stream
            &&& task.strict == strict
            &&& task.phase is Fresh
            &&& task.outcome is None
        }),
{
}

/// What a task asks for is told in full.
pub proof fn law_task_action_says_all<M, B>(
    m: M,
    bc: Bc,
    msg_id: u32,
    msg_num: u16,
    limit_ms: u64,
    strict: bool,
    result: Result<(), Error<B>>,
)
    ensures
        (TaskAction::<M, B>::Subscribe { msg_id, msg_num })@ == (TaskActionView::<M, B>::Subscribe {
            msg_id,
            msg_num,
        }),
        (TaskAction::<M, B>::Stop { msg_id, msg_num, limit_ms })@ == (TaskActionView::<M, B>::Stop {
            msg_id,
            msg_num,
            limit_ms,
        }),
        TaskAction::<M, B>::Send(bc)@ == TaskActionView::<M, B>::Send(bc@),
        TaskAction::<M, B>::Receive@ is Receive,
        (TaskAction::<M, B>::NextMedia { strict })@ == (TaskActionView::<M, B>::NextMedia { strict }),
        TaskAction::<M, B>::Forward(m)@ == TaskActionView::<M, B>::Forward(m),
        TaskAction::<M, B>::Return(result)@ == TaskActionView::<M, B>::Return(result),
{
}

/// A task that begins subscribes to the stream under its own number, and a
/// subscription that stands is followed by the start request of the task's own
/// stream, and that by a wait for the reply.
pub proof fn law_start_request_sent<M, B>(task: StreamTask<B>)
    requires
        task.phase is Fresh,
    ensures
        ({
            let (subscribing, first) = task.next(TaskEvent::<M, B>::Begin);
            let (starting, second) = subscribing.next(TaskEvent::<M, B>::Subscribed(Ok(())));
            let (awaiting, third) = starting.next(TaskEvent::<M, B>::Sent(Ok(())));
            &&& task.accepts(TaskEvent::<M, B>::Begin)
            &&& first == (TaskActionView::<M, B>::Subscribe {
                msg_id: task.ids.video,
                msg_num: task.msg_num,
            })
            &&& subscribing == (StreamTask { phase: TaskPhase::Subscribing, ..task })
            &&& subscribing.accepts(TaskEvent::<M, B>::Subscribed(Ok(())))
            &&& second == TaskActionView::<M, B>::Send(
                start_message(task.ids, task.channel_id, task.msg_num, task.stream),
            )
            &&& starting == (StreamTask { phase: TaskPhase::Starting, ..task })
            &&& starting.accepts(TaskEvent::<M, B>::Sent(Ok(())))
            &&& third is Receive
            &&& awaiting == (StreamTask { phase: TaskPhase::AwaitingAccept, ..task })
        }),
{
}

/// The stream runs just when the reply to the start request accepts it, with
/// code 200, whatever else the reply holds. Any other reply ends it, and is
/// itself the error that the task will return.
pub proof fn law_stream_runs_when_accepted<M, B>(task: StreamTask<B>, msg: Message<B>)
    requires
        task.phase is AwaitingAccept,
    ensures
        ({
            let (after, action) = task.next(TaskEvent::<M, B>::Replied(Ok(msg)));
            &&& task.accepts(TaskEvent::<M, B>::Replied(Ok(msg)))
            &&& msg.meta.response_code == 200 ==> {
                &&& after == (StreamTask { phase: TaskPhase::Streaming, ..task })
                &&& action == (TaskActionView::<M, B>::NextMedia { strict: task.strict })
            }
            &&& msg.meta.response_code != 200 ==> {
                &&& after.phase is StopSubscribing
                &&& after.outcome matches Some(Err(Error::UnintelligibleReply { reply, why }))
                &&& reply == msg
                &&& why@ == "The camera did not accept the stream start command."@
                &&& action == (TaskActionView::<M, B>::Stop {
                    msg_id: task.ids.video_stop,
                    msg_num: task.msg_num,
                    limit_ms: 2000,
                })
            }
        }),
{
}

/// A packet that comes is passed on as it is; once it is taken the next one is
/// awaited. When no more come, or nobody takes them, the stream ends without an
/// error and the camera is to be stopped.
pub proof fn law_packet_is_passed_on<M, B>(task: StreamTask<B>, m: M)
    requires
        task.phase is Streaming,
    ensures
        ({
            let (forwarding, first) = task.next(TaskEvent::<M, B>::Media(Some(m)));
            let stopping = StreamTask {
                phase: TaskPhase::StopSubscribing,
                outcome: Some(Ok(())),
                ..task
            };
            let stop = TaskActionView::<M, B>::Stop {
                msg_id: task.ids.video_stop,
                msg_num: task.msg_num,
                limit_ms: 2000,
            };
            &&& task.accepts(TaskEvent::Media(Some(m)))
            &&& task.accepts(TaskEvent::<M, B>::Media(None))
            &&& first == TaskActionView::<M, B>::Forward(m)
            &&& forwarding == (StreamTask { phase: TaskPhase::Forwarding, ..task })
            &&& forwarding.accepts(TaskEvent::<M, B>::Forwarded { taken: true })
            &&& forwarding.accepts(TaskEvent::<M, B>::Forwarded { taken: false })
            &&& forwarding.next(TaskEvent::<M, B>::Forwarded { taken: true }) == (
                task,
                TaskActionView::<M, B>::NextMedia { strict: task.strict },
            )
            &&& forwarding.next(TaskEvent::<M, B>::Forwarded { taken: false }) == (stopping, stop)
            &&& task.next(TaskEvent::<M, B>::Media(None)) == (stopping, stop)
        }),
{
}

/// Whatever fails on the way to the stream is what the task will return, and the
/// camera is to be stopped all the same.
pub proof fn law_failed_start_is_the_outcome<M, B>(task: StreamTask<B>, e: Error<B>)
    requires
        task.phase is Subscribing || task.phase is Starting || task.phase is AwaitingAccept,
    ensures
        ({
            let event = if task.phase is Subscribing {
                TaskEvent::<M, B>::Subscribed(Err(e))
            } else if task.phase is Starting {
                TaskEvent::<M, B>::Sent(Err(e))
            } else {
                TaskEvent::<M, B>::Replied(Err(e))
            };
            &&& task.accepts(event)
            &&& task.next(event) == (
                StreamTask {
                    phase: TaskPhase::StopSubscribing,
                    outcome: Some(Err(e)),
                    ..task
                },
                TaskActionView::<M, B>::Stop {
                    msg_id: task.ids.video_stop,
                    msg_num: task.msg_num,
                    limit_ms: 2000,
                },
            )
        }),
{
}

/// An order to stop can come at any time before the camera is being stopped, and
/// always has the same effect: the stream ends without an error, and the camera is
/// to be stopped within two seconds.
pub proof fn law_cancelled_anywhere_stops<M, B>(task: StreamTask<B>)
    requires
        task.phase !is StopSubscribing,
        task.phase !is StopSending,
        task.phase !is StopAwaiting,
        task.phase !is Exited,
    ensures
        task.accepts(TaskEvent::<M, B>::Cancelled),
        task.next(TaskEvent::<M, B>::Cancelled) == (
            StreamTask { phase: TaskPhase::StopSubscribing, outcome: Some(Ok(())), ..task },
            TaskActionView::<M, B>::Stop {
                msg_id: task.ids.video_stop,
                msg_num: task.msg_num,
                limit_ms: 2000,
            },
        ),
{
}

/// Stopping the camera sends the stop request of the task's own stream and waits
/// for a reply to it: any reply with another message id is passed over, and one
/// with that id ends the task, whatever its code.
pub proof fn law_stop_waits_for_its_reply<M, B>(task: StreamTask<B>, msg: Message<B>)
    requires
        task.phase is StopSubscribing,
        task.outcome is Some,
    ensures
        ({
            let (sending, first) = task.next(TaskEvent::<M, B>::Subscribed(Ok(())));
            let (awaiting, second) = sending.next(TaskEvent::<M, B>::Sent(Ok(())));
            let (after, third) = awaiting.next(TaskEvent::<M, B>::Replied(Ok(msg)));
            &&& task.accepts(TaskEvent::<M, B>::Subscribed(Ok(())))
            &&& first == TaskActionView::<M, B>::Send(
                stop_message(task.ids, task.channel_id, task.msg_num, task.stream),
            )
            &&& sending == (StreamTask { phase: TaskPhase::StopSending, ..task })
            &&& sending.accepts(TaskEvent::<M, B>::Sent(Ok(())))
            &&& second is Receive
            &&& awaiting == (StreamTask { phase: TaskPhase::StopAwaiting, ..task })
            &&& awaiting.accepts(TaskEvent::<M, B>::Replied(Ok(msg)))
            &&& msg.meta.msg_id != task.ids.video_stop ==> after == awaiting && third is Receive
            &&& msg.meta.msg_id == task.ids.video_stop ==> after.phase is Exited && third
                == TaskActionView::<M, B>::Return(task.outcome->0)
        }),
{
}

/// Whatever fails while the camera is being stopped, and running out of time at
/// any of the three waits, ends the task with what the stream itself came to.
pub proof fn law_failed_stop_keeps_the_outcome<M, B>(task: StreamTask<B>, e: Error<B>)
    requires
        task.phase is StopSubscribing || task.phase is StopSending || task.phase is StopAwaiting,
        task.outcome is Some,
    ensures
        ({
            let event = if task.phase is StopSubscribing {
                TaskEvent::<M, B>::Subscribed(Err(e))
            } else if task.phase is StopSending {
                TaskEvent::<M, B>::Sent(Err(e))
            } else {
                TaskEvent::<M, B>::Replied(Err(e))
            };
            let over = (
                StreamTask { phase: TaskPhase::Exited, outcome: None, ..task },
                TaskActionView::<M, B>::Return(task.outcome->0),
            );
            &&& task.accepts(event)
            &&& task.accepts(TaskEvent::<M, B>::StopTimedOut)
            &&& task.next(event) == over
            &&& task.next(TaskEvent::<M, B>::StopTimedOut) == over
        }),
{
}

} // verus!
