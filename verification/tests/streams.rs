use neolink::bc::{Bc, BcMeta, Message, Preview, ProtocolIds};
use neolink::camera::{BcCamera, CallStep, StartAction, StartEvent, StopAction, StopEvent};
use neolink::stream::{
    new_start_message, new_stop_message, PullAction, PullEvent, ShutdownAction, StreamData,
    StreamKind, TaskHandle,
};
use neolink::stream_task::{TaskAction, TaskEvent, TaskPhase, START_NOT_ACCEPTED};

type Body = &'static str;
type Error = neolink::error::Error<Body>;
type ShutdownEvent = neolink::stream::ShutdownEvent<Body>;
type StreamTask = neolink::stream_task::StreamTask<Body>;
type StartCall = neolink::camera::StartCall<Body>;
type StopCall = neolink::camera::StopCall<Body>;

fn ids() -> ProtocolIds {
    ProtocolIds { video: 30, video_stop: 40, xml_version: "v7".to_string() }
}

fn other(detail: &str) -> Error {
    Error::Other { detail: detail.to_string() }
}

fn reply(msg_id: u32, response_code: u16) -> Message<Body> {
    Message {
        meta: BcMeta { msg_id, channel_id: 2, msg_num: 9, stream_type: 0, response_code, class: 0 },
        body: "body",
    }
}

fn stop_request() -> Bc {
    Bc {
        meta: BcMeta {
            msg_id: 40,
            channel_id: 2,
            msg_num: 9,
            stream_type: 1,
            response_code: 0,
            class: 0x6414,
        },
        preview: Preview { version: "v7".to_string(), channel_id: 2, handle: 256, stream_type: None },
    }
}

fn start_request() -> Bc {
    Bc {
        meta: BcMeta {
            msg_id: 30,
            channel_id: 2,
            msg_num: 9,
            stream_type: 1,
            response_code: 0,
            class: 0x6414,
        },
        preview: Preview {
            version: "v7".to_string(),
            channel_id: 2,
            handle: 256,
            stream_type: Some("subStream".to_string()),
        },
    }
}

fn task() -> StreamTask {
    StreamTask::new(ids(), 2, 9, StreamKind::Sub, true)
}

#[test]
fn stream_kinds_have_names_codes_and_handles() {
    let table = [
        (StreamKind::Main, "mainStream", 0, 0),
        (StreamKind::Sub, "subStream", 1, 256),
        (StreamKind::Extern, "externStream", 0, 1024),
    ];
    for (kind, name, code, handle) in table {
        assert_eq!(kind.to_string(), name);
        assert_eq!(kind.stream_code(), code);
        assert_eq!(kind.stream_handle(), handle);
    }
}

#[test]
fn start_and_stop_requests() {
    assert_eq!(new_start_message(&ids(), 2, 9, StreamKind::Sub), start_request());
    assert_eq!(new_stop_message(&ids(), 2, 9, StreamKind::Sub), stop_request());
    let extern_start = new_start_message(&ids(), 1, 5, StreamKind::Extern);
    assert_eq!(extern_start.meta.stream_type, 0);
    assert_eq!(extern_start.preview.handle, 1024);
    assert_eq!(extern_start.preview.stream_type, Some("externStream".to_string()));
}

#[test]
fn pull_yields_a_packet() {
    let mut data = StreamData::from_parts("replay".to_string());
    assert_eq!(data.get_data::<u8, Body>(PullEvent::Begin { finished: false }), PullAction::Receive);
    assert_eq!(data.get_data::<u8, Body>(PullEvent::Received(Some(7u8))), PullAction::Return(Ok(7)));
    assert!(!data.cancelled);
    assert_eq!(data.handle, TaskHandle::Held);
    assert_eq!(data.label, "replay");
}

#[test]
fn pull_from_a_dead_sender_finishes() {
    let mut data = StreamData::from_parts("x".to_string());
    assert_eq!(data.get_data::<u8, Body>(PullEvent::Begin { finished: false }), PullAction::Receive);
    assert_eq!(
        data.get_data::<u8, Body>(PullEvent::Received(None)),
        PullAction::Return(Err(Error::StreamFinished))
    );
    assert!(data.cancelled);
}

#[test]
fn pull_from_a_finished_task() {
    let mut data = StreamData::from_parts("x".to_string());
    assert_eq!(data.get_data::<u8, Body>(PullEvent::Begin { finished: true }), PullAction::AwaitTask);
    assert!(data.cancelled);
    assert_eq!(
        data.get_data::<u8, Body>(PullEvent::Joined(Ok(()))),
        PullAction::Return(Err(Error::StreamFinished))
    );
    assert_eq!(data.handle, TaskHandle::Joined);

    let mut failed = StreamData::from_parts("x".to_string());
    assert_eq!(failed.get_data::<u8, Body>(PullEvent::Begin { finished: true }), PullAction::AwaitTask);
    assert_eq!(
        failed.get_data::<u8, Body>(PullEvent::Joined(Err(other("lost")))),
        PullAction::Return(Err(other("lost")))
    );
}

#[test]
fn shutdown_waits_and_is_final() {
    let mut data = StreamData::from_parts("x".to_string());
    assert_eq!(data.shutdown(ShutdownEvent::Begin), ShutdownAction::AwaitTask { limit_ms: 3000 });
    assert!(data.cancelled);
    assert_eq!(
        data.shutdown(ShutdownEvent::Joined(Ok(Err(other("ignored"))))),
        ShutdownAction::Return(Ok(()))
    );
    assert_eq!(data.shutdown(ShutdownEvent::Begin), ShutdownAction::Return(Ok(())));
    assert_eq!(
        data.get_data::<u8, Body>(PullEvent::Begin { finished: false }),
        PullAction::Return(Err(Error::StreamFinished))
    );
}

#[test]
fn shutdown_reports_a_lost_task_only() {
    let mut data = StreamData::from_parts("x".to_string());
    data.shutdown(ShutdownEvent::Begin);
    assert_eq!(
        data.shutdown(ShutdownEvent::Joined(Err(other("panicked")))),
        ShutdownAction::Return(Err(other("panicked")))
    );
    let mut slow = StreamData::from_parts("x".to_string());
    slow.shutdown(ShutdownEvent::Begin);
    assert_eq!(slow.shutdown(ShutdownEvent::TimedOut), ShutdownAction::Return(Ok(())));
}

#[test]
fn detached_stream_is_cancelled() {
    let mut data = StreamData::from_parts("x".to_string());
    data.detach();
    assert!(data.cancelled);
    assert_eq!(data.handle, TaskHandle::Taken);
}

#[test]
fn task_streams_and_stops() {
    let mut t = task();
    assert_eq!(
        t.advance::<u8>(TaskEvent::Begin),
        TaskAction::Subscribe { msg_id: 30, msg_num: 9 }
    );
    assert_eq!(t.advance::<u8>(TaskEvent::Subscribed(Ok(()))), TaskAction::Send(start_request()));
    assert_eq!(t.advance::<u8>(TaskEvent::Sent(Ok(()))), TaskAction::Receive);
    assert_eq!(
        t.advance::<u8>(TaskEvent::Replied(Ok(reply(30, 200)))),
        TaskAction::NextMedia { strict: true }
    );
    for packet in [1u8, 2, 3] {
        assert_eq!(t.advance(TaskEvent::Media(Some(packet))), TaskAction::Forward(packet));
        assert_eq!(
            t.advance::<u8>(TaskEvent::Forwarded { taken: true }),
            TaskAction::NextMedia { strict: true }
        );
    }
    assert_eq!(
        t.advance::<u8>(TaskEvent::Media(None)),
        TaskAction::Stop { msg_id: 40, msg_num: 9, limit_ms: 2000 }
    );
    assert_eq!(t.advance::<u8>(TaskEvent::Subscribed(Ok(()))), TaskAction::Send(stop_request()));
    assert_eq!(t.advance::<u8>(TaskEvent::Sent(Ok(()))), TaskAction::Receive);
    assert_eq!(t.advance::<u8>(TaskEvent::Replied(Ok(reply(30, 200)))), TaskAction::Receive);
    assert_eq!(t.advance::<u8>(TaskEvent::Replied(Ok(reply(40, 200)))), TaskAction::Return(Ok(())));
    assert_eq!(t.phase, TaskPhase::Exited);
}

#[test]
fn task_refused_at_the_start() {
    let mut t = task();
    t.advance::<u8>(TaskEvent::Begin);
    t.advance::<u8>(TaskEvent::Subscribed(Ok(())));
    t.advance::<u8>(TaskEvent::Sent(Ok(())));
    assert_eq!(
        t.advance::<u8>(TaskEvent::Replied(Ok(reply(30, 400)))),
        TaskAction::Stop { msg_id: 40, msg_num: 9, limit_ms: 2000 }
    );
    t.advance::<u8>(TaskEvent::Subscribed(Ok(())));
    t.advance::<u8>(TaskEvent::Sent(Ok(())));
    // A refused stop ends the task as an accepted one does.
    assert_eq!(
        t.advance::<u8>(TaskEvent::Replied(Ok(reply(40, 400)))),
        TaskAction::Return(Err(Error::UnintelligibleReply {
            reply: reply(30, 400),
            why: "The camera did not accept the stream start command.",
        }))
    );
    assert_eq!(START_NOT_ACCEPTED, "The camera did not accept the stream start command.");
}

#[test]
fn task_cancelled_at_every_wait() {
    let script = [
        TaskEvent::Begin,
        TaskEvent::Subscribed(Ok(())),
        TaskEvent::Sent(Ok(())),
        TaskEvent::Replied(Ok(reply(30, 200))),
        TaskEvent::Media(Some(5u8)),
    ];
    for length in 0..=script.len() {
        let mut t = task();
        for k in 0..length {
            match &script[k] {
                TaskEvent::Begin => t.advance::<u8>(TaskEvent::Begin),
                TaskEvent::Subscribed(_) => t.advance::<u8>(TaskEvent::Subscribed(Ok(()))),
                TaskEvent::Sent(_) => t.advance::<u8>(TaskEvent::Sent(Ok(()))),
                TaskEvent::Replied(_) => t.advance::<u8>(TaskEvent::Replied(Ok(reply(30, 200)))),
                _ => t.advance(TaskEvent::Media(Some(5u8))),
            };
        }
        assert_eq!(
            t.advance::<u8>(TaskEvent::Cancelled),
            TaskAction::Stop { msg_id: 40, msg_num: 9, limit_ms: 2000 }
        );
        assert_eq!(t.outcome, Some(Ok(())));
        assert_eq!(t.advance::<u8>(TaskEvent::StopTimedOut), TaskAction::Return(Ok(())));
    }
}

#[test]
fn task_failures_become_the_outcome_before_the_stop_only() {
    let mut t = task();
    t.advance::<u8>(TaskEvent::Begin);
    assert_eq!(
        t.advance::<u8>(TaskEvent::Subscribed(Err(other("first")))),
        TaskAction::Stop { msg_id: 40, msg_num: 9, limit_ms: 2000 }
    );
    assert_eq!(
        t.advance::<u8>(TaskEvent::Subscribed(Err(other("second")))),
        TaskAction::Return(Err(other("first")))
    );
}

#[test]
fn task_ends_when_nobody_receives() {
    let mut t = task();
    t.advance::<u8>(TaskEvent::Begin);
    t.advance::<u8>(TaskEvent::Subscribed(Ok(())));
    t.advance::<u8>(TaskEvent::Sent(Ok(())));
    t.advance::<u8>(TaskEvent::Replied(Ok(reply(30, 200))));
    t.advance(TaskEvent::Media(Some(1u8)));
    assert_eq!(
        t.advance::<u8>(TaskEvent::Forwarded { taken: false }),
        TaskAction::Stop { msg_id: 40, msg_num: 9, limit_ms: 2000 }
    );
    assert_eq!(t.outcome, Some(Ok(())));
}

fn camera() -> BcCamera {
    BcCamera { channel_id: 2, ids: ids() }
}

#[test]
fn start_video_with_the_preview_ability() {
    let mut call = StartCall::new(StreamKind::Sub, 0, true);
    assert_eq!(camera().start_video(&mut call, StartEvent::Begin), StartAction::AskReadWrite { ability: "preview" });
    assert_eq!(
        camera().start_video(&mut call, StartEvent::Preview(Ok(()))),
        StartAction::TakeNumber
    );
    match camera().start_video(&mut call, StartEvent::Numbered(9)) {
        StartAction::Return(Ok(started)) => {
            assert_eq!(started.data, StreamData::from_parts("subStream".to_string()));
            assert_eq!(started.task, task());
            assert_eq!(started.buffer_size, 100);
        }
        action => panic!("{:?}", action),
    }
    assert_eq!(call.step, CallStep::Done);
}

#[test]
fn start_video_falls_back_to_the_stream_table() {
    let mut call = StartCall::new(StreamKind::Main, 25, false);
    camera().start_video(&mut call, StartEvent::Begin);
    assert_eq!(
        camera().start_video(&mut call, StartEvent::Preview(Err(other("no preview")))),
        StartAction::AskRead { ability: "streamTable" }
    );
    assert_eq!(
        camera().start_video(&mut call, StartEvent::StreamTable(Ok(()))),
        StartAction::TakeNumber
    );
    match camera().start_video(&mut call, StartEvent::Numbered(1)) {
        StartAction::Return(Ok(started)) => {
            assert_eq!(started.buffer_size, 25);
            assert_eq!(started.data.label, "mainStream");
            assert!(!started.task.strict);
        }
        action => panic!("{:?}", action),
    }
}

#[test]
fn start_video_denied_reports_the_first_denial() {
    let mut call = StartCall::new(StreamKind::Main, 1, false);
    camera().start_video(&mut call, StartEvent::Begin);
    camera().start_video(&mut call, StartEvent::Preview(Err(other("no preview"))));
    assert_eq!(
        camera().start_video(&mut call, StartEvent::StreamTable(Err(other("no table")))),
        StartAction::Return(Err(other("no preview")))
    );
}

fn stop_until_reply(call: &mut StopCall) {
    assert_eq!(camera().stop_video(call, StopEvent::Begin), StopAction::AskReadWrite { ability: "preview" });
    assert_eq!(camera().stop_video(call, StopEvent::Preview(Ok(()))), StopAction::TakeNumber);
    assert_eq!(
        camera().stop_video(call, StopEvent::Numbered(9)),
        StopAction::Subscribe { msg_id: 40, msg_num: 9 }
    );
    assert_eq!(
        camera().stop_video(call, StopEvent::Subscribed(Ok(()))),
        StopAction::Send(stop_request())
    );
    assert_eq!(camera().stop_video(call, StopEvent::Sent(Ok(()))), StopAction::Receive);
}

#[test]
fn stop_video_accepted() {
    let mut call = StopCall::new(StreamKind::Sub);
    stop_until_reply(&mut call);
    // The reply's code alone decides.
    assert_eq!(
        camera().stop_video(&mut call, StopEvent::Replied(Ok(reply(77, 200)))),
        StopAction::Return(Ok(()))
    );
}

#[test]
fn stop_video_refused() {
    let mut call = StopCall::new(StreamKind::Sub);
    stop_until_reply(&mut call);
    assert_eq!(
        camera().stop_video(&mut call, StopEvent::Replied(Ok(reply(40, 401)))),
        StopAction::Return(Err(Error::CameraServiceUnavailable { id: 40, code: 401 }))
    );
}

#[test]
fn stop_video_denied_or_cut_off() {
    let mut call = StopCall::new(StreamKind::Sub);
    camera().stop_video(&mut call, StopEvent::Begin);
    assert_eq!(
        camera().stop_video(&mut call, StopEvent::Preview(Err(other("a")))),
        StopAction::AskRead { ability: "streamTable" }
    );
    assert_eq!(
        camera().stop_video(&mut call, StopEvent::StreamTable(Err(other("b")))),
        StopAction::Return(Err(other("a")))
    );
    let mut cut = StopCall::new(StreamKind::Sub);
    stop_until_reply(&mut cut);
    assert_eq!(
        camera().stop_video(&mut cut, StopEvent::Replied(Err(other("gone")))),
        StopAction::Return(Err(other("gone")))
    );
}

#[test]
fn shutdown_waits_longer_than_the_stop_takes() {
    let mut data = StreamData::from_parts("subStream".to_string());
    let mut task = task();
    match (data.shutdown(ShutdownEvent::Begin), task.advance::<u8>(TaskEvent::Cancelled)) {
        (ShutdownAction::AwaitTask { limit_ms: wait }, TaskAction::Stop { limit_ms: stop, .. }) => {
            assert_eq!(wait, 3000);
            assert_eq!(stop, 2000);
        }
        other => panic!("unexpected: {other:?}"),
    }
}

#[test]
fn stopping_task_ignores_other_replies() {
    let mut task = task();
    task.advance::<u8>(TaskEvent::Cancelled);
    assert_eq!(task.advance::<u8>(TaskEvent::Subscribed(Ok(()))), TaskAction::Send(stop_request()));
    assert_eq!(task.advance::<u8>(TaskEvent::Sent(Ok(()))), TaskAction::Receive);
    assert_eq!(task.advance::<u8>(TaskEvent::Replied(Ok(reply(30, 200)))), TaskAction::Receive);
    assert_eq!(
        task.advance::<u8>(TaskEvent::Replied(Ok(reply(40, 400)))),
        TaskAction::Return(Ok(()))
    );
    assert_eq!(task.phase, TaskPhase::Exited);
}
