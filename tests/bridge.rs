use std::sync::mpsc;
use std::sync::{Arc, RwLock};

use splitter_bridge::commands::WsCommand;
use splitter_bridge::driver::{DriverAction, TickSchedule};
use splitter_bridge::events::{parse_response, CommandResult, Event, Response, State};
use splitter_bridge::state::{state_update, SharedState, TimerState};
use splitter_bridge::timer::WebsocketTimer;
use splitter_bridge::transport::{on_frame, on_queue_event, Frame, QueueAction, QueueEvent, ReadAction};

fn shared() -> SharedState {
    SharedState::new(Arc::new(RwLock::new(TimerState::NotRunning)))
}

fn update_for(text: &str) -> Option<TimerState> {
    state_update(&parse_response(text).expect("decodes"))
}

#[test]
fn projection_table() {
    assert_eq!(update_for("{\"state\":\"NotRunning\"}"), Some(TimerState::NotRunning));
    assert_eq!(update_for("{\"state\":\"Running\",\"index\":0}"), Some(TimerState::Running));
    assert_eq!(update_for("{\"state\":\"Paused\",\"index\":1}"), Some(TimerState::Paused));
    assert_eq!(update_for("{\"state\":\"Ended\"}"), Some(TimerState::Ended));
    assert_eq!(update_for("{\"event\":0}"), Some(TimerState::Running));
    assert_eq!(update_for("{\"event\":6}"), Some(TimerState::Paused));
    assert_eq!(update_for("{\"event\":7}"), Some(TimerState::Running));
    assert_eq!(update_for("{\"event\":2}"), Some(TimerState::Ended));
    assert_eq!(update_for("{\"event\":3}"), Some(TimerState::NotRunning));
}

#[test]
fn projection_leaves_others() {
    for n in [1, 4, 5, 8, 9, 10, 11, 12, 13, 14, 15, 16, 17, 18, 400] {
        assert_eq!(update_for(&format!("{{\"event\":{}}}", n)), None);
    }
    assert_eq!(update_for("{\"success\":null}"), None);
    assert_eq!(update_for("{\"success\":\"x\"}"), None);
    assert_eq!(update_for("{\"error\":{\"code\":1}}"), None);
    assert_eq!(update_for("{\"error\":{\"code\":\"InvalidIndex\"}}"), None);
    let msg = CommandResult::Success(Response::State(State::Running(9)));
    assert_eq!(state_update(&msg), Some(TimerState::Running));
    assert_eq!(state_update(&CommandResult::Event(Event::Unknown)), None);
}

#[test]
fn custom_variable_event_then_state() {
    let state = shared();
    state.write(TimerState::Paused);
    for text in ["{\"event\":17}", "{\"state\":\"Running\",\"index\":2}"] {
        if let ReadAction::Store(s) = on_frame(Frame::Text(text.to_string())) {
            state.write(s);
        }
        if text.contains("17") {
            assert_eq!(state.state(), TimerState::Paused);
        }
    }
    assert_eq!(state.state(), TimerState::Running);
}

#[test]
fn frames_decide_the_loop() {
    assert!(matches!(on_frame(Frame::Close), ReadAction::Stop));
    assert!(matches!(on_frame(Frame::Other), ReadAction::Stop));
    assert!(matches!(on_frame(Frame::Failed), ReadAction::Stop));
    assert!(matches!(on_frame(Frame::WouldBlock), ReadAction::Continue));
    assert!(matches!(on_frame(Frame::Text("not json".to_string())), ReadAction::Continue));
    assert!(matches!(on_frame(Frame::Binary(vec![0xc3, 0x28])), ReadAction::Continue));
    assert!(matches!(
        on_frame(Frame::Binary(b"{\"event\":2}".to_vec())),
        ReadAction::Store(TimerState::Ended)
    ));
    match on_frame(Frame::Ping(vec![1, 2, 3])) {
        ReadAction::Pong(p) => assert_eq!(p, vec![1, 2, 3]),
        other => panic!("unexpected {:?}", other),
    }
}

#[test]
fn idle_iteration_reads_without_waiting() {
    assert!(matches!(on_queue_event(QueueEvent::Timeout), QueueAction::Read));
    assert!(matches!(on_frame(Frame::WouldBlock), ReadAction::Continue));
    assert!(matches!(on_queue_event(QueueEvent::Disconnected), QueueAction::Stop));
}

#[test]
fn commands_reach_the_wire_in_order() {
    let (tx, rx) = mpsc::channel();
    let state = shared();
    let mut timer = WebsocketTimer::new(state.clone(), tx);
    timer.start();
    timer.set_variable("foo", "bar");
    drop(timer);
    let mut frames = Vec::new();
    loop {
        let ev = match rx.try_recv() {
            Ok(cmd) => QueueEvent::Command(cmd),
            Err(mpsc::TryRecvError::Empty) => QueueEvent::Timeout,
            Err(mpsc::TryRecvError::Disconnected) => QueueEvent::Disconnected,
        };
        match on_queue_event(ev) {
            QueueAction::SendThenRead(text) => frames.push(text),
            QueueAction::Read => {}
            QueueAction::Stop => break,
        }
    }
    assert_eq!(
        frames,
        vec![
            "{\"command\":\"start\"}".to_string(),
            "{\"command\":\"setCustomVariable\",\"key\":\"foo\",\"value\":\"bar\"}".to_string(),
        ]
    );
    assert!(state.alive());
}

#[test]
fn lost_queue_marks_dead() {
    let (tx, rx) = mpsc::channel::<WsCommand>();
    drop(rx);
    let state = shared();
    let mut timer = WebsocketTimer::new(state.clone(), tx);
    assert!(state.alive());
    timer.split();
    assert!(!state.alive());
    assert_eq!(timer.state(), TimerState::NotRunning);
}

#[test]
fn mark_dead_twice_is_once() {
    let once = shared();
    once.write(TimerState::Ended);
    once.deadge();
    let twice = shared();
    twice.write(TimerState::Ended);
    twice.deadge();
    twice.deadge();
    assert_eq!(once.alive(), twice.alive());
    assert!(!twice.alive());
    assert_eq!(once.state(), twice.state());
}

#[test]
fn schedule_sleeps_until_deadline() {
    let mut s = TickSchedule::new(1_000);
    assert_eq!(s.after_update(true, 500, 1_200), DriverAction::SleepFor(300));
    assert_eq!(s.next_tick, 1_500);
    assert_eq!(s.after_update(true, 500, 2_000), DriverAction::SleepFor(0));
    assert_eq!(s.next_tick, 2_000);
}

#[test]
fn schedule_overrun_resets_deadline() {
    let mut s = TickSchedule::new(0);
    assert_eq!(s.after_update(true, 10, 50), DriverAction::RunNow);
    assert_eq!(s.next_tick, 50);
    let mut far = TickSchedule::new(u64::MAX - 1);
    assert_eq!(far.after_update(true, 10, 5), DriverAction::SleepFor(u64::MAX - 5));
    assert_eq!(far.next_tick, u64::MAX);
}

#[test]
fn dead_connection_stops_driver_after_one_update() {
    let state = shared();
    let mut s = TickSchedule::new(0);
    let mut updates = 0;
    let mut now = 0u64;
    loop {
        updates += 1;
        if updates == 3 {
            state.deadge();
        }
        now += 1;
        match s.after_update(state.alive(), 1, now) {
            DriverAction::Stop => break,
            _ => {}
        }
    }
    assert_eq!(updates, 3);
    assert_eq!(s.after_update(false, 1, now), DriverAction::Stop);
}

#[test]
fn close_frame_leaves_driver_ticking() {
    let state = shared();
    assert!(matches!(on_frame(Frame::Close), ReadAction::Stop));
    let mut s = TickSchedule::new(0);
    assert_eq!(s.after_update(state.alive(), 5, 1), DriverAction::SleepFor(4));
    state.deadge();
    assert_eq!(s.after_update(state.alive(), 5, 2), DriverAction::Stop);
}
