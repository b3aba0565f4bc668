use std::sync::Arc;
use std::time::Duration;
use studio_bridge::dispatcher::AppState;
use studio_bridge::longpoll::{after_wait, pickup_reply, request_handler, PickupOutcome, PollStep, WaitEnd};
use studio_bridge::protocol::{
    Body, Reply, RunCommandResponse, ToolArgumentValues, ToolCall, LONG_POLL_SECONDS,
};
use studio_bridge::submission::response_handler;
use tokio::sync::Mutex;
use tokio::time::Instant;

fn run_code(command: &str) -> ToolArgumentValues {
    ToolArgumentValues::RunCode { command: command.to_string() }
}

fn paused_runtime() -> tokio::runtime::Runtime {
    tokio::runtime::Builder::new_current_thread()
        .enable_time()
        .start_paused(true)
        .build()
        .expect("a runtime")
}

async fn long_poll(state: Arc<Mutex<AppState>>) -> Reply {
    let deadline = Instant::now() + Duration::from_secs(LONG_POLL_SECONDS);
    let mut woken_by = None;
    loop {
        let step = request_handler(&mut *state.lock().await, woken_by);
        let mut waiter = match step {
            PollStep::Respond(reply) => return reply,
            PollStep::Wait(waiter) => waiter,
        };
        woken_by = Some(match tokio::time::timeout_at(deadline, waiter.changed()).await {
            Ok(Ok(())) => WaitEnd::Changed,
            Ok(Err(_)) => WaitEnd::NotifierClosed,
            Err(_) => WaitEnd::Elapsed,
        });
    }
}

async fn bridge(state: Arc<Mutex<AppState>>, args: ToolArgumentValues) -> Result<String, String> {
    let mut ticket = state.lock().await.enqueue(args);
    let received = ticket.receiver.recv().await;
    let result = state.lock().await.finish(ticket.id, received);
    result.map_err(|e| e.message())
}

#[test]
fn bound_is_fifteen_seconds() {
    assert_eq!(LONG_POLL_SECONDS, 15);
}

#[test]
fn after_wait_on_every_end() {
    assert_eq!(after_wait(WaitEnd::Changed), None);
    assert_eq!(after_wait(WaitEnd::NotifierClosed), Some(PickupOutcome::InternalError));
    assert_eq!(after_wait(WaitEnd::Elapsed), Some(PickupOutcome::TimedOut));
}

#[test]
fn pickup_reply_on_every_outcome() {
    let item = ToolCall { args: run_code("print(1)"), id: Some(9) };
    assert_eq!(pickup_reply(PickupOutcome::Found(item.clone())),
        Reply { status: 200, body: Body::Task(item) });
    assert_eq!(pickup_reply(PickupOutcome::TimedOut), Reply { status: 202, body: Body::Empty });
    assert_eq!(pickup_reply(PickupOutcome::InternalError), Reply {
        status: 500,
        body: Body::Text("Error: Long poll timed out internally".to_string()),
    });
}

#[test]
fn elapsed_bound_is_no_work_and_no_error() {
    let mut state = AppState::new();
    match request_handler(&mut state, Some(WaitEnd::Elapsed)) {
        PollStep::Respond(reply) => assert_eq!(reply, Reply { status: 202, body: Body::Empty }),
        PollStep::Wait(_) => panic!("the request should have ended"),
    }
}

#[test]
fn elapsed_bound_does_not_take_an_item() {
    let mut state = AppState::new();
    let ticket = state.enqueue(run_code("kept()"));
    match request_handler(&mut state, Some(WaitEnd::Elapsed)) {
        PollStep::Respond(reply) => assert_eq!(reply.status, 202),
        PollStep::Wait(_) => panic!("the request should have ended"),
    }
    match request_handler(&mut state, None) {
        PollStep::Respond(reply) => assert_eq!(reply, Reply {
            status: 200,
            body: Body::Task(ToolCall { args: run_code("kept()"), id: Some(ticket.id) }),
        }),
        PollStep::Wait(_) => panic!("an item was queued"),
    }
}

#[test]
fn lost_notifier_is_an_internal_error() {
    let mut state = AppState::new();
    let _ticket = state.enqueue(run_code("kept()"));
    match request_handler(&mut state, Some(WaitEnd::NotifierClosed)) {
        PollStep::Respond(reply) => assert_eq!(reply, Reply {
            status: 500,
            body: Body::Text("Error: Long poll timed out internally".to_string()),
        }),
        PollStep::Wait(_) => panic!("the request should have ended"),
    }
}

#[test]
fn arrival_on_an_empty_queue_waits() {
    let mut state = AppState::new();
    assert!(matches!(request_handler(&mut state, None), PollStep::Wait(_)));
}

#[test]
fn wake_up_without_an_item_waits_again() {
    let mut state = AppState::new();
    let _ticket = state.enqueue(run_code("x"));
    assert!(matches!(request_handler(&mut state, None), PollStep::Respond(_)));
    assert!(matches!(request_handler(&mut state, Some(WaitEnd::Changed)), PollStep::Wait(_)));
}

#[test]
fn wake_up_with_an_item_returns_it() {
    let mut state = AppState::new();
    assert!(matches!(request_handler(&mut state, None), PollStep::Wait(_)));
    let ticket = state.enqueue(run_code("now()"));
    match request_handler(&mut state, Some(WaitEnd::Changed)) {
        PollStep::Respond(reply) => assert_eq!(reply, Reply {
            status: 200,
            body: Body::Task(ToolCall { args: run_code("now()"), id: Some(ticket.id) }),
        }),
        PollStep::Wait(_) => panic!("an item was queued"),
    }
}

#[test]
fn pickup_on_an_empty_queue_times_out_after_the_bound() {
    let runtime = paused_runtime();
    let (reply, waited) = runtime.block_on(async {
        let state = Arc::new(Mutex::new(AppState::new()));
        let started = Instant::now();
        let reply = long_poll(state).await;
        (reply, started.elapsed())
    });
    assert_eq!(reply, Reply { status: 202, body: Body::Empty });
    assert!(waited >= Duration::from_secs(14), "waited {:?}", waited);
    assert!(waited <= Duration::from_secs(16), "waited {:?}", waited);
}

#[test]
fn pickup_waits_the_whole_bound_after_earlier_traffic() {
    let runtime = paused_runtime();
    let (first, second, waited) = runtime.block_on(async {
        let state = Arc::new(Mutex::new(AppState::new()));
        let _ticket = state.lock().await.enqueue(run_code("x"));
        let first = long_poll(state.clone()).await;
        let started = Instant::now();
        let second = long_poll(state).await;
        (first, second, started.elapsed())
    });
    assert_eq!(first.status, 200);
    assert_eq!(second, Reply { status: 202, body: Body::Empty });
    assert!(waited >= Duration::from_secs(14), "waited {:?}", waited);
    assert!(waited <= Duration::from_secs(16), "waited {:?}", waited);
}

#[test]
fn pickup_returns_as_soon_as_work_arrives() {
    let runtime = paused_runtime();
    let (reply, waited) = runtime.block_on(async {
        let state = Arc::new(Mutex::new(AppState::new()));
        let started = Instant::now();
        let poller = tokio::spawn(long_poll(state.clone()));
        tokio::time::sleep(Duration::from_secs(3)).await;
        let ticket = state.lock().await.enqueue(run_code("late()"));
        let reply = poller.await.expect("the poller ran");
        assert_eq!(reply.body, Body::Task(ToolCall { args: run_code("late()"), id: Some(ticket.id) }));
        (reply, started.elapsed())
    });
    assert_eq!(reply.status, 200);
    assert!(waited >= Duration::from_secs(3), "waited {:?}", waited);
    assert!(waited < Duration::from_secs(4), "waited {:?}", waited);
}

#[test]
fn one_item_goes_to_one_of_two_waiting_pickups() {
    let runtime = paused_runtime();
    let (a, b) = runtime.block_on(async {
        let state = Arc::new(Mutex::new(AppState::new()));
        let a = tokio::spawn(long_poll(state.clone()));
        let b = tokio::spawn(long_poll(state.clone()));
        tokio::time::sleep(Duration::from_secs(1)).await;
        let _ticket = state.lock().await.enqueue(run_code("one()"));
        (a.await.expect("the poller ran"), b.await.expect("the poller ran"))
    });
    let mut statuses = [a.status, b.status];
    statuses.sort();
    assert_eq!(statuses, [200, 202]);
}

#[test]
fn bridge_and_worker_meet_end_to_end() {
    let runtime = paused_runtime();
    let result = runtime.block_on(async {
        let state = Arc::new(Mutex::new(AppState::new()));
        let caller = tokio::spawn(bridge(state.clone(), run_code("print(1)")));
        let picked = long_poll(state.clone()).await;
        assert_eq!(picked.status, 200);
        let item = match picked.body {
            Body::Task(item) => item,
            other => panic!("no work item: {:?}", other),
        };
        assert_eq!(item.args, run_code("print(1)"));
        let id = item.id.expect("a queued item carries its identifier");
        let envelope = RunCommandResponse { response: "1".to_string(), id };
        let answer = response_handler(&*state.lock().await, envelope.clone());
        assert_eq!(answer, Reply { status: 200, body: Body::Empty });
        let result = caller.await.expect("the bridge call ran");
        let again = response_handler(&*state.lock().await, envelope);
        assert_eq!(again.status, 404);
        result
    });
    assert_eq!(result, Ok("1".to_string()));
}
