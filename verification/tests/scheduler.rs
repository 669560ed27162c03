use crossbeam::channel;
use crossbeam::sync::Parker;
use miniexec::Computation;
use miniexec::NotificationHandle;
use miniexec::Ready;
use miniexec::Step;
use miniexec::run_spawned;
use miniexec::run_to_completion;
use miniexec::spawn_blocking;

fn run_ok<C: Computation>(computation: C) -> C::Output {
    match run_to_completion(computation) {
        Ok(value) => value,
        Err(_) => panic!("computation did not complete"),
    }
}

#[test]
fn ready_completes_on_first_advance() {
    assert_eq!(run_ok(Ready::new(42)), 42);
}

#[test]
fn first_advance_of_ready_needs_no_wakeup() {
    let parker = Parker::new();
    let handle = NotificationHandle::from_parker(&parker);
    let mut computation = Ready::new(5);
    match computation.advance(&handle) {
        Step::Complete(v) => assert_eq!(v, 5),
        Step::Suspended => panic!("a ready computation completes at once"),
    }
}

#[test]
fn ready_carries_owned_data() {
    let r = run_ok(Ready::new(String::from("hello")));
    assert_eq!(r, "hello");
}

#[test]
fn bridge_returns_forty_two() {
    assert_eq!(run_ok(spawn_blocking(|| 42)), 42);
}

#[test]
fn run_spawned_roundtrips_integer() {
    match run_spawned(|| 7u64) {
        Ok(v) => assert_eq!(v, 7),
        Err(_) => panic!("round trip did not complete"),
    }
}

#[test]
fn bridge_roundtrips_string() {
    let out = run_ok(spawn_blocking(|| String::from("from the background")));
    assert_eq!(out, "from the background");
}

#[derive(Debug, PartialEq)]
struct Record {
    id: u64,
    label: String,
}

#[test]
fn bridge_roundtrips_record() {
    let out = run_ok(spawn_blocking(|| Record { id: 9, label: String::from("nine") }));
    assert_eq!(out, Record { id: 9, label: String::from("nine") });
}

#[test]
fn hundred_bridges_in_order() {
    let bridges: Vec<_> = (0..100).map(|i| (i, spawn_blocking(move || i))).collect();
    let mut results = Vec::new();
    for (_, bridge) in bridges {
        results.push(run_ok(bridge));
    }
    let expected: Vec<i32> = (0..100).collect();
    assert_eq!(results, expected);
}

#[test]
fn thousand_roundtrips_return_their_own_value() {
    for i in 0..1000u32 {
        assert_eq!(run_ok(spawn_blocking(move || i)), i);
    }
}

#[test]
fn wakeup_is_not_lost() {
    let (tx, rx) = channel::bounded::<()>(1);
    let mut bridge = spawn_blocking(move || {
        rx.recv().expect("the test keeps the sender alive");
        7
    });
    let parker = Parker::new();
    let handle = NotificationHandle::from_parker(&parker);
    match bridge.advance(&handle) {
        Step::Complete(_) => panic!("the closure cannot have finished yet"),
        Step::Suspended => (),
    }
    tx.send(()).expect("the closure holds the receiver");
    parker.park();
    match bridge.advance(&handle) {
        Step::Complete(v) => assert_eq!(v, 7),
        Step::Suspended => panic!("the wakeup fired, so the result must be there"),
    }
}

#[test]
fn bridges_do_not_interfere() {
    let a = spawn_blocking(|| String::from("first"));
    let b = spawn_blocking(|| String::from("second"));
    assert_eq!(run_ok(b), "second");
    assert_eq!(run_ok(a), "first");
}
