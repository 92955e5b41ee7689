use std::sync::mpsc;
use std::sync::mpsc::Sender;
use std::sync::Arc;
use std::sync::Mutex;

use clap::ArgMatches;
use service_runner::{Action, BasicRunner, PollOutcome, RunLoop, TickableService};

/// Shared record of what the worker did: one entry per tick or finalize,
/// each with whether the runner was still running at that moment.
type Log = Arc<Mutex<Vec<(&'static str, bool)>>>;

struct Recorder {
    log: Log,
    running: Arc<Mutex<bool>>,
    // Sends the stop signal from inside the tick with this number, if any.
    stop_at_tick: Option<(usize, Sender<()>)>,
    ticks: usize,
}

impl TickableService for Recorder {
    fn tick(&mut self) {
        self.ticks += 1;
        let running = *self.running.lock().unwrap();
        self.log.lock().unwrap().push(("tick", running));
        if let Some((n, tx)) = &self.stop_at_tick {
            if *n == self.ticks {
                tx.send(()).unwrap();
            }
        }
    }

    fn finalize(self) {
        let running = *self.running.lock().unwrap();
        self.log.lock().unwrap().push(("finalize", running));
    }

    fn build<'a>(_args: &ArgMatches<'a>) -> Self {
        Recorder {
            log: Arc::new(Mutex::new(Vec::new())),
            running: Arc::new(Mutex::new(true)),
            stop_at_tick: None,
            ticks: 0,
        }
    }
}

/// Runs the loop in the calling thread, as the worker thread would.
fn drive(mut runner: BasicRunner, mut svc: Recorder) {
    loop {
        let step = runner.next_step();
        *svc.running.lock().unwrap() = runner.is_running();
        match step {
            Action::Tick => svc.tick(),
            Action::Finalize => break,
            Action::Exit => panic!("finalize was skipped"),
        }
    }
    assert_eq!(runner.next_step(), Action::Exit);
    svc.finalize();
}

fn recorder() -> Recorder {
    Recorder::build(&ArgMatches::new())
}

fn counts(log: &Log) -> (usize, usize) {
    let log = log.lock().unwrap();
    let ticks = log.iter().filter(|e| e.0 == "tick").count();
    let finals = log.iter().filter(|e| e.0 == "finalize").count();
    (ticks, finals)
}

#[test]
fn it_works() {
    let (_tx, rx) = mpsc::channel::<()>();
    let runner = BasicRunner::new(rx);
    assert!(runner.is_running());
}

#[test]
fn stop_seen_at_fifth_poll_gives_five_ticks_then_finalize() {
    let (tx, rx) = mpsc::channel();
    let mut svc = recorder();
    // Sent during tick 4, so the 5th poll is the first to see it.
    svc.stop_at_tick = Some((4, tx));
    let log = svc.log.clone();
    drive(BasicRunner::new(rx), svc);
    assert_eq!(counts(&log), (5, 1));
    let log = log.lock().unwrap();
    assert_eq!(log.len(), 6);
    assert_eq!(log[5].0, "finalize");
}

#[test]
fn terminate_gives_at_most_one_tick_after_signal() {
    let (tx, rx) = mpsc::channel();
    let mut runner = BasicRunner::new(rx);
    let mut svc = recorder();
    for _ in 0..3 {
        assert_eq!(runner.next_step(), Action::Tick);
        svc.tick();
    }
    tx.send(()).unwrap();
    let mut after_signal = 0;
    loop {
        match runner.next_step() {
            Action::Tick => {
                after_signal += 1;
                svc.tick();
            }
            Action::Finalize => break,
            Action::Exit => panic!("finalize was skipped"),
        }
    }
    assert!(!runner.is_running());
    let log = svc.log.clone();
    svc.finalize();
    assert_eq!(after_signal, 1);
    assert_eq!(counts(&log), (4, 1));
    drop(tx);
}

#[test]
fn dropped_sender_stops_like_a_signal() {
    let (tx, rx) = mpsc::channel::<()>();
    drop(tx);
    let svc = recorder();
    let log = svc.log.clone();
    drive(BasicRunner::new(rx), svc);
    assert_eq!(counts(&log), (1, 1));
}

#[test]
fn dropped_sender_after_ticks_is_seen_at_next_poll() {
    let (tx, rx) = mpsc::channel::<()>();
    let mut runner = BasicRunner::new(rx);
    assert_eq!(runner.next_step(), Action::Tick);
    assert_eq!(runner.next_step(), Action::Tick);
    drop(tx);
    assert_eq!(runner.next_step(), Action::Tick);
    assert!(!runner.is_running());
    assert_eq!(runner.next_step(), Action::Finalize);
    assert_eq!(runner.next_step(), Action::Exit);
}

#[test]
fn hundred_services_each_finalized_once_after_stop() {
    for i in 0..100 {
        let (tx, rx) = mpsc::channel();
        let svc = recorder();
        let log = svc.log.clone();
        if i % 2 == 0 {
            tx.send(()).unwrap();
        } else {
            drop(tx);
        }
        drive(BasicRunner::new(rx), svc);
        let log = log.lock().unwrap();
        assert_eq!(log.len(), 2);
        assert_eq!(log[0], ("tick", false));
        assert_eq!(log[1], ("finalize", false));
    }
}

#[test]
fn run_loop_keeps_running_on_empty_polls() {
    let mut state = RunLoop::new();
    assert!(state.is_running());
    for _ in 0..10 {
        assert_eq!(state.observe(PollOutcome::Empty), Action::Tick);
        assert!(state.is_running());
    }
    assert!(!state.is_finalized());
}

#[test]
fn run_loop_stops_on_signal_then_finalizes_once() {
    let mut state = RunLoop::new();
    assert_eq!(state.observe(PollOutcome::Empty), Action::Tick);
    assert_eq!(state.observe(PollOutcome::Signaled), Action::Tick);
    assert!(!state.is_running());
    assert!(!state.is_finalized());
    assert_eq!(state.conclude(), Action::Finalize);
    assert!(state.is_finalized());
    assert_eq!(state.conclude(), Action::Exit);
    assert_eq!(state.conclude(), Action::Exit);
}

#[test]
fn run_loop_closed_same_as_signaled() {
    let mut a = RunLoop::new();
    let mut b = RunLoop::new();
    assert_eq!(a.observe(PollOutcome::Closed), b.observe(PollOutcome::Signaled));
    assert_eq!(a.is_running(), b.is_running());
    assert!(!a.is_running());
    assert_eq!(a.conclude(), b.conclude());
    assert_eq!(a.conclude(), Action::Exit);
}

#[test]
fn poll_outcome_stop_values() {
    assert!(!PollOutcome::Empty.is_stop());
    assert!(PollOutcome::Signaled.is_stop());
    assert!(PollOutcome::Closed.is_stop());
}

struct Idle;

impl TickableService for Idle {
    fn build<'a>(_args: &ArgMatches<'a>) -> Self {
        Idle
    }
}

#[test]
fn default_tick_and_finalize_return() {
    let (tx, rx) = mpsc::channel::<()>();
    let mut runner = BasicRunner::new(rx);
    let mut svc = Idle::build(&ArgMatches::new());
    tx.send(()).unwrap();
    let mut ticks = 0;
    while runner.next_step() == Action::Tick {
        svc.tick();
        ticks += 1;
    }
    svc.finalize();
    assert_eq!(ticks, 1);
    assert!(<Idle as TickableService>::args().is_empty());
}
