use std::collections::VecDeque;
use std::path::Path;
use std::sync::{Arc, Mutex};

use keep_backend::backend::error::{BuildError, ConstructionError, EnterError};
use keep_backend::backend::hosted::{Guest, Hosted};
use keep_backend::backend::lifecycle::{Exit, ThreadState};
use keep_backend::backend::slots::Slots;
use keep_backend::backend::{Backend, Command, Datum, Keep, Thread};
use keep_backend::binary::Component;
use keep_backend::sallyport::{Arg, Reply, Request};

const OPEN: u64 = 2;
const WRITE: u64 = 1;
const CLOSE: u64 = 3;

/// A guest that yields as a script says and notes every reply it is handed.
struct Scripted {
    keep: Option<Arc<Plain>>,
    exits: VecDeque<Exit>,
    seen: Arc<Mutex<Vec<Option<Reply>>>>,
}

impl Scripted {
    fn new(exits: Vec<Exit>) -> (Scripted, Arc<Mutex<Vec<Option<Reply>>>>) {
        let seen = Arc::new(Mutex::new(Vec::new()));
        (Scripted { keep: None, exits: exits.into(), seen: seen.clone() }, seen)
    }
}

impl Guest for Scripted {
    fn run(&mut self, reply: Option<Reply>) -> Exit {
        self.seen.lock().unwrap().push(reply);
        self.exits.pop_front().unwrap_or(Exit::Terminated)
    }
}

impl Drop for Scripted {
    fn drop(&mut self) {
        if let Some(keep) = &self.keep {
            keep.slots.lock().unwrap().release();
        }
    }
}

/// A keep without any isolation, with room for a fixed number of threads.
struct Plain {
    code: Vec<Component>,
    slots: Mutex<Slots>,
    scripts: Mutex<VecDeque<Vec<Exit>>>,
}

impl Keep for Plain {
    fn add_thread(self: Arc<Self>) -> Result<Box<dyn Thread>, ConstructionError> {
        self.slots.lock().unwrap().claim()?;
        let exits = self.scripts.lock().unwrap().pop_front().unwrap_or_default();
        let (mut guest, _) = Scripted::new(exits);
        guest.keep = Some(self.clone());
        Ok(Box::new(Hosted::new(guest)))
    }
}

/// A backend whose checks are given, and which builds only where they pass.
struct Fixed {
    name: &'static str,
    data: Vec<Datum>,
    limit: usize,
    scripts: Vec<Vec<Exit>>,
}

impl Backend for Fixed {
    fn name(&self) -> &'static str {
        self.name
    }

    fn data(&self) -> Vec<Datum> {
        self.data.clone()
    }

    fn build(&self, code: Vec<Component>, _sock: Option<&Path>) -> Result<Arc<dyn Keep>, BuildError> {
        let data = self.data();
        if data.iter().any(|d| !d.pass) {
            return Err(BuildError {
                backend: String::from(self.name),
                cause: ConstructionError::FeatureMissing,
                data,
            });
        }
        Ok(Arc::new(Plain {
            code,
            slots: Mutex::new(Slots::new(self.limit)),
            scripts: Mutex::new(self.scripts.clone().into()),
        }))
    }
}

fn call(num: u64) -> Exit {
    Exit::SysCall(Request { num, args: vec![Arg::Value(num)] })
}

fn passing(name: &str) -> Datum {
    Datum { name: String::from(name), pass: true, info: None, mesg: None }
}

fn two_components() -> Vec<Component> {
    vec![Component { image: vec![0x7f, b'E', b'L', b'F'] }, Component { image: vec![1, 2, 3] }]
}

/// Serves the request that `thread` hands out on this entry; `None` if the
/// entry handed out none.
fn serve(thread: &mut dyn Thread, reply: Reply) -> Option<u64> {
    match thread.enter() {
        Ok(Command::SysCall(block)) => {
            let num = block.request().expect("a request is outstanding").num;
            assert!(block.respond(reply));
            Some(num)
        }
        _ => None,
    }
}

#[test]
fn unsupported_backend_reports_it_and_refuses_to_build() {
    let a = Fixed {
        name: "A",
        data: vec![Datum {
            name: String::from("cpu-feature"),
            pass: false,
            info: None,
            mesg: Some(String::from("enable X in firmware")),
        }],
        limit: 1,
        scripts: Vec::new(),
    };
    assert!(!a.have());
    match a.build(two_components(), None) {
        Ok(_) => panic!("the platform lacks the feature"),
        Err(error) => {
            assert_eq!(error.backend, "A");
            assert_eq!(error.cause, ConstructionError::FeatureMissing);
            assert!(error.unsupported());
            let root = error.root_cause().expect("one check fails");
            assert_eq!(root.name, "cpu-feature");
            assert_eq!(root.mesg.as_deref(), Some("enable X in firmware"));
        }
    }
}

#[test]
fn supported_backend_has_and_builds() {
    let b = Fixed {
        name: "B",
        data: vec![passing("cpu"), passing("kernel")],
        limit: 1,
        scripts: Vec::new(),
    };
    assert_eq!(b.name(), "B");
    assert!(b.have());
    assert!(b.build(two_components(), Some(Path::new("/run/keep.sock"))).is_ok());
}

#[test]
fn backend_without_checks_counts_as_supported() {
    let b = Fixed { name: "none", data: Vec::new(), limit: 1, scripts: Vec::new() };
    assert!(b.data().is_empty());
    assert!(b.have());
}

#[test]
fn two_threads_of_one_keep_do_not_mix_their_requests() {
    let backend = Fixed {
        name: "plain",
        data: vec![passing("cpu")],
        limit: 2,
        scripts: vec![
            vec![call(100), call(101), call(102)],
            vec![call(200), call(201)],
        ],
    };
    let keep = match backend.build(two_components(), None) {
        Ok(keep) => keep,
        Err(_) => panic!("the build must succeed"),
    };
    let mut first = keep.clone().add_thread().ok().expect("room for the first");
    let mut second = keep.clone().add_thread().ok().expect("room for the second");

    assert_eq!(serve(first.as_mut(), Reply::Value(1)), Some(100));
    assert_eq!(serve(second.as_mut(), Reply::Value(2)), Some(200));
    assert_eq!(serve(second.as_mut(), Reply::Value(2)), Some(201));
    assert_eq!(serve(first.as_mut(), Reply::Value(1)), Some(101));
    assert_eq!(serve(first.as_mut(), Reply::Value(1)), Some(102));
    assert_eq!(serve(second.as_mut(), Reply::Value(2)), None);
    assert_eq!(serve(first.as_mut(), Reply::Value(1)), None);
    assert!(matches!(first.enter(), Err(EnterError::TerminalState)));
    assert!(matches!(second.enter(), Err(EnterError::TerminalState)));
}

#[test]
fn add_thread_fails_at_the_limit_of_the_keep() {
    let backend = Fixed { name: "plain", data: vec![passing("cpu")], limit: 2, scripts: Vec::new() };
    let keep = backend.build(two_components(), None).ok().expect("the build must succeed");
    let first = keep.clone().add_thread();
    let second = keep.clone().add_thread();
    assert!(first.is_ok());
    assert!(second.is_ok());
    for _ in 0..3 {
        assert!(matches!(keep.clone().add_thread(), Err(ConstructionError::ResourceExhausted)));
    }
    drop(first);
    assert!(keep.clone().add_thread().is_ok());
}

#[test]
fn the_keep_outlives_its_threads() {
    let backend = Fixed { name: "plain", data: vec![passing("cpu")], limit: 1, scripts: vec![vec![call(9)]] };
    let keep = backend.build(two_components(), None).ok().expect("the build must succeed");
    let mut thread = keep.add_thread().ok().expect("room for one");
    assert_eq!(serve(thread.as_mut(), Reply::Value(0)), Some(9));
}

#[test]
fn requests_are_served_in_the_order_of_the_guest() {
    let (guest, seen) = Scripted::new(vec![call(OPEN), call(WRITE), call(CLOSE)]);
    let mut thread = Hosted::new(guest);
    let mut served = Vec::new();
    let mut next = 0;
    loop {
        match thread.enter() {
            Ok(Command::SysCall(block)) => {
                served.push(block.request().expect("a request is outstanding").num);
                assert!(block.respond(Reply::Value(next)));
                next += 1;
            }
            Ok(Command::Continue) => {}
            Err(error) => {
                assert_eq!(error, EnterError::TerminalState);
                break;
            }
        }
    }
    assert_eq!(served, vec![OPEN, WRITE, CLOSE]);
    assert_eq!(
        *seen.lock().unwrap(),
        vec![None, Some(Reply::Value(0)), Some(Reply::Value(1)), Some(Reply::Value(2))]
    );
}

#[test]
fn an_entry_without_an_answer_does_not_run_the_guest() {
    let (guest, seen) = Scripted::new(vec![call(OPEN), call(CLOSE)]);
    let mut thread = Hosted::new(guest);
    assert!(matches!(thread.enter(), Ok(Command::SysCall(_))));
    assert!(matches!(thread.enter(), Err(EnterError::HostResourceError)));
    assert!(matches!(thread.enter(), Err(EnterError::HostResourceError)));
    assert_eq!(seen.lock().unwrap().len(), 1);
    assert_eq!(thread.life().state(), ThreadState::AwaitingService);
    assert_eq!(thread.life().block().request().map(|r| r.num), Some(OPEN));
    assert_eq!(thread.guest().exits.len(), 1);

    assert!(thread.awaiting().expect("the guest waits").respond(Reply::Error(9)));
    match thread.enter() {
        Ok(Command::SysCall(block)) => assert_eq!(block.request().map(|r| r.num), Some(CLOSE)),
        _ => panic!("the guest asks to close"),
    }
    assert_eq!(*seen.lock().unwrap(), vec![None, Some(Reply::Error(9))]);
}

#[test]
fn an_exited_thread_never_runs_its_guest_again() {
    let (guest, seen) = Scripted::new(vec![Exit::Handled, Exit::Terminated, call(OPEN)]);
    let mut thread = Hosted::new(guest);
    assert!(matches!(thread.enter(), Ok(Command::Continue)));
    assert_eq!(thread.life().state(), ThreadState::Running);
    assert!(matches!(thread.enter(), Ok(Command::Continue)));
    assert_eq!(thread.life().state(), ThreadState::Exited);
    for _ in 0..3 {
        assert!(matches!(thread.enter(), Err(EnterError::TerminalState)));
    }
    assert_eq!(seen.lock().unwrap().len(), 2);
    assert_eq!(thread.guest().exits.len(), 1);
    assert!(thread.awaiting().is_none());
}

#[test]
fn a_faulting_guest_ends_its_thread() {
    let (guest, seen) = Scripted::new(vec![Exit::Fault(String::from("bad page")), call(OPEN)]);
    let mut thread = Hosted::new(guest);
    match thread.enter() {
        Err(EnterError::Fault(cause)) => assert_eq!(cause, "bad page"),
        _ => panic!("the fault must be reported"),
    }
    assert_eq!(thread.life().state(), ThreadState::Exited);
    assert!(matches!(thread.enter(), Err(EnterError::TerminalState)));
    assert_eq!(seen.lock().unwrap().len(), 1);
}

#[test]
fn the_keep_holds_what_it_was_built_with() {
    let keep = Plain {
        code: two_components(),
        slots: Mutex::new(Slots::new(0)),
        scripts: Mutex::new(VecDeque::new()),
    };
    assert_eq!(keep.code.len(), 2);
    assert_eq!(keep.code[1], Component { image: vec![1, 2, 3] });
    assert!(matches!(Arc::new(keep).add_thread(), Err(ConstructionError::ResourceExhausted)));
}
