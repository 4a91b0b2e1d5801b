use mnn::session::SessionInternals;
use mnn::sync::SessionState;
use mnn::{ErrorCode, ErrorKind, Interpreter, ScheduleConfig, SessionRunner, SessionRunnerState};

fn net(h: usize) -> Interpreter {
    Interpreter::from_raw(h).unwrap()
}

#[test]
fn load_then_unload_gives_the_interpreter_back() {
    let config = ScheduleConfig::new();
    let mut st = SessionRunnerState::Unloaded(net(1));
    assert!(st.is_unloaded());
    st.load(&config, 10).unwrap();
    assert!(st.is_loaded());
    assert_eq!(st.loaded().unwrap().session().handle(), 10);
    assert_eq!(st.loaded().unwrap().interpreter().handle(), 1);
    st.unload().unwrap();
    assert!(st.is_unloaded());
    assert_eq!(st.unloaded().unwrap().handle(), 1);
    st.load(&config, 20).unwrap();
    assert_eq!(st.loaded().unwrap().session().handle(), 20);
    st.unload().unwrap();
    assert!(st.is_unloaded());
}

#[test]
fn load_and_unload_twice_do_nothing_more() {
    let config = ScheduleConfig::new();
    let mut st = SessionRunnerState::Unloaded(net(1));
    st.load(&config, 10).unwrap();
    st.load(&config, 99).unwrap();
    assert_eq!(st.loaded().unwrap().session().handle(), 10);
    st.unload().unwrap();
    st.unload().unwrap();
    assert_eq!(st.unloaded().unwrap().handle(), 1);
}

#[test]
fn poisoned_state_refuses_everything() {
    let config = ScheduleConfig::new();
    let mut st = SessionRunnerState::default();
    assert!(st.is_poisoned());
    assert_eq!(st.load(&config, 10).unwrap_err().kind(), ErrorKind::SyncError);
    assert_eq!(st.unload().unwrap_err().kind(), ErrorKind::SyncError);
    assert_eq!(st.sr(&config, 10).unwrap_err().kind(), ErrorKind::SyncError);
    assert!(st.is_poisoned());
    assert!(st.loaded().is_none() && st.unloaded().is_none());
}

#[test]
fn sr_loads_on_demand() {
    let mut c = ScheduleConfig::new();
    c.set_num_threads(3);
    let mut st = SessionRunnerState::Unloaded(net(2));
    {
        let sr = st.sr(&c, 30).unwrap();
        assert_eq!(sr.session().handle(), 30);
        match sr.session().internals() {
            SessionInternals::Single(c) => assert_eq!(c.thread_or_mode(), 3),
            _ => panic!("expected a single session"),
        }
    }
    assert!(st.is_loaded());
    assert!(st.loaded_mut().is_some());
    assert!(st.unloaded_mut().is_none());
}

#[test]
fn runner_accessors() {
    let mut n = net(4);
    let s = n.create_session(ScheduleConfig::new(), 40).unwrap();
    let mut sr = SessionRunner::new(n, s);
    assert_eq!(sr.interpreter().handle(), 4);
    assert_eq!(sr.interpreter_mut().handle(), 4);
    assert_eq!(sr.session_mut().handle(), 40);
    {
        let (i, s) = sr.both_mut();
        assert_eq!((i.handle(), s.handle()), (4, 40));
    }
    assert!(sr.resize_session().is_ok());
    assert!(sr.run_session(ErrorCode::NoError).is_ok());
    assert_eq!(
        sr.run_session(ErrorCode::CallBackStop).unwrap_err().kind(),
        ErrorKind::InternalError(ErrorCode::CallBackStop)
    );
    let back = sr.unload().unwrap();
    assert_eq!(back.handle(), 4);
}

#[test]
fn runner_create() {
    let sr = SessionRunner::create(net(5), ScheduleConfig::new(), 50).unwrap();
    assert_eq!(sr.interpreter.handle(), 5);
    assert_eq!(sr.session.handle(), 50);
    assert_eq!(sr.session.net(), 5);
}

#[test]
fn session_thread_state() {
    let mut ss = SessionState::new(net(6), ScheduleConfig::new());
    assert!(!ss.is_loaded());
    ss.load(60).unwrap();
    assert!(ss.is_loaded());
    ss.unload().unwrap();
    assert!(!ss.is_loaded());
    assert_eq!(ss.sr(61).unwrap().session().handle(), 61);
    let (r, rest) = ss.finish();
    assert!(r.is_ok());
    assert_eq!(rest.unloaded().unwrap().handle(), 6);
}

#[test]
fn loaded_after_a_sequence_of_requests() {
    // run, load, unload, load, unload, run, unload: each succeeds, and a session is
    // loaded after each request exactly when it was not an unload.
    let mut ss = SessionState::new(net(8), ScheduleConfig::new());
    assert!(!ss.is_loaded());
    assert!(ss.sr(81).is_ok());
    assert!(ss.is_loaded());
    ss.load(82).unwrap();
    assert!(ss.is_loaded());
    ss.unload().unwrap();
    assert!(!ss.is_loaded());
    ss.load(83).unwrap();
    assert!(ss.is_loaded());
    ss.unload().unwrap();
    assert!(!ss.is_loaded());
    assert!(ss.sr(84).is_ok());
    assert!(ss.is_loaded());
    ss.unload().unwrap();
    assert!(!ss.is_loaded());
    assert!(!ss.state().is_poisoned());
}
