use scxctl::{
    next_step, BusCall, BusReply, CallArgs, ClientError, Commands, Operation, Outcome,
    ScxLoaderMode, ScxMethods, ScxProperties, Step, TransportError,
};

fn s(x: &str) -> String {
    x.to_string()
}

fn strings(xs: &[&str]) -> Vec<String> {
    xs.iter().map(|x| x.to_string()).collect()
}

/// A plain rendering of a request, for comparison.
fn show(call: &BusCall) -> String {
    match call {
        BusCall::Read(p) => format!("read {}", p.as_str()),
        BusCall::Invoke(m, CallArgs::Empty) => format!("call {}()", m.as_str()),
        BusCall::Invoke(m, CallArgs::NameAndMode(n, c)) => format!("call {}({}, {})", m.as_str(), n, c),
        BusCall::Invoke(m, CallArgs::NameAndArgs(n, a)) => {
            format!("call {}({}, [{}])", m.as_str(), n, a.join(","))
        }
    }
}

fn bus_error() -> TransportError {
    TransportError { name: s("org.freedesktop.DBus.Error.NoReply"), message: s("timed out") }
}

/// Runs `op` against a service that answers with `answers`, in order. Returns
/// the requests made and the result.
fn run(op: &Operation, answers: Vec<BusReply>) -> (Vec<String>, Result<Outcome, ClientError>) {
    let mut sent = Vec::new();
    let mut replies = Vec::new();
    let mut answers = answers.into_iter();
    loop {
        match next_step(op, &replies) {
            Step::Send(call) => {
                sent.push(show(&call));
                replies.push(answers.next().expect("the client asked more than the script holds"));
            }
            Step::Finish(r) => return (sent, r),
        }
    }
}

fn running(r: Result<Outcome, ClientError>) -> (String, ScxLoaderMode) {
    match r {
        Ok(Outcome::Running(n, m)) => (n, m),
        _ => panic!("expected a running scheduler"),
    }
}

fn with_args(r: Result<Outcome, ClientError>) -> (String, Vec<String>) {
    match r {
        Ok(Outcome::RunningWithArgs(n, a)) => (n, a),
        _ => panic!("expected a scheduler with arguments"),
    }
}

#[test]
fn get_reports_running_scheduler() {
    let (sent, r) = run(&Operation::Get, vec![BusReply::Text(s("scx_lavd")), BusReply::Code(1)]);
    assert_eq!(sent, vec!["read CurrentScheduler", "read SchedulerMode"]);
    assert_eq!(running(r), (s("lavd"), ScxLoaderMode::Gaming));
}

#[test]
fn get_reports_idle_on_sentinel() {
    let (_, r) = run(&Operation::Get, vec![BusReply::Text(s("unknown")), BusReply::Code(0)]);
    assert!(matches!(r, Ok(Outcome::Idle)));
    let (_, r) = run(&Operation::Get, vec![BusReply::Text(s("unknown")), BusReply::Code(77)]);
    assert!(matches!(r, Ok(Outcome::Idle)));
}

#[test]
fn get_rejects_unknown_mode_code() {
    let (_, r) = run(&Operation::Get, vec![BusReply::Text(s("scx_lavd")), BusReply::Code(9)]);
    assert!(matches!(r, Err(ClientError::Decode(9))));
}

#[test]
fn get_passes_on_read_failure() {
    let (sent, r) = run(&Operation::Get, vec![BusReply::Failed(bus_error())]);
    assert_eq!(sent.len(), 1);
    match r {
        Err(ClientError::Transport(e)) => {
            assert_eq!(e.name, "org.freedesktop.DBus.Error.NoReply");
            assert_eq!(e.message, "timed out");
        }
        _ => panic!("expected the bus error"),
    }
}

#[test]
fn reply_of_wrong_shape_is_refused() {
    let (_, r) = run(&Operation::Get, vec![BusReply::Code(1)]);
    assert!(matches!(r, Err(ClientError::UnexpectedReply)));
}

#[test]
fn list_strips_prefix_in_order() {
    let (sent, r) = run(
        &Operation::List,
        vec![BusReply::Names(strings(&["scx_rustland", "scx_lavd"]))],
    );
    assert_eq!(sent, vec!["read SupportedSchedulers"]);
    match r {
        Ok(Outcome::Schedulers(v)) => assert_eq!(v, strings(&["rustland", "lavd"])),
        _ => panic!("expected a list"),
    }
}

#[test]
fn list_of_nothing_is_empty() {
    let (_, r) = run(&Operation::List, vec![BusReply::Names(Vec::new())]);
    assert!(matches!(r, Ok(Outcome::Schedulers(v)) if v.is_empty()));
}

#[test]
fn start_rustland_in_auto() {
    let op = Operation::Start { sched: s("rustland"), mode: Some(ScxLoaderMode::Auto) };
    let (sent, r) = run(
        &op,
        vec![BusReply::Done, BusReply::Text(s("scx_rustland")), BusReply::Code(0)],
    );
    assert_eq!(
        sent,
        vec!["call StartScheduler(scx_rustland, 0)", "read CurrentScheduler", "read SchedulerMode"]
    );
    assert_eq!(running(r), (s("rustland"), ScxLoaderMode::Auto));
}

#[test]
fn start_reports_what_the_service_confirms() {
    let op = Operation::Start { sched: s("scx_lavd"), mode: Some(ScxLoaderMode::Server) };
    let (sent, r) = run(
        &op,
        vec![BusReply::Done, BusReply::Text(s("scx_bpfland")), BusReply::Code(2)],
    );
    assert_eq!(sent[0], "call StartScheduler(scx_lavd, 4)");
    assert_eq!(running(r), (s("bpfland"), ScxLoaderMode::Powersave));
}

#[test]
fn start_without_mode_keeps_current_mode() {
    let op = Operation::Start { sched: s("lavd"), mode: None };
    let (sent, r) = run(
        &op,
        vec![BusReply::Code(3), BusReply::Done, BusReply::Text(s("scx_lavd")), BusReply::Code(3)],
    );
    assert_eq!(
        sent,
        vec![
            "read SchedulerMode",
            "call StartScheduler(scx_lavd, 3)",
            "read CurrentScheduler",
            "read SchedulerMode"
        ]
    );
    assert_eq!(running(r), (s("lavd"), ScxLoaderMode::Lowlatency));
}

#[test]
fn start_without_mode_refuses_unknown_current_mode() {
    let op = Operation::Start { sched: s("lavd"), mode: None };
    let (sent, r) = run(&op, vec![BusReply::Code(12)]);
    assert_eq!(sent, vec!["read SchedulerMode"]);
    assert!(matches!(r, Err(ClientError::Decode(12))));
}

#[test]
fn failed_start_call_skips_confirmation() {
    let op = Operation::Start { sched: s("rustland"), mode: Some(ScxLoaderMode::Gaming) };
    let (sent, r) = run(&op, vec![BusReply::Failed(bus_error())]);
    assert_eq!(sent, vec!["call StartScheduler(scx_rustland, 1)"]);
    assert!(matches!(r, Err(ClientError::Transport(e)) if e.message == "timed out"));
}

#[test]
fn start_with_args_returns_args_verbatim() {
    let op = Operation::StartWithArgs { sched: s("foo"), args: strings(&["--slice-us", "5000"]) };
    let (sent, r) = run(&op, vec![BusReply::Done, BusReply::Text(s("scx_foo"))]);
    assert_eq!(
        sent,
        vec!["call StartSchedulerWithArgs(scx_foo, [--slice-us,5000])", "read CurrentScheduler"]
    );
    assert_eq!(with_args(r), (s("foo"), strings(&["--slice-us", "5000"])));
}

#[test]
fn start_with_args_keeps_args_whatever_runs() {
    let op = Operation::StartWithArgs { sched: s("foo"), args: strings(&["--slice-us", "5000"]) };
    let (_, r) = run(&op, vec![BusReply::Done, BusReply::Text(s("scx_other"))]);
    assert_eq!(with_args(r), (s("other"), strings(&["--slice-us", "5000"])));
}

#[test]
fn switch_with_nothing_resolves_from_service() {
    let op = Operation::Switch { sched: None, mode: None };
    let (sent, r) = run(
        &op,
        vec![
            BusReply::Text(s("scx_lavd")),
            BusReply::Code(1),
            BusReply::Done,
            BusReply::Text(s("scx_lavd")),
            BusReply::Code(1),
        ],
    );
    assert_eq!(
        sent,
        vec![
            "read CurrentScheduler",
            "read SchedulerMode",
            "call SwitchScheduler(scx_lavd, 1)",
            "read CurrentScheduler",
            "read SchedulerMode"
        ]
    );
    assert_eq!(running(r), (s("lavd"), ScxLoaderMode::Gaming));
}

#[test]
fn switch_mode_only_resolves_scheduler() {
    let op = Operation::Switch { sched: None, mode: Some(ScxLoaderMode::Powersave) };
    let (sent, _) = run(
        &op,
        vec![
            BusReply::Text(s("scx_bpfland")),
            BusReply::Done,
            BusReply::Text(s("scx_bpfland")),
            BusReply::Code(2),
        ],
    );
    assert_eq!(sent[..2], [s("read CurrentScheduler"), s("call SwitchScheduler(scx_bpfland, 2)")]);
}

#[test]
fn switch_with_args_and_named_scheduler() {
    let op = Operation::SwitchWithArgs { sched: Some(s("lavd")), args: strings(&["--performance"]) };
    let (sent, r) = run(&op, vec![BusReply::Done, BusReply::Text(s("scx_lavd"))]);
    assert_eq!(
        sent,
        vec!["call SwitchSchedulerWithArgs(scx_lavd, [--performance])", "read CurrentScheduler"]
    );
    assert_eq!(with_args(r), (s("lavd"), strings(&["--performance"])));
}

#[test]
fn switch_with_args_resolves_scheduler() {
    let op = Operation::SwitchWithArgs { sched: None, args: Vec::new() };
    let (sent, _) = run(
        &op,
        vec![BusReply::Text(s("scx_rusty")), BusReply::Done, BusReply::Text(s("scx_rusty"))],
    );
    assert_eq!(sent[1], "call SwitchSchedulerWithArgs(scx_rusty, [])");
}

#[test]
fn stop_makes_one_call() {
    let (sent, r) = run(&Operation::Stop, vec![BusReply::Done]);
    assert_eq!(sent, vec!["call StopScheduler()"]);
    assert!(matches!(r, Ok(Outcome::Stopped)));
    let (_, r) = run(&Operation::Stop, vec![BusReply::Failed(bus_error())]);
    assert!(matches!(r, Err(ClientError::Transport(_))));
}

#[test]
fn commands_choose_arguments_over_mode() {
    let c = Commands::Start {
        sched: s("lavd"),
        mode: Some(ScxLoaderMode::Auto),
        args: Some(strings(&["-v"])),
    };
    assert!(matches!(c.into_operation(), Operation::StartWithArgs { sched, args }
        if sched == "lavd" && args == strings(&["-v"])));
    let c = Commands::Switch { sched: None, mode: Some(ScxLoaderMode::Server), args: None };
    assert!(matches!(c.into_operation(),
        Operation::Switch { sched: None, mode: Some(ScxLoaderMode::Server) }));
    assert!(matches!(Commands::Stop.into_operation(), Operation::Stop));
    assert!(matches!(Commands::List.into_operation(), Operation::List));
}

#[test]
fn reply_to_method_must_be_done() {
    let op = Operation::Start { sched: s("lavd"), mode: Some(ScxLoaderMode::Auto) };
    let (_, r) = run(&op, vec![BusReply::Text(s("scx_lavd"))]);
    assert!(matches!(r, Err(ClientError::UnexpectedReply)));
}
