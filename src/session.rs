use vstd::prelude::*;

use crate::scx_loader::{
    add_prefix, ensure_scx_prefix, lemma_mode_round_trip, lemma_prefix_round_trip, remove_scx_prefix,
    scx_prefix, spec_has_prefix, strip_prefix, ScxLoaderMode, ScxMethods, ScxProperties,
};

verus! {

/// A failure of one read or call on the bus, as the bus reported it.
pub struct TransportError {
    pub name: String,
    pub message: String,
}

impl View for TransportError {
    type V = (Seq<char>, Seq<char>);

    open spec fn view(&self) -> (Seq<char>, Seq<char>) {
        (self.name@, self.message@)
    }
}

impl TransportError {
    pub fn duplicate(&self) -> (r: TransportError)
        ensures
            r@ == self@,
    {
        TransportError { name: self.name.clone(), message: self.message.clone() }
    }
}

/// Why an operation of the client failed.
pub enum ClientError {
    /// A read or call failed on the bus; passed on as it came.
    Transport(TransportError),
    /// The service reported a mode code outside the known profiles.
    Decode(u32),
    /// A reply whose shape does not fit what was asked.
    UnexpectedReply,
}

pub enum ClientErrorModel {
    Transport(Seq<char>, Seq<char>),
    Decode(u32),
    UnexpectedReply,
}

impl View for ClientError {
    type V = ClientErrorModel;

    open spec fn view(&self) -> ClientErrorModel {
        match self {
            ClientError::Transport(e) => ClientErrorModel::Transport(e.name@, e.message@),
            ClientError::Decode(c) => ClientErrorModel::Decode(*c),
            ClientError::UnexpectedReply => ClientErrorModel::UnexpectedReply,
        }
    }
}

/// The strings of a list of names.
pub open spec fn names_view(v: Seq<String>) -> Seq<Seq<char>> {
    v.map_values(|s: String| s@)
}

/// What a caller asks of the service. Omitted names and modes are resolved
/// from the service's current state.
#[allow(inconsistent_fields)]
pub enum Operation {
    Get,
    List,
    Start { sched: String, mode: Option<ScxLoaderMode> },
    StartWithArgs { sched: String, args: Vec<String> },
    Switch { sched: Option<String>, mode: Option<ScxLoaderMode> },
    SwitchWithArgs { sched: Option<String>, args: Vec<String> },
    Stop,
}

/// The parameters of a method call.
pub enum CallArgs {
    Empty,
    NameAndMode(String, u32),
    NameAndArgs(String, Vec<String>),
}

/// One request to the service: a property read or a method call.
pub enum BusCall {
    Read(ScxProperties),
    Invoke(ScxMethods, CallArgs),
}

pub enum CallArgsModel {
    Empty,
    NameAndMode(Seq<char>, u32),
    NameAndArgs(Seq<char>, Seq<Seq<char>>),
}

pub enum BusCallModel {
    Read(ScxProperties),
    Invoke(ScxMethods, CallArgsModel),
}

impl View for BusCall {
    type V = BusCallModel;

    open spec fn view(&self) -> BusCallModel {
        match self {
            BusCall::Read(p) => BusCallModel::Read(*p),
            BusCall::Invoke(m, CallArgs::Empty) => BusCallModel::Invoke(*m, CallArgsModel::Empty),
            BusCall::Invoke(m, CallArgs::NameAndMode(n, c)) => BusCallModel::Invoke(
                *m,
                CallArgsModel::NameAndMode(n@, *c),
            ),
            BusCall::Invoke(m, CallArgs::NameAndArgs(n, a)) => BusCallModel::Invoke(
                *m,
                CallArgsModel::NameAndArgs(n@, names_view(a@)),
            ),
        }
    }
}

/// The service's answer to one request.
pub enum BusReply {
    /// The value of a string property.
    Text(String),
    /// The value of an integer property.
    Code(u32),
    /// The value of a list property.
    Names(Vec<String>),
    /// A method call returned.
    Done,
    /// The request failed.
    Failed(TransportError),
}

/// What an operation that succeeded observed.
pub enum Outcome {
    /// No scheduler is running.
    Idle,
    /// The named scheduler runs in the given mode.
    Running(String, ScxLoaderMode),
    /// The schedulers that the service supports, in its order.
    Schedulers(Vec<String>),
    /// The named scheduler runs, started with these arguments.
    RunningWithArgs(String, Vec<String>),
    /// The scheduler was stopped.
    Stopped,
}

pub enum OutcomeModel {
    Idle,
    Running(Seq<char>, ScxLoaderMode),
    Schedulers(Seq<Seq<char>>),
    RunningWithArgs(Seq<char>, Seq<Seq<char>>),
    Stopped,
}

impl View for Outcome {
    type V = OutcomeModel;

    open spec fn view(&self) -> OutcomeModel {
        match self {
            Outcome::Idle => OutcomeModel::Idle,
            Outcome::Running(s, m) => OutcomeModel::Running(s@, *m),
            Outcome::Schedulers(v) => OutcomeModel::Schedulers(names_view(v@)),
            Outcome::RunningWithArgs(s, a) => OutcomeModel::RunningWithArgs(s@, names_view(a@)),
            Outcome::Stopped => OutcomeModel::Stopped,
        }
    }
}

/// What the client does next: send a request, or finish with a result.
pub enum Step {
    Send(BusCall),
    Finish(Result<Outcome, ClientError>),
}

pub enum StepModel {
    Send(BusCallModel),
    Finish(Result<OutcomeModel, ClientErrorModel>),
}

impl View for Step {
    type V = StepModel;

    open spec fn view(&self) -> StepModel {
        match self {
            Step::Send(c) => StepModel::Send(c@),
            Step::Finish(Ok(o)) => StepModel::Finish(Ok(o@)),
            Step::Finish(Err(e)) => StepModel::Finish(Err(e@)),
        }
    }
}

/// The sentinel that the service reports as current scheduler when none runs.
pub open spec fn idle_marker() -> Seq<char> {
    seq!['u', 'n', 'k', 'n', 'o', 'w', 'n']
}

/// Whether a reply has the shape that the request asks for.
pub open spec fn fits(call: BusCallModel, reply: BusReply) -> bool {
    match call {
        BusCallModel::Read(ScxProperties::CurrentScheduler) => reply is Text,
        BusCallModel::Read(ScxProperties::SchedulerMode) => reply is Code,
        BusCallModel::Read(ScxProperties::SupportedSchedulers) => reply is Names,
        BusCallModel::Invoke(_, _) => reply is Done,
    }
}

/// Where the `i`-th request ends the operation early: it is still to be sent,
/// it failed, or its reply does not fit. `None` where its reply lets the
/// operation go on.
pub open spec fn interruption(rs: Seq<BusReply>, i: int, call: BusCallModel) -> Option<StepModel> {
    if i >= rs.len() {
        Some(StepModel::Send(call))
    } else if rs[i] is Failed {
        Some(StepModel::Finish(Err(ClientErrorModel::Transport(rs[i]->Failed_0@.0, rs[i]->Failed_0@.1))))
    } else if fits(call, rs[i]) {
        None
    } else {
        Some(StepModel::Finish(Err(ClientErrorModel::UnexpectedReply)))
    }
}

/// The `i`-th request is `call`; once its reply has come and fits, the
/// operation goes on as `then` says.
pub open spec fn exchange(rs: Seq<BusReply>, i: int, call: BusCallModel, then: StepModel) -> StepModel {
    match interruption(rs, i, call) {
        Some(early) => early,
        None => then,
    }
}

pub open spec fn text_of(r: BusReply) -> Seq<char> {
    r->Text_0@
}

pub open spec fn code_of(r: BusReply) -> u32 {
    r->Code_0
}

pub open spec fn read(p: ScxProperties) -> BusCallModel {
    BusCallModel::Read(p)
}

pub open spec fn finish_ok(o: OutcomeModel) -> StepModel {
    StepModel::Finish(Ok(o))
}

/// Finishes with the scheduler `name` in the mode of `code`, or fails to decode.
pub open spec fn running(name: Seq<char>, code: u32) -> StepModel {
    match ScxLoaderMode::decode(code) {
        Some(m) => finish_ok(OutcomeModel::Running(strip_prefix(name), m)),
        None => StepModel::Finish(Err(ClientErrorModel::Decode(code))),
    }
}

/// The state reported by `get`.
pub open spec fn observed(name: Seq<char>, code: u32) -> StepModel {
    if name == idle_marker() {
        finish_ok(OutcomeModel::Idle)
    } else {
        running(name, code)
    }
}

/// From request `i` on: re-read the scheduler and the mode, and report them.
pub open spec fn confirm_mode(rs: Seq<BusReply>, i: int) -> StepModel {
    exchange(
        rs,
        i,
        read(ScxProperties::CurrentScheduler),
        exchange(
            rs,
            i + 1,
            read(ScxProperties::SchedulerMode),
            running(text_of(rs[i]), code_of(rs[i + 1])),
        ),
    )
}

/// From request `i` on: call `method` with `name` and mode `m`, then confirm.
pub open spec fn call_with_mode(
    rs: Seq<BusReply>,
    i: int,
    method: ScxMethods,
    name: Seq<char>,
    m: ScxLoaderMode,
) -> StepModel {
    exchange(
        rs,
        i,
        BusCallModel::Invoke(method, CallArgsModel::NameAndMode(add_prefix(name), m.spec_code())),
        confirm_mode(rs, i + 1),
    )
}

/// From request `i` on: resolve an omitted mode from the service, then call.
pub open spec fn resolve_mode(
    rs: Seq<BusReply>,
    i: int,
    method: ScxMethods,
    name: Seq<char>,
    mode: Option<ScxLoaderMode>,
) -> StepModel {
    match mode {
        Some(m) => call_with_mode(rs, i, method, name, m),
        None => exchange(
            rs,
            i,
            read(ScxProperties::SchedulerMode),
            match ScxLoaderMode::decode(code_of(rs[i])) {
                Some(m) => call_with_mode(rs, i + 1, method, name, m),
                None => StepModel::Finish(Err(ClientErrorModel::Decode(code_of(rs[i])))),
            },
        ),
    }
}

/// From request `i` on: call `method` with `name` and `args`, re-read the
/// scheduler, and report it with the arguments as given.
pub open spec fn call_with_args(
    rs: Seq<BusReply>,
    i: int,
    method: ScxMethods,
    name: Seq<char>,
    args: Seq<Seq<char>>,
) -> StepModel {
    exchange(
        rs,
        i,
        BusCallModel::Invoke(method, CallArgsModel::NameAndArgs(add_prefix(name), args)),
        exchange(
            rs,
            i + 1,
            read(ScxProperties::CurrentScheduler),
            finish_ok(OutcomeModel::RunningWithArgs(strip_prefix(text_of(rs[i + 1])), args)),
        ),
    )
}

/// The client's protocol: given the replies to the requests made so far, in
/// order, what it does next.
pub open spec fn protocol(op: Operation, rs: Seq<BusReply>) -> StepModel {
    match op {
        Operation::Get => exchange(
            rs,
            0,
            read(ScxProperties::CurrentScheduler),
            exchange(
                rs,
                1,
                read(ScxProperties::SchedulerMode),
                observed(text_of(rs[0]), code_of(rs[1])),
            ),
        ),
        Operation::List => exchange(
            rs,
            0,
            read(ScxProperties::SupportedSchedulers),
            finish_ok(
                OutcomeModel::Schedulers(names_view(rs[0]->Names_0@).map_values(|s: Seq<char>| strip_prefix(s))),
            ),
        ),
        Operation::Start { sched, mode } => resolve_mode(rs, 0, ScxMethods::StartScheduler, sched@, mode),
        Operation::StartWithArgs { sched, args } => call_with_args(
            rs,
            0,
            ScxMethods::StartSchedulerWithArgs,
            sched@,
            names_view(args@),
        ),
        Operation::Switch { sched, mode } => match sched {
            Some(name) => resolve_mode(rs, 0, ScxMethods::SwitchScheduler, name@, mode),
            None => exchange(
                rs,
                0,
                read(ScxProperties::CurrentScheduler),
                resolve_mode(rs, 1, ScxMethods::SwitchScheduler, strip_prefix(text_of(rs[0])), mode),
            ),
        },
        Operation::SwitchWithArgs { sched, args } => match sched {
            Some(name) => call_with_args(
                rs,
                0,
                ScxMethods::SwitchSchedulerWithArgs,
                name@,
                names_view(args@),
            ),
            None => exchange(
                rs,
                0,
                read(ScxProperties::CurrentScheduler),
                call_with_args(
                    rs,
                    1,
                    ScxMethods::SwitchSchedulerWithArgs,
                    strip_prefix(text_of(rs[0])),
                    names_view(args@),
                ),
            ),
        },
        Operation::Stop => exchange(
            rs,
            0,
            BusCallModel::Invoke(ScxMethods::StopScheduler, CallArgsModel::Empty),
            finish_ok(OutcomeModel::Stopped),
        ),
    }
}

fn copy_names(v: &Vec<String>) -> (r: Vec<String>)
    ensures
        r@ == v@,
{
    let mut out: Vec<String> = Vec::new();
    let mut i: usize = 0;
    while i < v.len()
        invariant
            i <= v@.len(),
            out@ == v@.subrange(0, i as int),
        decreases v@.len() - i,
    {
        out.push(v[i].clone());
        i = i + 1;
        assert(out@ =~= v@.subrange(0, i as int));
    }
    assert(v@.subrange(0, v@.len() as int) =~= v@);
    out
}

fn strip_all(v: &Vec<String>) -> (r: Vec<String>)
    ensures
        names_view(r@) == names_view(v@).map_values(|s: Seq<char>| strip_prefix(s)),
{
    let mut out: Vec<String> = Vec::new();
    let mut i: usize = 0;
    while i < v.len()
        invariant
            i <= v@.len(),
            out@.len() == i,
            forall|j: int| 0 <= j < i ==> #[trigger] out@[j]@ == strip_prefix(v@[j]@),
        decreases v@.len() - i,
    {
        out.push(remove_scx_prefix(v[i].clone()));
        i = i + 1;
    }
    assert(names_view(out@) =~= names_view(v@).map_values(|s: Seq<char>| strip_prefix(s)));
    out
}

fn is_idle_marker(name: &String) -> (r: bool)
    ensures
        r == (name@ == idle_marker()),
{
    let marker = String::from_str("unknown");
    proof {
        reveal_strlit("unknown");
        assert(marker@ =~= idle_marker());
    }
    *name == marker
}

fn reply_fits(call: &BusCall, reply: &BusReply) -> (r: bool)
    ensures
        r == fits(call@, *reply),
{
    match call {
        BusCall::Read(ScxProperties::CurrentScheduler) => matches!(reply, BusReply::Text(_)),
        BusCall::Read(ScxProperties::SchedulerMode) => matches!(reply, BusReply::Code(_)),
        BusCall::Read(ScxProperties::SupportedSchedulers) => matches!(reply, BusReply::Names(_)),
        BusCall::Invoke(_, _) => matches!(reply, BusReply::Done),
    }
}

fn interrupt(rs: &Vec<BusReply>, i: usize, call: BusCall) -> (r: Option<Step>)
    ensures
        r is Some <==> interruption(rs@, i as int, call@) is Some,
        r matches Some(st) ==> st@ == interruption(rs@, i as int, call@)->0,
{
    if i >= rs.len() {
        return Some(Step::Send(call));
    }
    match &rs[i] {
        BusReply::Failed(e) => Some(Step::Finish(Err(ClientError::Transport(e.duplicate())))),
        reply => {
            if reply_fits(&call, reply) {
                None
            } else {
                Some(Step::Finish(Err(ClientError::UnexpectedReply)))
            }
        },
    }
}

fn text_at(rs: &Vec<BusReply>, i: usize) -> (r: String)
    requires
        i < rs@.len(),
        rs@[i as int] is Text,
    ensures
        r@ == text_of(rs@[i as int]),
{
    match &rs[i] {
        BusReply::Text(s) => s.clone(),
        _ => String::new(),
    }
}

fn code_at(rs: &Vec<BusReply>, i: usize) -> (r: u32)
    requires
        i < rs@.len(),
        rs@[i as int] is Code,
    ensures
        r == code_of(rs@[i as int]),
{
    match &rs[i] {
        BusReply::Code(c) => *c,
        _ => 0,
    }
}

fn running_step(name: String, code: u32) -> (r: Step)
    ensures
        r@ == running(name@, code),
{
    match ScxLoaderMode::from_u32(code) {
        Some(m) => Step::Finish(Ok(Outcome::Running(remove_scx_prefix(name), m))),
        None => Step::Finish(Err(ClientError::Decode(code))),
    }
}

fn confirm_mode_step(rs: &Vec<BusReply>, i: usize) -> (r: Step)
    requires
        i <= 8,
    ensures
        r@ == confirm_mode(rs@, i as int),
{
    if let Some(st) = interrupt(rs, i, BusCall::Read(ScxProperties::CurrentScheduler)) {
        return st;
    }
    if let Some(st) = interrupt(rs, i + 1, BusCall::Read(ScxProperties::SchedulerMode)) {
        return st;
    }
    running_step(text_at(rs, i), code_at(rs, i + 1))
}

fn call_with_mode_step(
    rs: &Vec<BusReply>,
    i: usize,
    method: ScxMethods,
    name: &String,
    m: ScxLoaderMode,
) -> (r: Step)
    requires
        i <= 7,
    ensures
        r@ == call_with_mode(rs@, i as int, method, name@, m),
{
    let call = BusCall::Invoke(
        method,
        CallArgs::NameAndMode(ensure_scx_prefix(name.clone()), m.as_u32()),
    );
    if let Some(st) = interrupt(rs, i, call) {
        return st;
    }
    confirm_mode_step(rs, i + 1)
}

fn resolve_mode_step(
    rs: &Vec<BusReply>,
    i: usize,
    method: ScxMethods,
    name: &String,
    mode: Option<ScxLoaderMode>,
) -> (r: Step)
    requires
        i <= 6,
    ensures
        r@ == resolve_mode(rs@, i as int, method, name@, mode),
{
    match mode {
        Some(m) => call_with_mode_step(rs, i, method, name, m),
        None => {
            if let Some(st) = interrupt(rs, i, BusCall::Read(ScxProperties::SchedulerMode)) {
                return st;
            }
            let code = code_at(rs, i);
            match ScxLoaderMode::from_u32(code) {
                Some(m) => call_with_mode_step(rs, i + 1, method, name, m),
                None => Step::Finish(Err(ClientError::Decode(code))),
            }
        },
    }
}

fn call_with_args_step(
    rs: &Vec<BusReply>,
    i: usize,
    method: ScxMethods,
    name: &String,
    args: &Vec<String>,
) -> (r: Step)
    requires
        i <= 8,
    ensures
        r@ == call_with_args(rs@, i as int, method, name@, names_view(args@)),
{
    let call = BusCall::Invoke(
        method,
        CallArgs::NameAndArgs(ensure_scx_prefix(name.clone()), copy_names(args)),
    );
    if let Some(st) = interrupt(rs, i, call) {
        return st;
    }
    if let Some(st) = interrupt(rs, i + 1, BusCall::Read(ScxProperties::CurrentScheduler)) {
        return st;
    }
    let current = remove_scx_prefix(text_at(rs, i + 1));
    Step::Finish(Ok(Outcome::RunningWithArgs(current, copy_names(args))))
}

/// What the client does next for `op`, given the replies to the requests that
/// it has made so far, in order.
///
/// Run an operation by starting with no replies, performing each request that
/// comes back and appending its reply, until a result comes back.
pub fn next_step(op: &Operation, replies: &Vec<BusReply>) -> (r: Step)
    ensures
        r@ == protocol(*op, replies@),
{
    match op {
        Operation::Get => {
            if let Some(st) = interrupt(replies, 0, BusCall::Read(ScxProperties::CurrentScheduler)) {
                return st;
            }
            if let Some(st) = interrupt(replies, 1, BusCall::Read(ScxProperties::SchedulerMode)) {
                return st;
            }
            let name = text_at(replies, 0);
            if is_idle_marker(&name) {
                Step::Finish(Ok(Outcome::Idle))
            } else {
                running_step(name, code_at(replies, 1))
            }
        },
        Operation::List => {
            if let Some(st) = interrupt(replies, 0, BusCall::Read(ScxProperties::SupportedSchedulers)) {
                return st;
            }
            match &replies[0] {
                BusReply::Names(v) => Step::Finish(Ok(Outcome::Schedulers(strip_all(v)))),
                _ => Step::Finish(Err(ClientError::UnexpectedReply)),
            }
        },
        Operation::Start { sched, mode } => resolve_mode_step(replies, 0, ScxMethods::StartScheduler, sched, *mode),
        Operation::StartWithArgs { sched, args } => call_with_args_step(
            replies,
            0,
            ScxMethods::StartSchedulerWithArgs,
            sched,
            args,
        ),
        Operation::Switch { sched, mode } => match sched {
            Some(name) => resolve_mode_step(replies, 0, ScxMethods::SwitchScheduler, name, *mode),
            None => {
                if let Some(st) = interrupt(replies, 0, BusCall::Read(ScxProperties::CurrentScheduler)) {
                    return st;
                }
                let name = remove_scx_prefix(text_at(replies, 0));
                resolve_mode_step(replies, 1, ScxMethods::SwitchScheduler, &name, *mode)
            },
        },
        Operation::SwitchWithArgs { sched, args } => match sched {
            Some(name) => call_with_args_step(
                replies,
                0,
                ScxMethods::SwitchSchedulerWithArgs,
                name,
                args,
            ),
            None => {
                if let Some(st) = interrupt(replies, 0, BusCall::Read(ScxProperties::CurrentScheduler)) {
                    return st;
                }
                let name = remove_scx_prefix(text_at(replies, 0));
                call_with_args_step(replies, 1, ScxMethods::SwitchSchedulerWithArgs, &name, args)
            },
        },
        Operation::Stop => {
            let call = BusCall::Invoke(ScxMethods::StopScheduler, CallArgs::Empty);
            if let Some(st) = interrupt(replies, 0, call) {
                return st;
            }
            Step::Finish(Ok(Outcome::Stopped))
        },
    }
}

/// Every operation ends after at most five requests: with five replies in hand
/// the client has a result, whatever they hold.
pub proof fn lemma_exchange_is_bounded(op: Operation, rs: Seq<BusReply>)
    requires
        rs.len() >= 5,
    ensures
        protocol(op, rs) is Finish,
{
}

/// When the service reports the sentinel as current scheduler, `get` reports
/// that no scheduler runs, whatever the mode code: never a scheduler of that
/// name.
pub proof fn lemma_get_reports_idle(name: String, code: u32)
    requires
        name@ == idle_marker(),
    ensures
        protocol(Operation::Get, seq![BusReply::Text(name), BusReply::Code(code)])
            == finish_ok(OutcomeModel::Idle),
{
}

/// Starting an unprefixed scheduler in a given mode first calls the start
/// method with the prefixed name and the mode's code; when the confirming reads
/// report that scheduler and mode, the result is the unprefixed name and the
/// mode.
pub proof fn lemma_start_sends_prefixed_name(sched: String, m: ScxLoaderMode, wire: String)
    requires
        !spec_has_prefix(sched@),
        wire@ == scx_prefix() + sched@,
    ensures
        protocol(Operation::Start { sched, mode: Some(m) }, seq![]) == StepModel::Send(
            BusCallModel::Invoke(
                ScxMethods::StartScheduler,
                CallArgsModel::NameAndMode(scx_prefix() + sched@, m.spec_code()),
            ),
        ),
        protocol(
            Operation::Start { sched, mode: Some(m) },
            seq![BusReply::Done, BusReply::Text(wire), BusReply::Code(m.spec_code())],
        ) == finish_ok(OutcomeModel::Running(sched@, m)),
{
    lemma_prefix_round_trip(sched@);
}

/// `switch` with neither scheduler nor mode first reads both from the service,
/// and then calls the switch method with what it read: the current scheduler's
/// name, normalised, and the current mode's code. A current wire name with a
/// single prefix is sent back unchanged.
pub proof fn lemma_switch_resolves_from_service(current: String, code: u32)
    ensures
        protocol(Operation::Switch { sched: None, mode: None }, seq![]) == StepModel::Send(
            read(ScxProperties::CurrentScheduler),
        ),
        protocol(
            Operation::Switch { sched: None, mode: None },
            seq![BusReply::Text(current)],
        ) == StepModel::Send(read(ScxProperties::SchedulerMode)),
        ScxLoaderMode::decode(code) is Some ==> protocol(
            Operation::Switch { sched: None, mode: None },
            seq![BusReply::Text(current), BusReply::Code(code)],
        ) == StepModel::Send(
            BusCallModel::Invoke(
                ScxMethods::SwitchScheduler,
                CallArgsModel::NameAndMode(add_prefix(strip_prefix(current@)), code),
            ),
        ),
        spec_has_prefix(current@) && !spec_has_prefix(strip_prefix(current@)) ==> add_prefix(
            strip_prefix(current@),
        ) == current@,
{
    let c = current@;
    if spec_has_prefix(c) {
        assert(scx_prefix() + strip_prefix(c) =~= c);
    }
    if let Some(m) = ScxLoaderMode::decode(code) {
        lemma_mode_round_trip(m);
    }
}

/// `list` keeps the service's order and strips the prefix from every entry.
pub proof fn lemma_list_strips_in_order(names: Vec<String>)
    ensures
        protocol(Operation::List, seq![BusReply::Names(names)]) matches StepModel::Finish(
            Ok(OutcomeModel::Schedulers(out)),
        ) && out.len() == names@.len() && forall|j: int|
            0 <= j < out.len() ==> #[trigger] out[j] == strip_prefix(names@[j]@),
{
}

/// A failed start call ends `start` with that very failure: no confirming read
/// follows, whatever replies come after it.
pub proof fn lemma_failed_start_call_ends_start(
    sched: String,
    mode: Option<ScxLoaderMode>,
    code: u32,
    e: TransportError,
    later: Seq<BusReply>,
)
    requires
        mode is None ==> ScxLoaderMode::decode(code) is Some,
    ensures
        ({
            let before = if mode is Some {
                seq![]
            } else {
                seq![BusReply::Code(code)]
            };
            protocol(
                Operation::Start { sched, mode },
                before + seq![BusReply::Failed(e)] + later,
            ) == StepModel::Finish(Err(ClientErrorModel::Transport(e@.0, e@.1)))
        }),
{
    let before: Seq<BusReply> = if mode is Some {
        seq![]
    } else {
        seq![BusReply::Code(code)]
    };
    let rs = before + seq![BusReply::Failed(e)] + later;
    assert(rs[before.len() as int] == BusReply::Failed(e));
    if mode is None {
        assert(rs[0] == BusReply::Code(code));
    }
}

/// `start_with_args` reports the arguments exactly as the caller gave them,
/// with whatever scheduler the service then reports as current.
pub proof fn lemma_start_with_args_keeps_args(sched: String, args: Vec<String>, current: String)
    ensures
        protocol(Operation::StartWithArgs { sched, args }, seq![]) == StepModel::Send(
            BusCallModel::Invoke(
                ScxMethods::StartSchedulerWithArgs,
                CallArgsModel::NameAndArgs(add_prefix(sched@), names_view(args@)),
            ),
        ),
        protocol(
            Operation::StartWithArgs { sched, args },
            seq![BusReply::Done, BusReply::Text(current)],
        ) == finish_ok(OutcomeModel::RunningWithArgs(strip_prefix(current@), names_view(args@))),
{
}

} // verus!
