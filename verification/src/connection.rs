use crate::api::ResponseEnvelope;
use crate::commands::ClientRequest;
use crate::events::types::NetworkEvent;
use crate::session::{cat2, cat3};
use vstd::prelude::*;
use vstd::string::*;

verus! {

/// The identifier of the notification shown while a connection is attempted.
pub const NOTIF_ID_CONNECTION_ATTEMPT: &'static str = "notif_connection_attempt";

/// The address that the connection task dials: `ip:port`.
pub fn server_address(server_ip: &str, server_port: &str) -> (r: String)
    ensures
        r@ == server_ip@ + ":"@ + server_port@,
{
    cat3(server_ip, ":", server_port)
}

/// How dialing the server and logging in went.
#[derive(Debug, Clone)]
pub enum ConnectOutcome {
    /// The server accepted the player.
    Connected,
    /// The server refused the login, with its message.
    Refused(String),
    /// The login exchange failed, with the error's description.
    CommunicationError(String),
    /// The server could not be reached, with the error's text.
    TcpError(String),
}

/// The event that reports how connecting went: established for the server and player,
/// or failed with the refusal's message, or with the error described.
pub open spec fn connection_event(
    server_ip: Seq<char>,
    server_port: Seq<char>,
    player_name: Seq<char>,
    outcome: ConnectOutcome,
    event: NetworkEvent,
) -> bool {
    match outcome {
        ConnectOutcome::Connected => event matches NetworkEvent::ConnectionEstablished {
            server_ip: i,
            server_port: p,
            player_name: n,
        } && i@ == server_ip && p@ == server_port && n@ == player_name,
        ConnectOutcome::Refused(message) => event matches NetworkEvent::ConnectionFailed {
            error_message: m,
        } && m@ == message@,
        ConnectOutcome::CommunicationError(detail) => event matches NetworkEvent::ConnectionFailed {
            error_message: m,
        } && m@ == "Communication error: "@ + detail@,
        ConnectOutcome::TcpError(detail) => event matches NetworkEvent::ConnectionFailed {
            error_message: m,
        } && m@ == "TCP error: "@ + detail@,
    }
}

/// The event that the connection task sends once it dialed the server and tried to log in.
pub fn connection_result(
    server_ip: String,
    server_port: String,
    player_name: String,
    outcome: ConnectOutcome,
) -> (r: NetworkEvent)
    ensures
        connection_event(server_ip@, server_port@, player_name@, outcome, r),
{
    match outcome {
        ConnectOutcome::Connected => NetworkEvent::ConnectionEstablished { server_ip, server_port, player_name },
        ConnectOutcome::Refused(message) => NetworkEvent::ConnectionFailed { error_message: message },
        ConnectOutcome::CommunicationError(detail) => NetworkEvent::ConnectionFailed {
            error_message: cat2("Communication error: ", detail.as_str()),
        },
        ConnectOutcome::TcpError(detail) => NetworkEvent::ConnectionFailed {
            error_message: cat2("TCP error: ", detail.as_str()),
        },
    }
}

/// The event that ends the connection task when a request could not be sent.
pub fn request_failed(detail: &str) -> (r: NetworkEvent)
    ensures
        r matches NetworkEvent::ConnectionLost { reason } && reason@ == "Failed to send request: "@ + detail@,
{
    NetworkEvent::ConnectionLost { reason: cat2("Failed to send request: ", detail) }
}

/// How a request handed to the server came back.
#[derive(Debug, Clone)]
pub enum RequestOutcome {
    /// The server answered.
    Answered(ResponseEnvelope),
    /// The request could not be sent, with the error's description.
    Failed(String),
}

/// What the connection task reports to the application.
#[derive(Debug, Clone)]
pub enum TaskReport {
    Response(ResponseEnvelope),
    Network(NetworkEvent),
    /// A request is about to be handed to the server: its identifier and its rendering.
    RequestSent { id: String, text: String },
}

/// What the connection task does once a request came back: it reports the answer and
/// waits for the next request; or it reports the connection as lost and stops.
pub fn after_request(outcome: RequestOutcome) -> (r: (TaskReport, bool))
    ensures
        match outcome {
            RequestOutcome::Answered(envelope) => r.0 == TaskReport::Response(envelope) && r.1,
            RequestOutcome::Failed(detail) => (r.0 matches TaskReport::Network(
                NetworkEvent::ConnectionLost { reason },
            ) && reason@ == "Failed to send request: "@ + detail@) && !r.1,
        },
{
    match outcome {
        RequestOutcome::Answered(envelope) => (TaskReport::Response(envelope), true),
        RequestOutcome::Failed(detail) => (TaskReport::Network(request_failed(detail.as_str())), false),
    }
}

/// Where the connection task is in its life.
#[derive(Debug, Clone, Copy, PartialEq, Eq, Structural)]
pub enum TaskPhase {
    /// Dialing the server and logging in.
    Connecting,
    /// Logged in: carrying out the application's requests one at a time.
    Serving,
    /// Finished: it reports nothing more and carries out no request.
    Stopped,
}

/// What happens to the connection task.
#[derive(Debug, Clone)]
pub enum TaskInput {
    /// Dialing the server and logging in went as `outcome` says.
    Connected { server_ip: String, server_port: String, player_name: String, outcome: ConnectOutcome },
    /// The application handed over a request, with the identifier it is traced under and
    /// its rendering.
    Request { id: String, request: ClientRequest, text: String },
    /// The request being carried out came back.
    Done(RequestOutcome),
}

/// What the connection task does next.
#[derive(Debug, Clone)]
pub enum TaskOutput {
    /// Report this to the application.
    Report(TaskReport),
    /// Hand this request to the server, then report how it came back with `Done`.
    Execute(ClientRequest),
}

/// The phase that the connection task is in after `input`.
pub open spec fn phase_after(phase: TaskPhase, input: TaskInput) -> TaskPhase {
    match (phase, input) {
        (TaskPhase::Connecting, TaskInput::Connected { outcome, .. }) => if outcome is Connected {
            TaskPhase::Serving
        } else {
            TaskPhase::Stopped
        },
        (TaskPhase::Serving, TaskInput::Done(RequestOutcome::Failed(_))) => TaskPhase::Stopped,
        _ => phase,
    }
}

/// What the connection task does on `input` in `phase`.
///
/// Once dialed, it reports how connecting went, and goes on serving only when logged
/// in. Serving, it reports a request as sent before it hands it to the server; then it
/// reports the answer, or reports the connection as lost when the request failed, and
/// stops. Anything else, and anything once stopped, does nothing.
pub open spec fn task_step_done(phase: TaskPhase, input: TaskInput, outputs: Seq<TaskOutput>) -> bool {
    match (phase, input) {
        (TaskPhase::Connecting, TaskInput::Connected { server_ip, server_port, player_name, outcome }) => {
            &&& outputs.len() == 1
            &&& outputs[0] matches TaskOutput::Report(TaskReport::Network(event)) && connection_event(
                server_ip@,
                server_port@,
                player_name@,
                outcome,
                event,
            )
        },
        (TaskPhase::Serving, TaskInput::Request { id, request, text }) => {
            &&& outputs.len() == 2
            &&& outputs[0] matches TaskOutput::Report(TaskReport::RequestSent { id: i, text: t }) && i@ == id@
                && t@ == text@
            &&& outputs[1] == TaskOutput::Execute(request)
        },
        (TaskPhase::Serving, TaskInput::Done(RequestOutcome::Answered(envelope))) => outputs == seq![
            TaskOutput::Report(TaskReport::Response(envelope)),
        ],
        (TaskPhase::Serving, TaskInput::Done(RequestOutcome::Failed(detail))) => {
            &&& outputs.len() == 1
            &&& outputs[0] matches TaskOutput::Report(TaskReport::Network(NetworkEvent::ConnectionLost { reason }))
                && reason@ == "Failed to send request: "@ + detail@
        },
        _ => outputs.len() == 0,
    }
}

/// The connection task's bookkeeping: the phase it is in.
#[derive(Debug)]
pub struct ConnectionTask {
    pub phase: TaskPhase,
}

impl ConnectionTask {
    /// A task that is dialing the server.
    pub fn new() -> (r: Self)
        ensures
            r.phase == TaskPhase::Connecting,
    {
        ConnectionTask { phase: TaskPhase::Connecting }
    }

    /// Whether the task has finished.
    pub fn is_stopped(&self) -> (r: bool)
        ensures
            r == (self.phase == TaskPhase::Stopped),
    {
        self.phase == TaskPhase::Stopped
    }

    /// Takes in what happened, and says what the task does next.
    pub fn step(&mut self, input: TaskInput) -> (outputs: Vec<TaskOutput>)
        ensures
            final(self).phase == phase_after(old(self).phase, input),
            task_step_done(old(self).phase, input, outputs@),
    {
        let ghost input0 = input;
        let mut outputs: Vec<TaskOutput> = Vec::new();
        match (self.phase, input) {
            (TaskPhase::Connecting, TaskInput::Connected { server_ip, server_port, player_name, outcome }) => {
                let connected = match &outcome {
                    ConnectOutcome::Connected => true,
                    _ => false,
                };
                let event = connection_result(server_ip, server_port, player_name, outcome);
                outputs.push(TaskOutput::Report(TaskReport::Network(event)));
                self.phase = if connected { TaskPhase::Serving } else { TaskPhase::Stopped };
            },
            (TaskPhase::Serving, TaskInput::Request { id, request, text }) => {
                outputs.push(TaskOutput::Report(TaskReport::RequestSent { id, text }));
                outputs.push(TaskOutput::Execute(request));
            },
            (TaskPhase::Serving, TaskInput::Done(outcome)) => {
                let (report, keep_going) = after_request(outcome);
                outputs.push(TaskOutput::Report(report));
                if !keep_going {
                    self.phase = TaskPhase::Stopped;
                }
                proof {
                    match input0 {
                        TaskInput::Done(RequestOutcome::Answered(e)) => {
                            assert(outputs@ =~= seq![TaskOutput::Report(TaskReport::Response(e))]);
                        },
                        _ => {},
                    }
                }
            },
            _ => {},
        }
        outputs
    }
}

/// The phase that the connection task is in after `inputs`, one after the other.
pub open spec fn phase_after_all(phase: TaskPhase, inputs: Seq<TaskInput>) -> TaskPhase
    decreases inputs.len(),
{
    if inputs.len() == 0 {
        phase
    } else {
        phase_after(phase_after_all(phase, inputs.drop_last()), inputs.last())
    }
}

/// Whether `outputs[i]` is what the task did on `inputs[i]`, for each `i`, the task
/// starting in `phase`.
pub open spec fn task_ran(phase: TaskPhase, inputs: Seq<TaskInput>, outputs: Seq<Seq<TaskOutput>>) -> bool {
    &&& outputs.len() == inputs.len()
    &&& forall|i: int|
        0 <= i < inputs.len() ==> task_step_done(
            phase_after_all(phase, inputs.take(i)),
            #[trigger] inputs[i],
            outputs[i],
        )
}

proof fn lemma_stopped_stays(inputs: Seq<TaskInput>)
    ensures
        phase_after_all(TaskPhase::Stopped, inputs) == TaskPhase::Stopped,
    decreases inputs.len(),
{
    if inputs.len() > 0 {
        lemma_stopped_stays(inputs.drop_last());
    }
}

proof fn lemma_phase_split(phase: TaskPhase, inputs: Seq<TaskInput>, k: int, j: int)
    requires
        0 <= k < j <= inputs.len(),
    ensures
        phase_after_all(phase, inputs.take(j)) == phase_after_all(
            phase_after_all(phase, inputs.take(k + 1)),
            inputs.subrange(k + 1, j),
        ),
    decreases j - k,
{
    if j == k + 1 {
        assert(inputs.subrange(k + 1, j) =~= Seq::<TaskInput>::empty());
    } else {
        lemma_phase_split(phase, inputs, k, j - 1);
        assert(inputs.take(j).drop_last() =~= inputs.take(j - 1));
        assert(inputs.subrange(k + 1, j).drop_last() =~= inputs.subrange(k + 1, j - 1));
    }
}

/// Over the whole life of the connection task: once a request it carries out has
/// failed, or dialing or logging in has failed, it reports nothing more and carries out
/// no other request, whatever comes after.
pub proof fn law_nothing_after_failure(
    phase: TaskPhase,
    inputs: Seq<TaskInput>,
    outputs: Seq<Seq<TaskOutput>>,
    k: int,
)
    requires
        task_ran(phase, inputs, outputs),
        0 <= k < inputs.len(),
        phase_after(phase_after_all(phase, inputs.take(k)), inputs[k]) == TaskPhase::Stopped,
    ensures
        forall|j: int| k < j < inputs.len() ==> (#[trigger] outputs[j]).len() == 0,
{
    assert forall|j: int| k < j < inputs.len() implies (#[trigger] outputs[j]).len() == 0 by {
        assert(inputs.take(k + 1).drop_last() =~= inputs.take(k));
        lemma_phase_split(phase, inputs, k, j);
        lemma_stopped_stays(inputs.subrange(k + 1, j));
        assert(task_step_done(phase_after_all(phase, inputs.take(j)), inputs[j], outputs[j]));
    }
}

/// Over the whole life of the connection task: every request it carries out was
/// reported as sent, under its identifier, just before; and every report of an answer
/// or of a lost connection comes on the outcome of a request, never with one.
pub proof fn law_sent_before_carried_out(
    phase: TaskPhase,
    inputs: Seq<TaskInput>,
    outputs: Seq<Seq<TaskOutput>>,
    j: int,
    m: int,
)
    requires
        task_ran(phase, inputs, outputs),
        0 <= j < inputs.len(),
        0 <= m < outputs[j].len(),
    ensures
        outputs[j][m] is Execute ==> m == 1 && (inputs[j] matches TaskInput::Request { id, request, .. } && (
            outputs[j][0] matches TaskOutput::Report(TaskReport::RequestSent { id: i, .. }) && i@ == id@)
            && outputs[j][1] == TaskOutput::Execute(request)),
        outputs[j][m] matches TaskOutput::Report(TaskReport::Response(_)) ==> inputs[j] is Done,
{
    assert(task_step_done(phase_after_all(phase, inputs.take(j)), inputs[j], outputs[j]));
}

/// A task that logs in serves: its first report is that the connection is established,
/// and it goes on to carry out requests.
pub proof fn law_login_reported_first(
    server_ip: String,
    server_port: String,
    player_name: String,
    outputs: Seq<TaskOutput>,
)
    requires
        task_step_done(
            TaskPhase::Connecting,
            TaskInput::Connected { server_ip, server_port, player_name, outcome: ConnectOutcome::Connected },
            outputs,
        ),
    ensures
        outputs.len() == 1,
        outputs[0] matches TaskOutput::Report(TaskReport::Network(NetworkEvent::ConnectionEstablished {
            server_ip: i,
            server_port: p,
            player_name: n,
        })) && i@ == server_ip@ && p@ == server_port@ && n@ == player_name@,
        phase_after(
            TaskPhase::Connecting,
            TaskInput::Connected { server_ip, server_port, player_name, outcome: ConnectOutcome::Connected },
        ) == TaskPhase::Serving,
{
}

} // verus!
