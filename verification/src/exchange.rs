//! One command exchange, taken step by step.
//!
//! An [`Exchange`] owns the decisions of a command: what the link has to do
//! next, and what each outcome means. A driver owns the link. It carries out
//! the [`Action`] that the exchange hands it, reports what happened as an
//! [`Event`], and goes on until the exchange is done:
//!
//! 1. the command frame is sent;
//! 2. the device acknowledges it;
//! 3. the payload of the data phase, if there is one, is sent or received;
//! 4. the device acknowledges the data phase.
//!
//! The first outcome that is not the one due ends the exchange with an error.

use vstd::prelude::*;
use crate::command::{Command, CommandView, DataProc, DataProcView};
use crate::error::{Error, Stage};
use crate::isp::{CommandTag, ResponseCode};

verus! {

/// What the driver has to do on the link.
#[derive(Clone, Debug, PartialEq, Eq)]
pub enum Action {
    /// Send the command frame made of `tag` and `args`.
    SendCommand { tag: CommandTag, args: Vec<u32> },
    /// Read one response frame; `expected` is the code that is due.
    ReadResponse { expected: ResponseCode },
    /// Send `data` as the payload of the data phase.
    SendData { data: Vec<u8> },
    /// Read `cnt` bytes of payload.
    RecvData { cnt: u32 },
}

/// The mathematical value of an [`Action`].
pub enum ActionView {
    SendCommand { tag: CommandTag, args: Seq<u32> },
    ReadResponse { expected: ResponseCode },
    SendData { data: Seq<u8> },
    RecvData { cnt: u32 },
}

impl View for Action {
    type V = ActionView;

    open spec fn view(&self) -> ActionView {
        match *self {
            Action::SendCommand { tag, args } => ActionView::SendCommand { tag, args: args@ },
            Action::ReadResponse { expected } => ActionView::ReadResponse { expected },
            Action::SendData { data } => ActionView::SendData { data: data@ },
            Action::RecvData { cnt } => ActionView::RecvData { cnt },
        }
    }
}

/// What the driver saw on the link when it carried out an action.
#[derive(Clone, Debug, PartialEq, Eq)]
pub enum Event {
    /// The frame or payload went out.
    Sent,
    /// A response frame came in, carrying `code`.
    Response { code: ResponseCode },
    /// Payload came in.
    Data { bytes: Vec<u8> },
    /// The link failed: the write or read returned an error or timed out.
    Failed,
}

/// The mathematical value of an [`Event`].
pub enum EventView {
    Sent,
    Response { code: ResponseCode },
    Data { bytes: Seq<u8> },
    Failed,
}

impl View for Event {
    type V = EventView;

    open spec fn view(&self) -> EventView {
        match *self {
            Event::Sent => EventView::Sent,
            Event::Response { code } => EventView::Response { code },
            Event::Data { bytes } => EventView::Data { bytes: bytes@ },
            Event::Failed => EventView::Failed,
        }
    }
}

/// How a command ends: with the payload received, if it had a receive
/// phase, or with the first failure.
pub type Outcome = Result<Option<Vec<u8>>, Error>;

/// The mathematical value of an [`Outcome`].
pub type OutcomeView = Result<Option<Seq<u8>>, Error>;

/// The value of an outcome, with the payload as a sequence of bytes.
pub open spec fn outcome_view(outcome: Outcome) -> OutcomeView {
    match outcome {
        Ok(Some(bytes)) => Ok(Some(bytes@)),
        Ok(None) => Ok(None),
        Err(e) => Err(e),
    }
}

/// Everything that a command puts on the link when nothing fails, in order:
/// the command frame, its acknowledgement, and for a command with a data
/// phase the payload and the second acknowledgement.
pub open spec fn plan(command: CommandView) -> Seq<ActionView> {
    let head = seq![
        ActionView::SendCommand { tag: command.tag, args: command.args },
        ActionView::ReadResponse { expected: command.command_resp },
    ];
    match command.data {
        DataProcView::NoData => head,
        DataProcView::SendData { code, data } => head.push(ActionView::SendData { data }).push(
            ActionView::ReadResponse { expected: code },
        ),
        DataProcView::RecvData { code, cnt } => head.push(ActionView::RecvData { cnt }).push(
            ActionView::ReadResponse { expected: code },
        ),
    }
}

/// Whether `event` is the outcome that lets the exchange go on after
/// `action`: the frame or payload went out, the response carries the code
/// that was due, or the payload has the length that was declared.
pub open spec fn answers(action: ActionView, event: EventView) -> bool {
    match action {
        ActionView::SendCommand { .. } => event is Sent,
        ActionView::ReadResponse { expected } => event == (EventView::Response { code: expected }),
        ActionView::SendData { .. } => event is Sent,
        ActionView::RecvData { cnt } => event matches EventView::Data { bytes } && bytes.len() == cnt,
    }
}

/// The error with which the exchange ends when `event` does not answer
/// `action`, the action of `stage`.
pub open spec fn failure(action: ActionView, stage: Stage, event: EventView) -> Error {
    match (action, event) {
        (_, EventView::Failed) => Error::Transport { stage },
        (ActionView::ReadResponse { expected }, EventView::Response { code }) => {
            Error::UnexpectedResponse { stage, expected, observed: code }
        },
        (ActionView::RecvData { cnt }, EventView::Data { bytes }) => {
            Error::PayloadLength { declared: cnt, received: bytes.len() as usize }
        },
        _ => Error::UnexpectedEvent { stage },
    }
}

/// The mathematical value of an [`Exchange`]: the command, the stage whose
/// action the driver is carrying out, and the payload received so far.
pub struct ExchangeView {
    pub command: CommandView,
    pub stage: Stage,
    pub payload: Option<Seq<u8>>,
}

/// The mathematical value of a [`Step`].
pub enum StepView {
    Next { exchange: ExchangeView, action: ActionView },
    Done { result: OutcomeView },
}

impl ExchangeView {
    /// The exchange of `command` before its first outcome is in.
    pub open spec fn start(command: CommandView) -> ExchangeView {
        ExchangeView { command, stage: Stage::Command, payload: None }
    }

    /// The stage belongs to the command, and there is a payload exactly
    /// when the receive phase has delivered one of the declared length.
    pub open spec fn wf(self) -> bool {
        &&& self.stage.index() < plan(self.command).len()
        &&& match self.payload {
            Some(bytes) => {
                &&& self.stage is DataAck
                &&& self.command.data matches DataProcView::RecvData { cnt, .. }
                &&& bytes.len() == cnt
            },
            None => !(self.stage is DataAck && self.command.data is RecvData),
        }
    }

    /// The action that the driver is carrying out.
    pub open spec fn pending(self) -> ActionView {
        plan(self.command)[self.stage.index() as int]
    }

    /// What follows when the driver reports `event`. An event that answers
    /// the pending action moves the exchange to the next action of the
    /// plan, or ends it with the payload when the plan is through. Any
    /// other event ends it with an error.
    pub open spec fn step(self, event: EventView) -> StepView {
        if answers(self.pending(), event) {
            let payload = match event {
                EventView::Data { bytes } => Some(bytes),
                _ => self.payload,
            };
            if self.stage.index() + 1 < plan(self.command).len() {
                StepView::Next {
                    exchange: ExchangeView {
                        command: self.command,
                        stage: self.stage.next(),
                        payload,
                    },
                    action: plan(self.command)[self.stage.index() as int + 1],
                }
            } else {
                StepView::Done { result: Ok(payload) }
            }
        } else {
            StepView::Done { result: Err(failure(self.pending(), self.stage, event)) }
        }
    }
}

/// What the exchange waits for, with what it still needs to go on.
enum Pending {
    CommandSent { command_resp: ResponseCode, data: DataProc },
    CommandAck { command_resp: ResponseCode, data: DataProc },
    DataSent { code: ResponseCode },
    DataReceived { code: ResponseCode, cnt: u32 },
    DataAck { code: ResponseCode, payload: Option<Vec<u8>> },
}

/// A command exchange in progress.
pub struct Exchange {
    pending: Pending,
    command: Ghost<CommandView>,
}

impl View for Exchange {
    type V = ExchangeView;

    closed spec fn view(&self) -> ExchangeView {
        ExchangeView {
            command: self.command@,
            stage: match self.pending {
                Pending::CommandSent { .. } => Stage::Command,
                Pending::CommandAck { .. } => Stage::CommandAck,
                Pending::DataSent { .. } => Stage::Data,
                Pending::DataReceived { .. } => Stage::Data,
                Pending::DataAck { .. } => Stage::DataAck,
            },
            payload: match self.pending {
                Pending::DataAck { payload: Some(bytes), .. } => Some(bytes@),
                _ => None,
            },
        }
    }
}

/// What an exchange asks of the driver after an event.
pub enum Step {
    /// Carry out `action` and report its outcome to `exchange`.
    Next { exchange: Exchange, action: Action },
    /// The command is over.
    Done { result: Outcome },
}

impl View for Step {
    type V = StepView;

    open spec fn view(&self) -> StepView {
        match *self {
            Step::Next { exchange, action } => StepView::Next { exchange: exchange@, action: action@ },
            Step::Done { result } => StepView::Done { result: outcome_view(result) },
        }
    }
}

impl Exchange {
    /// What is kept matches the command: the codes and lengths still to be
    /// checked are the command's own.
    #[verifier::type_invariant]
    closed spec fn inv(self) -> bool {
        let command = self.command@;
        match self.pending {
            Pending::CommandSent { command_resp, data } => {
                &&& command_resp == command.command_resp
                &&& data@ == command.data
            },
            Pending::CommandAck { command_resp, data } => {
                &&& command_resp == command.command_resp
                &&& data@ == command.data
            },
            Pending::DataSent { code } => {
                &&& command.data matches DataProcView::SendData { code: due, .. }
                &&& due == code
            },
            Pending::DataReceived { code, cnt } => {
                command.data == (DataProcView::RecvData { code, cnt })
            },
            Pending::DataAck { code, payload } => match command.data {
                DataProcView::NoData => false,
                DataProcView::SendData { code: due, .. } => due == code && payload is None,
                DataProcView::RecvData { code: due, cnt } => {
                    &&& due == code
                    &&& payload matches Some(bytes)
                    &&& bytes@.len() == cnt
                },
            },
        }
    }

    /// Opens the exchange of `command`. The first action is always the
    /// command frame itself.
    pub fn begin(command: Command) -> (r: (Exchange, Action))
        ensures
            r.0@ == ExchangeView::start(command@),
            r.0@.wf(),
            r.1@ == (ActionView::SendCommand { tag: command@.tag, args: command@.args }),
            r.1@ == r.0@.pending(),
    {
        let ghost view = command@;
        let Command { tag, command_resp, args, data } = command;
        let exchange = Exchange {
            pending: Pending::CommandSent { command_resp, data },
            command: Ghost(view),
        };
        (exchange, Action::SendCommand { tag, args })
    }

    /// Takes the outcome of the pending action and says what comes next:
    /// the next action of the plan when `event` answers the pending one and
    /// actions are left, the result when it answers the last one, and the
    /// error of [`failure`] when it does not answer. A command with a
    /// receive phase ends well only with a payload of the declared length,
    /// any other command only without one.
    pub fn step(self, event: Event) -> (r: Step)
        ensures
            r@ == self@.step(event@),
            r matches Step::Next { exchange, action } ==> exchange@.wf() && action@
                == exchange@.pending(),
            r matches Step::Done { result: Ok(payload) } ==> match self@.command.data {
                DataProcView::RecvData { cnt, .. } => {
                    &&& payload matches Some(bytes)
                    &&& bytes@.len() == cnt
                },
                _ => payload is None,
            },
    {
        proof {
            use_type_invariant(&self);
        }
        let Exchange { pending, command } = self;
        match pending {
            Pending::CommandSent { command_resp, data } => match event {
                Event::Sent => Step::Next {
                    exchange: Exchange {
                        pending: Pending::CommandAck { command_resp, data },
                        command,
                    },
                    action: Action::ReadResponse { expected: command_resp },
                },
                other => Step::Done { result: Err(refuse_sent(Stage::Command, other)) },
            },
            Pending::CommandAck { command_resp, data } => match event {
                Event::Response { code } if code == command_resp => match data {
                    DataProc::NoData => Step::Done { result: Ok(None) },
                    DataProc::SendData { code, data } => Step::Next {
                        exchange: Exchange { pending: Pending::DataSent { code }, command },
                        action: Action::SendData { data },
                    },
                    DataProc::RecvData { code, cnt } => Step::Next {
                        exchange: Exchange { pending: Pending::DataReceived { code, cnt }, command },
                        action: Action::RecvData { cnt },
                    },
                },
                other => Step::Done {
                    result: Err(refuse_response(Stage::CommandAck, command_resp, other)),
                },
            },
            Pending::DataSent { code } => match event {
                Event::Sent => Step::Next {
                    exchange: Exchange { pending: Pending::DataAck { code, payload: None }, command },
                    action: Action::ReadResponse { expected: code },
                },
                other => Step::Done { result: Err(refuse_sent(Stage::Data, other)) },
            },
            Pending::DataReceived { code, cnt } => match event {
                Event::Data { bytes } => {
                    if bytes.len() == cnt as usize {
                        Step::Next {
                            exchange: Exchange {
                                pending: Pending::DataAck { code, payload: Some(bytes) },
                                command,
                            },
                            action: Action::ReadResponse { expected: code },
                        }
                    } else {
                        Step::Done {
                            result: Err(
                                Error::PayloadLength { declared: cnt, received: bytes.len() },
                            ),
                        }
                    }
                },
                Event::Failed => Step::Done { result: Err(Error::Transport { stage: Stage::Data }) },
                _ => Step::Done { result: Err(Error::UnexpectedEvent { stage: Stage::Data }) },
            },
            Pending::DataAck { code, payload } => match event {
                Event::Response { code: observed } if observed == code => Step::Done {
                    result: Ok(payload),
                },
                other => Step::Done { result: Err(refuse_response(Stage::DataAck, code, other)) },
            },
        }
    }
}

/// The error for an event that came where `Event::Sent` was due, after the
/// command frame or the payload was handed to the link.
fn refuse_sent(stage: Stage, event: Event) -> (e: Error)
    requires
        !(event is Sent),
    ensures
        forall|action: ActionView|
            action is SendCommand || action is SendData ==> e == #[trigger] failure(
                action,
                stage,
                event@,
            ),
{
    match event {
        Event::Failed => Error::Transport { stage },
        _ => Error::UnexpectedEvent { stage },
    }
}

/// The error for an event that came where a response with `expected` was
/// due.
fn refuse_response(stage: Stage, expected: ResponseCode, event: Event) -> (e: Error)
    requires
        event@ != (EventView::Response { code: expected }),
    ensures
        e == failure(ActionView::ReadResponse { expected }, stage, event@),
{
    match event {
        Event::Failed => Error::Transport { stage },
        Event::Response { code } => Error::UnexpectedResponse { stage, expected, observed: code },
        _ => Error::UnexpectedEvent { stage },
    }
}

} // verus!
