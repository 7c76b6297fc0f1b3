//! Whole exchanges: what a command puts on the link, and how it ends, for
//! every way the link can behave.
//!
//! [`run`] is the exchange of a command as its driver sees it, given the
//! events that the link produces. The lemmas of this module say what holds
//! of every such run.

use vstd::prelude::*;
use crate::command::{CommandView, DataProcView};
use crate::error::{Error, ErrorKind, Stage};
use crate::exchange::{
    answers, failure, plan, ActionView, EventView, ExchangeView, OutcomeView, StepView,
};

verus! {

/// What a driver sees of an exchange: the actions it was handed, in order,
/// and the result, once there is one.
pub struct Run {
    pub actions: Seq<ActionView>,
    pub result: Option<OutcomeView>,
}

/// The actions that `exchange` hands out and the result that it reaches
/// when the driver reports `events`, one after the other. Events that come
/// after the result are not looked at.
pub open spec fn drive(exchange: ExchangeView, events: Seq<EventView>) -> Run
    decreases events.len(),
{
    if events.len() == 0 {
        Run { actions: Seq::empty(), result: None }
    } else {
        match exchange.step(events.first()) {
            StepView::Done { result } => Run { actions: Seq::empty(), result: Some(result) },
            StepView::Next { exchange: next, action } => {
                let rest = drive(next, events.drop_first());
                Run { actions: seq![action] + rest.actions, result: rest.result }
            },
        }
    }
}

/// The whole exchange of `command` against a link that behaves as `events`
/// says: the command frame first, then whatever the events lead to.
pub open spec fn run(command: CommandView, events: Seq<EventView>) -> Run {
    let rest = drive(ExchangeView::start(command), events);
    Run { actions: seq![plan(command)[0]] + rest.actions, result: rest.result }
}

/// The first `n` events answer the first `n` actions of the plan of
/// `command`, one each.
pub open spec fn answered(command: CommandView, events: Seq<EventView>, n: nat) -> bool {
    &&& n <= plan(command).len()
    &&& n <= events.len()
    &&& forall|i: int| 0 <= i < n ==> answers(plan(command)[i], #[trigger] events[i])
}

/// The payload that the events deliver to `command`: the bytes of the third
/// event for a command with a receive phase, none for any other.
pub open spec fn delivered(command: CommandView, events: Seq<EventView>) -> Option<Seq<u8>> {
    match command.data {
        DataProcView::RecvData { .. } => match events[2] {
            EventView::Data { bytes } => Some(bytes),
            _ => None,
        },
        _ => None,
    }
}

/// The actions of an exchange are the actions of the plan, from the first
/// on, in order and without a gap; and each action but the first is handed
/// out only after the event before it has answered the action before it.
pub proof fn lemma_run_follows_plan(command: CommandView, events: Seq<EventView>)
    ensures
        1 <= run(command, events).actions.len() <= plan(command).len(),
        run(command, events).actions == plan(command).take(
            run(command, events).actions.len() as int,
        ),
        answered(command, events, (run(command, events).actions.len() - 1) as nat),
{
    reveal_with_fuel(drive, 5);
}

/// How an exchange ends. It succeeds exactly when the events answer every
/// action of the plan, and then returns what was delivered. It fails at
/// the first event that does not answer its action, with the error of that
/// action, stage and event. And it is still open while every event so far
/// has answered and actions are left.
pub proof fn lemma_run_result(command: CommandView, events: Seq<EventView>)
    ensures
        answered(command, events, plan(command).len()) <==> run(command, events).result matches Some(
            Ok(_),
        ),
        match run(command, events).result {
            Some(Ok(payload)) => {
                &&& run(command, events).actions == plan(command)
                &&& payload == delivered(command, events)
            },
            Some(Err(e)) => {
                let at = run(command, events).actions.len() - 1;
                &&& at < events.len()
                &&& !answers(plan(command)[at], events[at])
                &&& e == failure(plan(command)[at], Stage::at(at as nat), events[at])
            },
            None => {
                &&& events.len() == run(command, events).actions.len() - 1
                &&& events.len() < plan(command).len()
            },
        },
{
    reveal_with_fuel(drive, 5);
}

/// A command without a data phase takes two transport exchanges, the
/// command frame and its acknowledgement, and never a data frame: no run
/// hands out more than these two actions, and a run that succeeds hands out
/// both and returns no payload.
pub proof fn lemma_no_data_phase(command: CommandView, events: Seq<EventView>)
    requires
        command.data is NoData,
    ensures
        run(command, events).actions.len() <= 2,
        forall|i: int|
            0 <= i < run(command, events).actions.len() ==> {
                let action = #[trigger] run(command, events).actions[i];
                !(action is SendData) && !(action is RecvData)
            },
        run(command, events).result matches Some(Ok(payload)) ==> {
            &&& run(command, events).actions == seq![
                ActionView::SendCommand { tag: command.tag, args: command.args },
                ActionView::ReadResponse { expected: command.command_resp },
            ]
            &&& payload is None
        },
        run(command, events).result matches Some(Ok(_)) <==> {
            &&& events.len() >= 2
            &&& events[0] is Sent
            &&& events[1] == (EventView::Response { code: command.command_resp })
        },
{
    reveal_with_fuel(drive, 5);
}

/// A command with a send phase takes three exchanges in this order: the
/// command frame with its acknowledgement, the payload, and the second
/// acknowledgement. The payload handed to the link is the caller's buffer,
/// byte for byte, and nothing is returned.
pub proof fn lemma_send_phase(command: CommandView, events: Seq<EventView>)
    requires
        command.data is SendData,
    ensures
        forall|i: int|
            0 <= i < run(command, events).actions.len() ==> {
                let action = #[trigger] run(command, events).actions[i];
                &&& !(action is RecvData)
                &&& action matches ActionView::SendData { data } ==> {
                    &&& i == 2
                    &&& data == command.data->SendData_data
                }
            },
        run(command, events).result matches Some(Ok(payload)) ==> {
            &&& run(command, events).actions == seq![
                ActionView::SendCommand { tag: command.tag, args: command.args },
                ActionView::ReadResponse { expected: command.command_resp },
                ActionView::SendData { data: command.data->SendData_data },
                ActionView::ReadResponse { expected: command.data->SendData_code },
            ]
            &&& payload is None
        },
        run(command, events).result matches Some(Ok(_)) <==> {
            &&& events.len() >= 4
            &&& events[0] is Sent
            &&& events[1] == (EventView::Response { code: command.command_resp })
            &&& events[2] is Sent
            &&& events[3] == (EventView::Response { code: command.data->SendData_code })
        },
{
    reveal_with_fuel(drive, 5);
}

/// A command with a receive phase returns exactly as many bytes as it
/// declared, and they are the bytes that the link delivered. When the link
/// delivers another number of bytes, the command fails with
/// `Error::PayloadLength`, a protocol error, and returns nothing. The link
/// is asked for the declared number of bytes, and is never handed a payload.
pub proof fn lemma_receive_phase(command: CommandView, events: Seq<EventView>)
    requires
        command.data is RecvData,
    ensures
        forall|i: int|
            0 <= i < run(command, events).actions.len() ==> {
                let action = #[trigger] run(command, events).actions[i];
                &&& !(action is SendData)
                &&& action matches ActionView::RecvData { cnt } ==> {
                    &&& i == 2
                    &&& cnt == command.data->cnt
                }
            },
        run(command, events).result matches Some(Ok(payload)) ==> {
            &&& payload matches Some(bytes)
            &&& bytes.len() == command.data->cnt
            &&& events[2] == (EventView::Data { bytes })
            &&& run(command, events).actions == seq![
                ActionView::SendCommand { tag: command.tag, args: command.args },
                ActionView::ReadResponse { expected: command.command_resp },
                ActionView::RecvData { cnt: command.data->cnt },
                ActionView::ReadResponse { expected: command.data->RecvData_code },
            ]
        },
        run(command, events).result matches Some(Ok(_)) <==> {
            &&& events.len() >= 4
            &&& events[0] is Sent
            &&& events[1] == (EventView::Response { code: command.command_resp })
            &&& events[2] matches EventView::Data { bytes }
            &&& bytes.len() == command.data->cnt
            &&& events[3] == (EventView::Response { code: command.data->RecvData_code })
        },
        ({
            &&& answered(command, events, 2)
            &&& events.len() > 2
            &&& events[2] matches EventView::Data { bytes }
            &&& bytes.len() != command.data->cnt
        }) ==> {
            &&& run(command, events).result matches Some(Err(e))
            &&& e == (Error::PayloadLength {
                declared: command.data->cnt,
                received: events[2]->bytes.len() as usize,
            })
            &&& e.spec_kind() == ErrorKind::Protocol
        },
{
    reveal_with_fuel(drive, 5);
}

/// No payload moves before the command is acknowledged: an exchange hands
/// out the action of its data phase only as its third, after the command
/// frame went out and a response came in with the code that the command
/// expects.
pub proof fn lemma_data_phase_follows_ack(command: CommandView, events: Seq<EventView>, i: int)
    requires
        0 <= i < run(command, events).actions.len(),
        run(command, events).actions[i] is SendData || run(command, events).actions[i] is RecvData,
    ensures
        i == 2,
        events.len() >= 2,
        events[0] is Sent,
        events[1] == (EventView::Response { code: command.command_resp }),
{
    reveal_with_fuel(drive, 5);
}

} // verus!
