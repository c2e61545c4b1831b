//! The daemon's handles, and what the command line reports for each outcome
//! of talking to the daemon.
use vstd::prelude::*;
use vstd::string::*;
use std::sync::mpsc::{Receiver, Sender};
use crate::ipc::DiscordThreadCommands;
use crate::processes::names_of;

verus! {

#[verifier::external_type_specification]
#[verifier::external_body]
#[verifier::reject_recursive_types(T)]
pub struct ExSender<T>(Sender<T>);

#[verifier::external_type_specification]
#[verifier::external_body]
#[verifier::reject_recursive_types(T)]
pub struct ExReceiver<T>(Receiver<T>);

/// The handles that the accept loop hands to the dispatcher for each
/// connection: the way to the presence thread, and the way back from it.
pub struct ChannelCommunications<'cc> {
    pub discord: Sender<DiscordThreadCommands>,
    pub main: &'cc Receiver<Vec<u8>>,
}

/// Why an exchange with the daemon failed.
pub struct ExchangeError {
    /// Whether the connection was refused, which means no daemon listens.
    pub refused: bool,
    /// The error's own text.
    pub message: String,
}

/// What a command-line operation prints and with which status it ends.
pub struct ClientOutcome {
    /// Text for standard output.
    pub output: String,
    /// Lines for standard error.
    pub errors: Vec<String>,
    /// The process's exit status.
    pub status: i32,
}

pub open spec fn exchange_failed_line(e: ExchangeError) -> Seq<char> {
    "An error occurred while trying to exchange messages over the socket: "@ + e.message@
}

pub open spec fn not_running_hint() -> Seq<char> {
    "The daemon may not be active. Try using \"ddrpc start\" to start the daemon."@
}

fn exchange_failed_message(e: &ExchangeError) -> (r: String)
    ensures
        r@ == exchange_failed_line(*e),
{
    String::from_str("An error occurred while trying to exchange messages over the socket: ").concat(
        e.message.as_str(),
    )
}

/// What `ping` reports: the daemon's reply, or the failure, with a hint to
/// start the daemon when the connection was refused.
pub fn ping_outcome(result: Result<String, ExchangeError>) -> (r: ClientOutcome)
    ensures
        match result {
            Ok(reply) => r.output@ == reply@ && r.errors@.len() == 0 && r.status == 0,
            Err(e) => {
                &&& r.output@.len() == 0
                &&& r.status == 1
                &&& names_of(r.errors@) == if e.refused {
                    seq![exchange_failed_line(e), not_running_hint()]
                } else {
                    seq![exchange_failed_line(e)]
                }
            },
        },
{
    match result {
        Ok(reply) => ClientOutcome { output: reply, errors: Vec::new(), status: 0 },
        Err(e) => {
            let mut errors: Vec<String> = Vec::new();
            errors.push(exchange_failed_message(&e));
            if e.refused {
                errors.push(
                    String::from_str(
                        "The daemon may not be active. Try using \"ddrpc start\" to start the daemon.",
                    ),
                );
            }
            let r = ClientOutcome { output: String::new(), errors, status: 1 };
            assert(names_of(r.errors@) =~= if e.refused {
                seq![exchange_failed_line(e), not_running_hint()]
            } else {
                seq![exchange_failed_line(e)]
            });
            r
        },
    }
}

/// What `kill` reports: success, or the failure with status 1.
pub fn kill_outcome(result: Result<String, ExchangeError>) -> (r: ClientOutcome)
    ensures
        match result {
            Ok(_) => r.output@ == "Successfully killed daemon\n"@ && r.errors@.len() == 0 && r.status
                == 0,
            Err(e) => {
                &&& r.output@.len() == 0
                &&& r.status == 1
                &&& names_of(r.errors@) == seq![exchange_failed_line(e)]
            },
        },
{
    match result {
        Ok(_) => ClientOutcome {
            output: String::from_str("Successfully killed daemon\n"),
            errors: Vec::new(),
            status: 0,
        },
        Err(e) => {
            let mut errors: Vec<String> = Vec::new();
            errors.push(exchange_failed_message(&e));
            let r = ClientOutcome { output: String::new(), errors, status: 1 };
            assert(names_of(r.errors@) =~= seq![exchange_failed_line(e)]);
            r
        },
    }
}

/// The line `start` prints when the socket cannot be bound: a hint to use
/// `ping` when another listener holds it, else the error itself.
pub fn bind_failure_message(address_in_use: bool, error: &String) -> (r: String)
    ensures
        r@ == if address_in_use {
            "Socket is already bound to another listener. Use `ddrpc ping` to check if another daemon is active."@
        } else {
            "Error while binding to socket: "@ + error@
        },
{
    if address_in_use {
        String::from_str(
            "Socket is already bound to another listener. Use `ddrpc ping` to check if another daemon is active.",
        )
    } else {
        String::from_str("Error while binding to socket: ").concat(error.as_str())
    }
}

} // verus!
