use vstd::prelude::*;

use crate::decimal::{append_decimal, decimal};
use crate::manager::{removal, subscription, ServerConnectionManager, ServerManager, StopReceiver};
use crate::types::{Error, Id};

verus! {

/// The reply to a listener when a command on `id` failed with `e`:
/// `prefix`, the identifier, a colon and the error's description.
pub open spec fn failure_reply(prefix: Seq<char>, id: nat, e: Error, text: Seq<char>) -> bool {
    exists|description: Seq<char>|
        text == prefix + decimal(id) + ": "@ + description && (e.message() matches Some(d)
            ==> description == d)
}

fn failure_text(prefix: &str, id: u32, e: &Error) -> (s: String)
    ensures
        failure_reply(prefix@, id as nat, *e, s@),
{
    let mut s = String::from_str(prefix);
    append_decimal(&mut s, id);
    s.append(": ");
    let description = e.to_string();
    s.append(description.as_str());
    assert(s@ == prefix@ + decimal(id as nat) + ": "@ + description@);
    s
}

/// Stops server `id`, answering a listener: nothing on success, else
/// "Failed to stop server <id>: <error>".
pub fn stop_server(server_manager: &mut ServerManager, id: Id) -> (r: Result<(), String>)
    ensures
        final(server_manager).next_id() == old(server_manager).next_id(),
        exists|delivered: bool|
            #![trigger removal(old(server_manager).servers(), id, delivered)]
            {
                let (servers, outcome) = removal(old(server_manager).servers(), id, delivered);
                &&& final(server_manager).servers() == servers
                &&& (r is Ok <==> outcome is Ok)
                &&& (r matches Err(text) ==> (outcome matches Err(e) && failure_reply(
                    "Failed to stop server "@,
                    id as nat,
                    e,
                    text@,
                )))
            },
{
    match server_manager.remove_server(id) {
        Ok(_) => Ok(()),
        Err(e) => Err(failure_text("Failed to stop server ", id, &e)),
    }
}

/// Subscribes `on_message` to connection `id`, answering a listener:
/// nothing on success, else "Failed to subscribe to server <id>: <error>".
pub fn subscribe_server<W, S>(
    server_manager: &mut ServerConnectionManager<W, S>,
    id: Id,
    on_message: S,
) -> (r: Result<(), String>)
    ensures
        final(server_manager).writers() == old(server_manager).writers(),
        final(server_manager).next_id() == old(server_manager).next_id(),
        ({
            let (subs, outcome) = subscription(old(server_manager).subscriber_lists(), id, on_message);
            &&& final(server_manager).subscriber_lists() == subs
            &&& (r is Ok <==> outcome is Ok)
            &&& (r matches Err(text) ==> (outcome matches Err(e) && failure_reply(
                "Failed to subscribe to server "@,
                id as nat,
                e,
                text@,
            )))
        }),
{
    match server_manager.subscribe(id, on_message) {
        Ok(_) => Ok(()),
        Err(e) => Err(failure_text("Failed to subscribe to server ", id, &e)),
    }
}

/// The answer to a listener after sending a message on connection `id`
/// gave `sent`: nothing on success, else
/// "Failed to send message to server <id>: <error>".
pub fn send_server_conn_reply(id: Id, sent: Result<(), Error>) -> (r: Result<(), String>)
    ensures
        r is Ok <==> sent is Ok,
        r matches Err(text) ==> (sent matches Err(e) && failure_reply(
            "Failed to send message to server "@,
            id as nat,
            e,
            text@,
        )),
{
    match sent {
        Ok(_) => Ok(()),
        Err(e) => Err(failure_text("Failed to send message to server ", id, &e)),
    }
}

/// Registers a new server once its listener is bound on `port`, answering
/// a listener with the server's identifier (and the receiver its task waits
/// on for the stop signal). When binding failed with `bound`'s description,
/// nothing is registered and the answer is
/// "Failed to bind to port <port>: <description>".
pub fn new_server(server_manager: &mut ServerManager, port: u16, bound: Result<(), String>) -> (r: Result<
    (Id, StopReceiver),
    String,
>)
    ensures
        match bound {
            Ok(_) => r matches Ok((id, rx)) && id == old(server_manager).next_id()
                && final(server_manager).servers() == old(server_manager).servers().insert(
                id,
                Some(rx.signal()),
            ) && final(server_manager).next_id() == crate::manager::id_after(
                old(server_manager).next_id(),
            ),
            Err(reason) => r matches Err(text) && text@ == "Failed to bind to port "@ + decimal(
                port as nat,
            ) + ": "@ + reason@ && final(server_manager).servers() == old(server_manager).servers()
                && final(server_manager).next_id() == old(server_manager).next_id(),
        },
{
    match bound {
        Ok(_) => Ok(server_manager.add_server()),
        Err(reason) => {
            let mut s = String::from_str("Failed to bind to port ");
            append_decimal(&mut s, port as u32);
            s.append(": ");
            s.append(reason.as_str());
            Err(s)
        },
    }
}

} // verus!
