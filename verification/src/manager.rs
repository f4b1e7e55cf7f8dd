use vstd::prelude::*;

use crate::types::{Error, Id};
use std::collections::HashMap;
use tokio::sync::oneshot::{Receiver, Sender};

verus! {

broadcast use vstd::std_specs::hash::group_hash_axioms;

/// The sending half of a `tokio` one-shot channel.
#[verifier::external_type_specification]
#[verifier::external_body]
#[verifier::reject_recursive_types(T)]
pub struct ExSender<T>(Sender<T>);

/// The receiving half of a `tokio` one-shot channel.
#[verifier::external_type_specification]
#[verifier::external_body]
#[verifier::reject_recursive_types(T)]
pub struct ExReceiver<T>(Receiver<T>);

/// The error a one-shot receiver yields when its sender is dropped. It is
/// declared because `Receiver`'s `Future` impl names it as its output's error.
#[verifier::external_type_specification]
#[verifier::external_body]
pub struct ExRecvError(tokio::sync::oneshot::error::RecvError);

/// The receiving half of a server's stop signal, which the server's task
/// waits on, together with the sending half it belongs to.
pub struct StopReceiver {
    receiver: Receiver<()>,
    signal: Ghost<Sender<()>>,
}

impl StopReceiver {
    /// The stop signal whose sending reaches this receiver.
    pub closed spec fn signal(&self) -> Sender<()> {
        self.signal@
    }

    /// The receiver itself, for the server's task to wait on.
    pub fn into_receiver(self) -> Receiver<()> {
        self.receiver
    }
}

/// Calls `tokio::sync::oneshot::channel`: a fresh stop signal and the
/// receiver that a server task waits on, which belong to the same channel.
#[verifier::external_body]
fn stop_channel() -> (r: (Sender<()>, StopReceiver))
    ensures
        r.1.signal() == r.0,
{
    let (send, receive) = tokio::sync::oneshot::channel();
    let signal = Ghost(send);
    (send, StopReceiver { receiver: receive, signal })
}

/// Calls `Sender::send` of `tokio`'s one-shot channel and tells whether the
/// signal was delivered. It is not delivered when the receiver is gone, which
/// this library cannot observe, so nothing is promised of the answer.
#[verifier::external_body]
fn send_stop_signal(kill: Sender<()>) -> bool {
    kill.send(()).is_ok()
}

/// The identifier handed out after `id`, wrapping around at the top.
pub open spec fn id_after(id: Id) -> Id {
    if id == u32::MAX {
        0
    } else {
        (id + 1) as Id
    }
}

/// Two servers (or connections) added one after the other get different identifiers.
pub proof fn lemma_next_id_differs(id: Id)
    ensures
        id_after(id) != id,
{
}

fn next_id(id: Id) -> (n: Id)
    ensures
        n == id_after(id),
{
    if id == u32::MAX {
        0
    } else {
        id + 1
    }
}

/// The identifier handed out `n` steps after `start`.
pub open spec fn id_after_n(start: Id, n: nat) -> Id
    decreases n,
{
    if n == 0 {
        start
    } else {
        id_after(id_after_n(start, (n - 1) as nat))
    }
}

proof fn lemma_id_after_n_value(start: Id, n: nat)
    requires
        n < 0x1_0000_0000,
    ensures
        id_after_n(start, n) == (if start + n < 0x1_0000_0000 {
            start + n
        } else {
            start + n - 0x1_0000_0000
        }),
    decreases n,
{
    if n > 0 {
        lemma_id_after_n_value(start, (n - 1) as nat);
    }
}

/// Identifiers are handed out without repetition until the counter wraps
/// around: any two of 2^32 successive identifiers differ.
pub proof fn lemma_ids_distinct(start: Id, i: nat, j: nat)
    requires
        i < j < 0x1_0000_0000,
    ensures
        id_after_n(start, i) != id_after_n(start, j),
{
    lemma_id_after_n_value(start, i);
    lemma_id_after_n_value(start, j);
}

/// Identifiers handed out by successive additions, each the one after the
/// last, never repeat within 2^32 additions.
pub proof fn lemma_successive_ids_distinct(ids: Seq<Id>)
    requires
        ids.len() <= 0x1_0000_0000,
        forall|k: int| 0 <= k < ids.len() - 1 ==> #[trigger] ids[k + 1] == id_after(ids[k]),
    ensures
        forall|a: int, b: int| 0 <= a < b < ids.len() ==> ids[a] != ids[b],
{
    assert forall|k: int| 0 <= k < ids.len() implies #[trigger] ids[k] == id_after_n(
        ids[0],
        k as nat,
    ) by {
        lemma_successive_ids_closed_form(ids, k);
    }
    assert forall|a: int, b: int| 0 <= a < b < ids.len() implies ids[a] != ids[b] by {
        lemma_ids_distinct(ids[0], a as nat, b as nat);
    }
}

proof fn lemma_successive_ids_closed_form(ids: Seq<Id>, k: int)
    requires
        0 <= k < ids.len(),
        forall|m: int| 0 <= m < ids.len() - 1 ==> #[trigger] ids[m + 1] == id_after(ids[m]),
    ensures
        ids[k] == id_after_n(ids[0], k as nat),
    decreases k,
{
    if k > 0 {
        lemma_successive_ids_closed_form(ids, k - 1);
        assert(ids[(k - 1) + 1] == id_after(ids[k - 1]));
    }
}

/// What removing server `id` from `servers` gives, when its own stop signal
/// is `delivered` or not: the servers afterwards and the answer. A server maps
/// to its stop signal while that is still unused.
pub open spec fn removal(servers: Map<Id, Option<Sender<()>>>, id: Id, delivered: bool) -> (
    Map<Id, Option<Sender<()>>>,
    Result<(), Error>,
) {
    if !servers.contains_key(id) {
        (servers, Err(Error::ServerNotFound(id)))
    } else if servers[id] is None {
        (servers, Err(Error::FailedToStopServer(id)))
    } else if delivered {
        (servers.remove(id), Ok(()))
    } else {
        (servers.insert(id, None), Err(Error::FailedToStopServer(id)))
    }
}

/// The running WebSocket servers, each with the signal that stops it.
pub struct ServerManager {
    servers: HashMap<Id, Option<Sender<()>>>,
    next_id: Id,
}

impl ServerManager {
    /// Each known server, with its stop signal while that is unused.
    pub closed spec fn servers(&self) -> Map<Id, Option<Sender<()>>> {
        self.servers@
    }

    /// The identifier the next server gets.
    pub closed spec fn next_id(&self) -> Id {
        self.next_id
    }

    /// No servers; the first gets identifier 0.
    pub fn new() -> (m: Self)
        ensures
            m.servers() == Map::<Id, Option<Sender<()>>>::empty(),
            m.next_id() == 0,
    {
        ServerManager { servers: HashMap::new(), next_id: 0 }
    }

    /// Registers a new server under the next identifier, with a fresh stop
    /// signal, and returns the identifier with the receiver of that signal,
    /// which its task waits on.
    pub fn add_server(&mut self) -> (r: (Id, StopReceiver))
        ensures
            r.0 == old(self).next_id(),
            final(self).next_id() == id_after(old(self).next_id()),
            final(self).servers() == old(self).servers().insert(r.0, Some(r.1.signal())),
    {
        let (send, receive) = stop_channel();
        let id = self.next_id;
        self.next_id = next_id(id);
        self.servers.insert(id, Some(send));
        (id, receive)
    }

    /// Takes out the stop signal of server `id`, leaving the server known
    /// without one. An unknown server gives `ServerNotFound`, a server whose
    /// signal is already taken `FailedToStopServer`; neither changes anything.
    pub fn take_stop_signal(&mut self, id: Id) -> (r: Result<Sender<()>, Error>)
        ensures
            final(self).next_id() == old(self).next_id(),
            !old(self).servers().contains_key(id) ==> r == Err::<Sender<()>, Error>(
                Error::ServerNotFound(id),
            ) && final(self).servers() == old(self).servers(),
            old(self).servers().contains_key(id) && old(self).servers()[id] is None ==> r
                == Err::<Sender<()>, Error>(Error::FailedToStopServer(id)) && final(self).servers()
                == old(self).servers(),
            old(self).servers().contains_key(id) && old(self).servers()[id] is Some ==> r == Ok::<
                Sender<()>,
                Error,
            >(old(self).servers()[id]->0) && final(self).servers() == old(self).servers().insert(
                id,
                None,
            ),
    {
        match self.servers.remove(&id) {
            None => {
                assert(self.servers@ =~= old(self).servers@);
                Err(Error::ServerNotFound(id))
            },
            Some(None) => {
                self.servers.insert(id, None);
                assert(self.servers@ =~= old(self).servers@);
                Err(Error::FailedToStopServer(id))
            },
            Some(Some(kill)) => {
                self.servers.insert(id, None);
                assert(self.servers@ =~= old(self).servers@.insert(id, None));
                Ok(kill)
            },
        }
    }

    /// Ends the stopping of server `id` whose signal was taken out: the
    /// server is forgotten when the signal was `delivered`, and else stays
    /// known without a signal, answering `FailedToStopServer`.
    pub fn complete_stop(&mut self, id: Id, delivered: bool) -> (r: Result<(), Error>)
        ensures
            final(self).next_id() == old(self).next_id(),
            delivered ==> r == Ok::<(), Error>(()) && final(self).servers() == old(self).servers().remove(id),
            !delivered ==> r == Err::<(), Error>(Error::FailedToStopServer(id))
                && final(self).servers() == old(self).servers(),
    {
        if delivered {
            self.servers.remove(&id);
            Ok(())
        } else {
            Err(Error::FailedToStopServer(id))
        }
    }

    /// Stops server `id` by sending its own stop signal, and forgets it when
    /// the signal was delivered. An unknown server gives `ServerNotFound`; a
    /// server whose signal was already used, or whose signal is not delivered
    /// now, gives `FailedToStopServer` and stays known without a signal.
    pub fn remove_server(&mut self, id: Id) -> (r: Result<(), Error>)
        ensures
            exists|delivered: bool|
                (final(self).servers(), r) == removal(old(self).servers(), id, delivered),
            final(self).next_id() == old(self).next_id(),
    {
        let kill = match self.take_stop_signal(id) {
            Ok(kill) => kill,
            Err(e) => {
                assert((self.servers(), Err::<(), Error>(e)) == removal(old(self).servers(), id, true));
                return Err(e);
            },
        };
        assert(old(self).servers().contains_key(id) && old(self).servers()[id] is Some);
        let ghost taken = self.servers();
        assert(taken == old(self).servers().insert(id, None));
        let delivered = send_stop_signal(kill);
        let r = self.complete_stop(id, delivered);
        proof {
            if delivered {
                assert(taken.remove(id) =~= old(self).servers().remove(id));
                assert(self.servers() == old(self).servers().remove(id));
                assert(r == Ok::<(), Error>(()));
            } else {
                assert(self.servers() == old(self).servers().insert(id, None));
                assert(r == Err::<(), Error>(Error::FailedToStopServer(id)));
            }
        }
        assert((self.servers(), r) == removal(old(self).servers(), id, delivered));
        r
    }
}

impl Default for ServerManager {
    fn default() -> (m: Self)
        ensures
            m.servers() == Map::<Id, Option<Sender<()>>>::empty(),
            m.next_id() == 0,
    {
        ServerManager::new()
    }
}

/// Removing an unknown server changes nothing and answers `ServerNotFound`.
pub proof fn lemma_remove_unknown_server(
    servers: Map<Id, Option<Sender<()>>>,
    id: Id,
    delivered: bool,
)
    requires
        !servers.contains_key(id),
    ensures
        removal(servers, id, delivered) == (servers, Err::<(), Error>(Error::ServerNotFound(id))),
{
}

/// A server is stopped at most once: after any attempt to stop it, a second
/// attempt fails, whatever happens to the signals.
pub proof fn lemma_stopped_at_most_once(
    servers: Map<Id, Option<Sender<()>>>,
    id: Id,
    first: bool,
    second: bool,
)
    ensures
        removal(removal(servers, id, first).0, id, second).1 is Err,
{
}

/// Stopping a server leaves every other server, and its own signal, as it was.
pub proof fn lemma_other_servers_kept(
    servers: Map<Id, Option<Sender<()>>>,
    id: Id,
    other: Id,
    delivered: bool,
)
    requires
        other != id,
    ensures
        removal(servers, id, delivered).0.contains_key(other) == servers.contains_key(other),
        servers.contains_key(other) ==> removal(servers, id, delivered).0[other] == servers[other],
{
}

/// A freshly added server is stopped and forgotten when its signal is delivered.
pub proof fn lemma_added_server_stops(
    servers: Map<Id, Option<Sender<()>>>,
    id: Id,
    signal: Sender<()>,
)
    ensures
        removal(servers.insert(id, Some(signal)), id, true) == (
            servers.remove(id),
            Ok::<(), Error>(()),
        ),
{
    assert(servers.insert(id, Some(signal)).remove(id) =~= servers.remove(id));
}

/// The subscribers that stay after a value was offered to each of `subs`:
/// those to which it was `delivered`, in their order.
pub open spec fn kept<S>(subs: Seq<S>, delivered: Seq<bool>) -> Seq<S>
    decreases subs.len(),
{
    if subs.len() == 0 {
        Seq::empty()
    } else {
        let rest = kept(subs.drop_first(), delivered.drop_first());
        if delivered[0] {
            seq![subs[0]] + rest
        } else {
            rest
        }
    }
}

/// What removing connection `id` gives: its writer and its subscribers are
/// forgotten, or `ConnectionNotFound` when it has no writer.
pub open spec fn disconnection<W, S>(writers: Map<Id, W>, subs: Map<Id, Seq<S>>, id: Id) -> (
    Map<Id, W>,
    Map<Id, Seq<S>>,
    Result<(), Error>,
) {
    if writers.contains_key(id) {
        (writers.remove(id), subs.remove(id), Ok(()))
    } else {
        (writers, subs, Err(Error::ConnectionNotFound(id)))
    }
}

/// What subscribing `channel` to connection `id` gives: it joins the end of
/// the connection's subscribers, or `ConnectionNotFound` when there are none
/// registered for `id`.
pub open spec fn subscription<S>(subs: Map<Id, Seq<S>>, id: Id, channel: S) -> (
    Map<Id, Seq<S>>,
    Result<(), Error>,
) {
    if subs.contains_key(id) {
        (subs.insert(id, subs[id].push(channel)), Ok(()))
    } else {
        (subs, Err(Error::ConnectionNotFound(id)))
    }
}

/// The registry behind `ServerConnectionManager`: the writer and the
/// subscribers of each connection, and the next identifier.
struct Connections<W, S> {
    writes: HashMap<Id, W>,
    subscribers: HashMap<Id, Vec<S>>,
    next_id: Id,
}

impl<W, S> Connections<W, S> {
    /// The writer of each connection.
    pub closed spec fn writers(&self) -> Map<Id, W> {
        self.writes@
    }

    /// The subscribers of each connection, in the order they subscribed.
    pub closed spec fn subscriber_lists(&self) -> Map<Id, Seq<S>> {
        self.subscribers@.map_values(|v: Vec<S>| v@)
    }

    /// The identifier the next connection gets.
    pub closed spec fn next_id(&self) -> Id {
        self.next_id
    }

    /// Every connection has both a writer and a list of subscribers.
    pub open spec fn wf(&self) -> bool {
        self.writers().dom() == self.subscriber_lists().dom()
    }

    /// No connections; the first gets identifier 0.
    pub fn new() -> (m: Self)
        ensures
            m.wf(),
            m.writers() == Map::<Id, W>::empty(),
            m.subscriber_lists() == Map::<Id, Seq<S>>::empty(),
            m.next_id() == 0,
    {
        let m = Connections {
            writes: HashMap::new(),
            subscribers: HashMap::new(),
            next_id: 0,
        };
        assert(m.subscriber_lists() =~= Map::<Id, Seq<S>>::empty());
        m
    }

    /// Registers a connection's writer under the next identifier, with no
    /// subscribers yet, and returns the identifier.
    pub fn add_connection(&mut self, write: W) -> (id: Id)
        requires
            old(self).wf(),
        ensures
            final(self).wf(),
            id == old(self).next_id(),
            final(self).next_id() == id_after(old(self).next_id()),
            final(self).writers() == old(self).writers().insert(id, write),
            final(self).subscriber_lists() == old(self).subscriber_lists().insert(id, Seq::<S>::empty()),
    {
        let id = self.next_id;
        self.next_id = next_id(id);
        self.writes.insert(id, write);
        self.subscribers.insert(id, Vec::new());
        proof {
            assert(self.subscriber_lists() =~= old(self).subscriber_lists().insert(id, Seq::<S>::empty()));
            assert(self.writers().dom() =~= self.subscriber_lists().dom());
        }
        id
    }

    /// Forgets connection `id`: its writer and its subscribers.
    pub fn remove_connection(&mut self, id: Id) -> (r: Result<(), Error>)
        requires
            old(self).wf(),
        ensures
            final(self).wf(),
            (final(self).writers(), final(self).subscriber_lists(), r) == disconnection(
                old(self).writers(),
                old(self).subscriber_lists(),
                id,
            ),
            final(self).next_id() == old(self).next_id(),
    {
        if self.writes.remove(&id).is_none() {
            assert(self.writes@ =~= old(self).writes@);
            return Err(Error::ConnectionNotFound(id));
        }
        self.subscribers.remove(&id);
        proof {
            assert(self.subscriber_lists() =~= old(self).subscriber_lists().remove(id));
            assert(self.writers().dom() =~= self.subscriber_lists().dom());
        }
        Ok(())
    }

    /// The writer of connection `id`, or `ConnectionNotFound`.
    pub fn connection_writer(&self, id: Id) -> (r: Result<&W, Error>)
        ensures
            match r {
                Ok(w) => self.writers().contains_key(id) && *w == self.writers()[id],
                Err(e) => !self.writers().contains_key(id) && e == Error::ConnectionNotFound(id),
            },
    {
        match self.writes.get(&id) {
            Some(w) => Ok(w),
            None => Err(Error::ConnectionNotFound(id)),
        }
    }

    /// The subscribers of connection `id`, or `ConnectionNotFound`.
    pub fn subscribers_of(&self, id: Id) -> (r: Result<&Vec<S>, Error>)
        ensures
            match r {
                Ok(v) => self.subscriber_lists().contains_key(id) && v@ == self.subscriber_lists()[id],
                Err(e) => !self.subscriber_lists().contains_key(id) && e == Error::ConnectionNotFound(id),
            },
    {
        match self.subscribers.get(&id) {
            Some(v) => Ok(v),
            None => Err(Error::ConnectionNotFound(id)),
        }
    }

    /// Adds `channel` to the end of connection `id`'s subscribers.
    pub fn subscribe(&mut self, id: Id, channel: S) -> (r: Result<(), Error>)
        requires
            old(self).wf(),
        ensures
            final(self).wf(),
            (final(self).subscriber_lists(), r) == subscription(old(self).subscriber_lists(), id, channel),
            final(self).writers() == old(self).writers(),
            final(self).next_id() == old(self).next_id(),
    {
        match self.subscribers.remove(&id) {
            Some(mut list) => {
                list.push(channel);
                self.subscribers.insert(id, list);
                proof {
                    assert(self.subscriber_lists() =~= old(self).subscriber_lists().insert(
                        id,
                        old(self).subscriber_lists()[id].push(channel),
                    ));
                    assert(self.writers().dom() =~= self.subscriber_lists().dom());
                }
                Ok(())
            },
            None => {
                assert(self.subscribers@ =~= old(self).subscribers@);
                Err(Error::ConnectionNotFound(id))
            },
        }
    }

    /// Keeps, of connection `id`'s subscribers, those to which the last value
    /// was delivered (`delivered[i]` for the `i`-th), in their order.
    pub fn retain_subscribers(&mut self, id: Id, delivered: &Vec<bool>) -> (r: Result<(), Error>)
        requires
            old(self).wf(),
            old(self).subscriber_lists().contains_key(id) ==> delivered@.len()
                == old(self).subscriber_lists()[id].len(),
        ensures
            final(self).wf(),
            final(self).writers() == old(self).writers(),
            final(self).next_id() == old(self).next_id(),
            r is Ok <==> old(self).subscriber_lists().contains_key(id),
            r is Ok ==> final(self).subscriber_lists() == old(self).subscriber_lists().insert(
                id,
                kept(old(self).subscriber_lists()[id], delivered@),
            ),
            r is Err ==> r == Err::<(), Error>(Error::ConnectionNotFound(id))
                && final(self).subscriber_lists() == old(self).subscriber_lists(),
    {
        let mut pending = match self.subscribers.remove(&id) {
            Some(list) => list,
            None => {
                assert(self.subscribers@ =~= old(self).subscribers@);
                return Err(Error::ConnectionNotFound(id));
            },
        };
        let ghost all = pending@;
        assert(all.len() == pending.len());
        let ghost flags = delivered@;
        let mut out: Vec<S> = Vec::new();
        let mut i: usize = 0;
        assert(all.skip(0) =~= all);
        assert(flags.skip(0) =~= flags);
        while pending.len() > 0
            invariant
                flags == delivered@,
                flags.len() == all.len(),
                all.len() <= usize::MAX,
                i + pending@.len() == all.len(),
                pending@ == all.skip(i as int),
                kept(all, flags) == out@ + kept(pending@, flags.skip(i as int)),
            decreases pending@.len(),
        {
            let ghost before = pending@;
            let s = pending.remove(0);
            proof {
                assert(before.drop_first() =~= pending@);
                assert(flags.skip(i as int).drop_first() =~= flags.skip(i + 1));
                assert(all.skip(i + 1) =~= pending@);
            }
            if delivered[i] {
                let ghost out_before = out@;
                out.push(s);
                assert(out@ =~= out_before + seq![before[0]]);
                assert(kept(all, flags) =~= out@ + kept(pending@, flags.skip(i + 1)));
            }
            i = i + 1;
        }
        assert(out@ =~= kept(all, flags));
        self.subscribers.insert(id, out);
        proof {
            assert(self.subscriber_lists() =~= old(self).subscriber_lists().insert(
                id,
                kept(old(self).subscriber_lists()[id], delivered@),
            ));
            assert(self.writers().dom() =~= self.subscriber_lists().dom());
        }
        Ok(())
    }
}

/// The accepted connections of the servers: for each, the writer of its
/// socket and the listeners subscribed to what it receives. Every connection
/// has both.
pub struct ServerConnectionManager<W, S> {
    state: Connections<W, S>,
}

impl<W, S> ServerConnectionManager<W, S> {
    #[verifier::type_invariant]
    spec fn every_connection_complete(self) -> bool {
        self.state.wf()
    }

    /// The writer of each connection.
    pub closed spec fn writers(&self) -> Map<Id, W> {
        self.state.writers()
    }

    /// The subscribers of each connection, in the order they subscribed.
    pub closed spec fn subscriber_lists(&self) -> Map<Id, Seq<S>> {
        self.state.subscriber_lists()
    }

    /// The identifier the next connection gets.
    pub closed spec fn next_id(&self) -> Id {
        self.state.next_id()
    }

    /// Every connection has a writer and a list of subscribers, and nothing else does.
    pub open spec fn complete(&self) -> bool {
        self.writers().dom() == self.subscriber_lists().dom()
    }

    /// No connections; the first gets identifier 0.
    pub fn new() -> (m: Self)
        ensures
            m.complete(),
            m.writers() == Map::<Id, W>::empty(),
            m.subscriber_lists() == Map::<Id, Seq<S>>::empty(),
            m.next_id() == 0,
    {
        ServerConnectionManager { state: Connections::new() }
    }

    /// Registers a connection's writer under the next identifier, with no
    /// subscribers yet, and returns the identifier.
    pub fn add_connection(&mut self, write: W) -> (id: Id)
        ensures
            final(self).complete(),
            id == old(self).next_id(),
            final(self).next_id() == id_after(old(self).next_id()),
            final(self).writers() == old(self).writers().insert(id, write),
            final(self).subscriber_lists() == old(self).subscriber_lists().insert(id, Seq::<S>::empty()),
    {
        proof {
            use_type_invariant(&*self);
        }
        let mut state = Connections::new();
        std::mem::swap(&mut state, &mut self.state);
        let id = state.add_connection(write);
        std::mem::swap(&mut state, &mut self.state);
        id
    }

    /// Forgets connection `id`: its writer and its subscribers.
    pub fn remove_connection(&mut self, id: Id) -> (r: Result<(), Error>)
        ensures
            final(self).complete(),
            (final(self).writers(), final(self).subscriber_lists(), r) == disconnection(
                old(self).writers(),
                old(self).subscriber_lists(),
                id,
            ),
            final(self).next_id() == old(self).next_id(),
    {
        proof {
            use_type_invariant(&*self);
        }
        let mut state = Connections::new();
        std::mem::swap(&mut state, &mut self.state);
        let r = state.remove_connection(id);
        std::mem::swap(&mut state, &mut self.state);
        r
    }

    /// The writer of connection `id`, or `ConnectionNotFound`.
    pub fn connection_writer(&self, id: Id) -> (r: Result<&W, Error>)
        ensures
            match r {
                Ok(w) => self.writers().contains_key(id) && *w == self.writers()[id],
                Err(e) => !self.writers().contains_key(id) && e == Error::ConnectionNotFound(id),
            },
    {
        self.state.connection_writer(id)
    }

    /// The subscribers of connection `id`, or `ConnectionNotFound`.
    pub fn subscribers_of(&self, id: Id) -> (r: Result<&Vec<S>, Error>)
        ensures
            match r {
                Ok(v) => self.subscriber_lists().contains_key(id) && v@ == self.subscriber_lists()[id],
                Err(e) => !self.subscriber_lists().contains_key(id) && e == Error::ConnectionNotFound(id),
            },
    {
        self.state.subscribers_of(id)
    }

    /// Adds `channel` to the end of connection `id`'s subscribers.
    pub fn subscribe(&mut self, id: Id, channel: S) -> (r: Result<(), Error>)
        ensures
            final(self).complete(),
            (final(self).subscriber_lists(), r) == subscription(old(self).subscriber_lists(), id, channel),
            final(self).writers() == old(self).writers(),
            final(self).next_id() == old(self).next_id(),
    {
        proof {
            use_type_invariant(&*self);
        }
        let mut state = Connections::new();
        std::mem::swap(&mut state, &mut self.state);
        let r = state.subscribe(id, channel);
        std::mem::swap(&mut state, &mut self.state);
        r
    }

    /// Keeps, of connection `id`'s subscribers, those to which the last value
    /// was delivered (`delivered[i]` for the `i`-th), in their order.
    pub fn retain_subscribers(&mut self, id: Id, delivered: &Vec<bool>) -> (r: Result<(), Error>)
        requires
            old(self).subscriber_lists().contains_key(id) ==> delivered@.len()
                == old(self).subscriber_lists()[id].len(),
        ensures
            final(self).complete(),
            final(self).writers() == old(self).writers(),
            final(self).next_id() == old(self).next_id(),
            r is Ok <==> old(self).subscriber_lists().contains_key(id),
            r is Ok ==> final(self).subscriber_lists() == old(self).subscriber_lists().insert(
                id,
                kept(old(self).subscriber_lists()[id], delivered@),
            ),
            r is Err ==> r == Err::<(), Error>(Error::ConnectionNotFound(id))
                && final(self).subscriber_lists() == old(self).subscriber_lists(),
    {
        proof {
            use_type_invariant(&*self);
        }
        let mut state = Connections::new();
        std::mem::swap(&mut state, &mut self.state);
        let r = state.retain_subscribers(id, delivered);
        std::mem::swap(&mut state, &mut self.state);
        r
    }
}

impl<W, S> Default for ServerConnectionManager<W, S> {
    fn default() -> (m: Self)
        ensures
            m.writers() == Map::<Id, W>::empty(),
            m.subscriber_lists() == Map::<Id, Seq<S>>::empty(),
            m.next_id() == 0,
    {
        ServerConnectionManager::new()
    }
}

/// A connection is removed at most once: removing it again answers `ConnectionNotFound`.
pub proof fn lemma_removed_at_most_once<W, S>(writers: Map<Id, W>, subs: Map<Id, Seq<S>>, id: Id)
    ensures
        ({
            let (w, s, _) = disconnection(writers, subs, id);
            disconnection(w, s, id) == (w, s, Err::<(), Error>(Error::ConnectionNotFound(id)))
        }),
{
}

/// Nobody can subscribe to a connection that was removed.
pub proof fn lemma_no_subscription_after_removal<W, S>(
    writers: Map<Id, W>,
    subs: Map<Id, Seq<S>>,
    id: Id,
    channel: S,
)
    requires
        writers.dom() == subs.dom(),
    ensures
        ({
            let (_, s, _) = disconnection(writers, subs, id);
            subscription(s, id, channel).1 == Err::<(), Error>(Error::ConnectionNotFound(id))
        }),
{
}

/// Subscribers that receive every value are all kept, in their order.
pub proof fn lemma_all_delivered_kept<S>(subs: Seq<S>, delivered: Seq<bool>)
    requires
        delivered.len() == subs.len(),
        forall|i: int| 0 <= i < delivered.len() ==> #[trigger] delivered[i],
    ensures
        kept(subs, delivered) == subs,
    decreases subs.len(),
{
    if subs.len() > 0 {
        lemma_all_delivered_kept(subs.drop_first(), delivered.drop_first());
        assert(seq![subs[0]] + subs.drop_first() =~= subs);
    }
}

/// A subscriber that fails to receive a value is dropped: the kept ones are
/// never more than those offered, and one failure makes them fewer.
pub proof fn lemma_failed_subscriber_dropped<S>(subs: Seq<S>, delivered: Seq<bool>, i: int)
    requires
        delivered.len() == subs.len(),
        0 <= i < subs.len(),
        !delivered[i],
    ensures
        kept(subs, delivered).len() < subs.len(),
    decreases subs.len(),
{
    if i > 0 {
        lemma_failed_subscriber_dropped(subs.drop_first(), delivered.drop_first(), i - 1);
    } else {
        lemma_kept_len(subs.drop_first(), delivered.drop_first());
    }
}

/// Keeping never adds subscribers.
pub proof fn lemma_kept_len<S>(subs: Seq<S>, delivered: Seq<bool>)
    ensures
        kept(subs, delivered).len() <= subs.len(),
    decreases subs.len(),
{
    if subs.len() > 0 {
        lemma_kept_len(subs.drop_first(), delivered.drop_first());
    }
}

} // verus!
