//! The peer registry: who is connected, and the queue that reaches each.
//!
//! A peer is known by its display name and by its address. An address is a
//! number that stands for the peer's stream connection; the registry only
//! asks that no two live connections share one.
//!
//! The registry is one value. A server shares it between its sessions
//! behind a lock, and holds the lock for the length of one call: no call
//! here waits on a socket, for a delivery is put on a queue, not sent.
//!
//! A name is registered once and an address has one name. The last to
//! register wins: a peer that registers a name or an address that is taken
//! replaces the peer that held it, and a peer that leaves takes with it only
//! what is still registered to it. So names and queues agree in every
//! registry that was made by the calls of this file.
//!
//! Whether a queue takes what it is handed depends on its receiving end,
//! which a session holds. The contracts speak of every response that was
//! handed to a queue, with whether the queue took it.

use std::collections::HashMap;
use vstd::prelude::*;
use vstd::std_specs::hash::{axiom_spec_hash_map_iter, group_hash_axioms, spec_hash_map_iter};
use vstd::std_specs::iter::IteratorSpec;
use crate::common::message::{Message, Response, ResponseView};
use crate::server::channel::{self, closed, handed, Handed, Receiver, Sender};
use crate::server::consistency::{
    lemma_add_keeps_consistent,
    lemma_deliveries_keep_consistent,
    lemma_remove_keeps_consistent,
};
use crate::server::names::{self, inserted, pairs, Names};

verus! {

broadcast use group_hash_axioms;

/// What a session keeps of its registration: its name and the receiving end
/// of its delivery queue.
pub struct Peer {
    pub name: String,
    pub internal_rx: Receiver,
}

/// Why a message could not be routed.
#[derive(Debug, Clone, Copy, PartialEq, Eq, Structural)]
pub enum SendError {
    /// No peer is registered under the receiver's name.
    UserNotFound,
    /// The receiver's delivery queue takes nothing more.
    InternalChannelFailed,
}

impl SendError {
    pub open spec fn text(&self) -> Seq<char> {
        match self {
            SendError::UserNotFound => "user not found"@,
            SendError::InternalChannelFailed => "internal channel failed"@,
        }
    }

    /// The reason in words.
    pub fn to_string(&self) -> (s: String)
        ensures
            s@ == self.text(),
    {
        match self {
            SendError::UserNotFound => "user not found".to_owned(),
            SendError::InternalChannelFailed => "internal channel failed".to_owned(),
        }
    }
}

/// The responses among `log` that were taken, in their order.
pub open spec fn took(log: Seq<Handed>) -> Seq<ResponseView>
    decreases log.len(),
{
    if log.len() == 0 {
        Seq::empty()
    } else if log.last().taken {
        took(log.drop_last()).push(log.last().response)
    } else {
        took(log.drop_last())
    }
}

/// The registry as a mathematical value.
///
/// `names` maps each registered name to its address. `queues` maps each
/// registered address to the responses that were handed to its delivery
/// queue since the address was registered, oldest first, each with whether
/// the queue took it.
pub struct Registry {
    pub names: Map<Seq<char>, u64>,
    pub queues: Map<u64, Seq<Handed>>,
}

impl Registry {
    pub open spec fn empty() -> Registry {
        Registry { names: Map::empty(), queues: Map::empty() }
    }

    /// The registry after `name` was registered at `address` with a new,
    /// empty queue. The last to register wins: the address that the name
    /// was registered at loses its queue, and the name that was registered
    /// at the address is gone.
    pub open spec fn added(self, name: Seq<char>, address: u64) -> Registry {
        Registry {
            names: inserted(self.names, name, address),
            queues: (if self.names.contains_key(name) {
                self.queues.remove(self.names[name])
            } else {
                self.queues
            }).insert(address, Seq::empty()),
        }
    }

    /// Whether `name` is registered at `address`.
    pub open spec fn holds(self, name: Seq<char>, address: u64) -> bool {
        self.names.contains_key(name) && self.names[name] == address
    }

    /// The registry after the peer `name` at `address` left: without the
    /// name and the queue of the address if the name is registered at that
    /// address, and as it is if not.
    pub open spec fn removed(self, name: Seq<char>, address: u64) -> Registry {
        if self.holds(name, address) {
            Registry { names: self.names.remove(name), queues: self.queues.remove(address) }
        } else {
            self
        }
    }

    /// The address that a message to `receiver` goes to: the one registered
    /// under that name, provided it has a queue.
    pub open spec fn route(self, receiver: Seq<char>) -> Option<u64> {
        if self.names.contains_key(receiver) && self.queues.contains_key(self.names[receiver]) {
            Some(self.names[receiver])
        } else {
            None
        }
    }

    /// The registry after `response` was handed to the queue of `address`,
    /// which took it or did not.
    pub open spec fn handed(self, address: u64, response: ResponseView, taken: bool) -> Registry {
        Registry {
            names: self.names,
            queues: self.queues.insert(
                address,
                self.queues[address].push(Handed { response, taken }),
            ),
        }
    }

    /// Whether `after` is this registry after `response` was handed once to
    /// every queue: the same names and addresses, and each queue has the
    /// response as its newest item, taken or not, behind what it had.
    pub open spec fn offered(self, response: ResponseView, after: Registry) -> bool {
        &&& after.names == self.names
        &&& after.queues.dom() == self.queues.dom()
        &&& forall|address: u64| #[trigger]
            self.queues.contains_key(address) ==> {
                ||| after.queues[address] == self.queues[address].push(
                    Handed { response, taken: true },
                )
                ||| after.queues[address] == self.queues[address].push(
                    Handed { response, taken: false },
                )
            }
    }

    /// The responses that the queue of `address` took, oldest first: what
    /// its receiving end is given.
    pub open spec fn taken(self, address: u64) -> Seq<ResponseView> {
        took(self.queues[address])
    }

    /// Whether two registries hold the same names at the same addresses,
    /// whatever their queues have taken.
    pub open spec fn same_entries(self, other: Registry) -> bool {
        self.names == other.names && self.queues.dom() == other.queues.dom()
    }

    /// Names and queues agree: no two names share an address, every name
    /// maps to an address that has a queue, and every address that has a
    /// queue belongs to a name.
    pub open spec fn consistent(self) -> bool {
        &&& forall|a: Seq<char>, b: Seq<char>|
            self.names.contains_key(a) && self.names.contains_key(b) && self.names[a]
                == self.names[b] ==> a == b
        &&& forall|name: Seq<char>| #[trigger]
            self.names.contains_key(name) ==> self.queues.contains_key(self.names[name])
        &&& forall|address: u64| #[trigger]
            self.queues.contains_key(address) ==> exists|name: Seq<char>|
                self.names.contains_key(name) && #[trigger] self.names[name] == address
    }
}

/// The peer registry of a server.
pub struct State {
    peers: HashMap<u64, Sender>,
    names: Names,
}

impl View for State {
    type V = Registry;

    closed spec fn view(&self) -> Registry {
        Registry {
            names: pairs(self.names),
            queues: Map::new(
                |address: u64| self.peers@.contains_key(address),
                |address: u64| handed(self.peers@[address]),
            ),
        }
    }
}

/// What [`State::send`] returns once the receiver is found: success if its
/// queue took the message, the channel's failure if not.
pub fn delivery(accepted: bool) -> (r: Result<(), SendError>)
    ensures
        r == (if accepted {
            Ok::<(), SendError>(())
        } else {
            Err(SendError::InternalChannelFailed)
        }),
{
    if accepted {
        Ok(())
    } else {
        Err(SendError::InternalChannelFailed)
    }
}

impl State {
    /// A registry without peers.
    pub fn new() -> (state: Self)
        ensures
            state@ == Registry::empty(),
    {
        let state = State { peers: HashMap::new(), names: names::new() };
        assert(state@.queues =~= Map::empty());
        state
    }

    /// Registers `name` at `address` with a new, open delivery queue, keeps
    /// its sending end and returns its receiving end. Who held the name or
    /// the address before is replaced and loses its queue.
    pub fn add(&mut self, address: u64, name: &str) -> (peer: Peer)
        ensures
            final(self)@ == old(self)@.added(name@, address),
            old(self)@.consistent() ==> final(self)@.consistent(),
            peer.name@ == name@,
            !closed(peer.internal_rx),
    {
        let (internal_tx, internal_rx) = channel::open();

        match names::get_by_left(&self.names, name) {
            Some(previous) => { self.peers.remove(&previous); },
            None => {},
        }
        self.peers.insert(address, internal_tx);
        names::insert(&mut self.names, name.to_owned(), address);

        let name = name.to_owned();

        proof {
            assert(self@.queues =~= old(self)@.added(name@, address).queues);
            if old(self)@.consistent() {
                lemma_add_keeps_consistent(old(self)@, name@, address);
            }
        }
        Peer { name, internal_rx }
    }

    /// Takes the peer `name` at `address` out of the registry. If the name
    /// is not registered at the address, nothing changes: a peer that was
    /// replaced, or never registered, takes nothing with it.
    pub fn remove(&mut self, name: &str, address: u64)
        ensures
            final(self)@ == old(self)@.removed(name@, address),
            old(self)@.consistent() ==> final(self)@.consistent(),
    {
        match names::get_by_left(&self.names, name) {
            Some(registered) => {
                if registered == address {
                    self.peers.remove(&address);
                    names::remove_by_left(&mut self.names, name);
                    assert(self@.queues =~= old(self)@.queues.remove(address));
                }
            },
            None => {},
        }
        proof {
            if old(self)@.consistent() {
                lemma_remove_keeps_consistent(old(self)@, name@, address);
            }
        }
    }

    /// Routes a direct message: hands it, as a response, to the queue of
    /// the peer registered under the receiver's name, and to no other.
    pub fn send(&mut self, message: Message) -> (r: Result<(), SendError>)
        ensures
            match old(self)@.route(message@.receiver) {
                None => r == Err::<(), SendError>(SendError::UserNotFound) && final(self)@ == old(
                    self,
                )@,
                Some(address) => {
                    &&& r == Ok::<(), SendError>(()) || r == Err::<(), SendError>(
                        SendError::InternalChannelFailed,
                    )
                    &&& final(self)@ == old(self)@.handed(
                        address,
                        ResponseView::Message(message@),
                        r.is_ok(),
                    )
                },
            },
            old(self)@.consistent() ==> final(self)@.consistent(),
    {
        let address = match names::get_by_left(&self.names, message.get_receiver()) {
            Some(address) => address,
            None => { return Err(SendError::UserNotFound); },
        };
        let mut receiver = match self.peers.remove(&address) {
            Some(receiver) => receiver,
            None => {
                assert(self@.queues =~= old(self)@.queues);
                return Err(SendError::UserNotFound);
            },
        };
        let ghost content = ResponseView::Message(message@);
        let message = Response::Message(message);
        let accepted = channel::send(&mut receiver, message);
        self.peers.insert(address, receiver);
        proof {
            assert(self@.queues =~= old(self)@.handed(address, content, accepted).queues);
            assert(self@.queues.dom() =~= old(self)@.queues.dom());
            if old(self)@.consistent() {
                lemma_deliveries_keep_consistent(old(self)@, self@);
            }
        }
        delivery(accepted)
    }

    /// The addresses that have a queue, each once, in no order that callers
    /// may count on.
    fn addresses(&self) -> (addresses: Vec<u64>)
        ensures
            addresses@.no_duplicates(),
            forall|address: u64|
                addresses@.contains(address) <==> #[trigger] self@.queues.contains_key(address),
    {
        let mut addresses: Vec<u64> = Vec::new();
        proof {
            axiom_spec_hash_map_iter(&self.peers);
        }
        for (address, _tx) in it: self.peers.iter()
            invariant
                it.seq() == spec_hash_map_iter(&self.peers).remaining(),
                it.seq().no_duplicates(),
                addresses@.len() == it.index(),
                forall|j: int| 0 <= j < it.index() ==> addresses@[j] == *(#[trigger] it.seq()[j]).0,
        {
            addresses.push(*address);
        }
        proof {
            let all = spec_hash_map_iter(&self.peers).remaining();
            assert forall|i: int, j: int|
                0 <= i < addresses@.len() && 0 <= j < addresses@.len() && i != j implies addresses@[i]
                != addresses@[j] by {
                let x = all[i];
                let y = all[j];
                assert(self.peers@[*x.0] == *x.1);
                assert(self.peers@[*y.0] == *y.1);
                if *x.0 == *y.0 {
                    assert(x == y);
                }
            }
            assert forall|address: u64| #[trigger]
                self@.queues.contains_key(address) implies addresses@.contains(address) by {
                let pair = (&address, &self.peers@[address]);
                assert(all.contains(pair));
                let j = choose|j: int| 0 <= j < all.len() && all[j] == pair;
                assert(addresses@[j] == address);
            }
            assert forall|address: u64| addresses@.contains(address) implies #[trigger]
                self@.queues.contains_key(address) by {
                let j = choose|j: int| 0 <= j < addresses@.len() && addresses@[j] == address;
                assert(self.peers@.contains_key(*all[j].0));
            }
        }
        addresses
    }

    /// Hands a copy of the message, as a response, to the queue of every
    /// registered peer, once. A queue that takes nothing more does not keep
    /// the others from being served.
    pub fn broadcast(&mut self, message: Message) -> (r: Result<(), SendError>)
        ensures
            r == Ok::<(), SendError>(()),
            old(self)@.offered(ResponseView::Message(message@), final(self)@),
            old(self)@.consistent() ==> final(self)@.consistent(),
    {
        let message = Response::Message(message);
        let ghost content = message@;
        let addresses = self.addresses();

        let mut i: usize = 0;
        while i < addresses.len()
            invariant
                i <= addresses.len(),
                message@ == content,
                self.names == old(self).names,
                self.peers@.dom() == old(self).peers@.dom(),
                addresses@.no_duplicates(),
                forall|address: u64|
                    addresses@.contains(address) <==> #[trigger] old(self)@.queues.contains_key(
                        address,
                    ),
                forall|j: int|
                    0 <= j < i ==> served(
                        handed(old(self).peers@[#[trigger] addresses@[j]]),
                        handed(self.peers@[addresses@[j]]),
                        content,
                    ),
                forall|j: int|
                    i <= j < addresses.len() ==> self.peers@[#[trigger] addresses@[j]] == old(
                        self,
                    ).peers@[addresses@[j]],
            decreases addresses.len() - i,
        {
            let address = addresses[i];
            let ghost before = self.peers@;
            proof {
                assert(addresses@.contains(address));
                assert(old(self)@.queues.contains_key(address));
            }
            match self.peers.remove(&address) {
                Some(tx) => {
                    let mut tx = tx;
                    let _ignore = channel::send(&mut tx, message.clone());
                    self.peers.insert(address, tx);
                },
                None => {},
            }
            proof {
                assert(self.peers@.dom() =~= old(self).peers@.dom());
                assert forall|j: int| 0 <= j < addresses.len() && j != i implies self.peers@[
                #[trigger] addresses@[j]] == before[addresses@[j]] by {}
            }
            i += 1;
        }
        proof {
            assert forall|address: u64| #[trigger]
                old(self)@.queues.contains_key(address) implies served(
                old(self)@.queues[address],
                self@.queues[address],
                content,
            ) by {
                assert(addresses@.contains(address));
                let j = choose|j: int| 0 <= j < addresses@.len() && addresses@[j] == address;
                assert(served(
                    handed(old(self).peers@[addresses@[j]]),
                    handed(self.peers@[addresses@[j]]),
                    content,
                ));
            }
            assert(self@.queues.dom() =~= old(self)@.queues.dom());
            assert(old(self)@.offered(content, self@));
            if old(self)@.consistent() {
                lemma_deliveries_keep_consistent(old(self)@, self@);
            }
        }
        Ok(())
    }
}

/// Whether `after` is `before` and behind it `response`, taken or not.
spec fn served(before: Seq<Handed>, after: Seq<Handed>, response: ResponseView) -> bool {
    ||| after == before.push(Handed { response, taken: true })
    ||| after == before.push(Handed { response, taken: false })
}

} // verus!
