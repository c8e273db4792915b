//! What holds of the registry across registrations and removals.

use vstd::prelude::*;
use crate::common::message::ResponseView;
use crate::server::names::inserted;
use crate::server::channel::Handed;
use crate::server::state::Registry;

verus! {

/// A change that a session makes to the registry when it comes or goes.
pub enum Change {
    Add { name: Seq<char>, address: u64 },
    Remove { name: Seq<char>, address: u64 },
}

impl Registry {
    pub open spec fn apply(self, change: Change) -> Registry {
        match change {
            Change::Add { name, address } => self.added(name, address),
            Change::Remove { name, address } => self.removed(name, address),
        }
    }

    /// The registry after the changes, made in order.
    pub open spec fn apply_all(self, changes: Seq<Change>) -> Registry
        decreases changes.len(),
    {
        if changes.len() == 0 {
            self
        } else {
            self.apply(changes[0]).apply_all(changes.drop_first())
        }
    }
}

/// The empty registry is consistent.
pub proof fn lemma_empty_consistent()
    ensures
        Registry::empty().consistent(),
{
}

/// Registering keeps names and queues in agreement, whatever name and
/// address come: who held either is replaced whole.
pub proof fn lemma_add_keeps_consistent(registry: Registry, name: Seq<char>, address: u64)
    requires
        registry.consistent(),
    ensures
        registry.added(name, address).consistent(),
{
    let after = registry.added(name, address);
    assert forall|n: Seq<char>| #[trigger]
        after.names.contains_key(n) implies after.queues.contains_key(after.names[n]) by {
        if n != name {
            assert(registry.names.contains_key(n));
            assert(registry.queues.contains_key(registry.names[n]));
        }
    }
    assert forall|a: u64| #[trigger] after.queues.contains_key(a) implies exists|n: Seq<char>|
        after.names.contains_key(n) && #[trigger] after.names[n] == a by {
        if a == address {
            assert(after.names.contains_key(name) && after.names[name] == a);
        } else {
            assert(registry.queues.contains_key(a));
            let n = choose|n: Seq<char>|
                registry.names.contains_key(n) && #[trigger] registry.names[n] == a;
            assert(after.names.contains_key(n) && after.names[n] == a);
        }
    }
}

/// Leaving keeps names and queues in agreement, whatever name and address
/// leave: what is not registered together is left alone.
pub proof fn lemma_remove_keeps_consistent(registry: Registry, name: Seq<char>, address: u64)
    requires
        registry.consistent(),
    ensures
        registry.removed(name, address).consistent(),
{
    let after = registry.removed(name, address);
    if registry.holds(name, address) {
        assert forall|n: Seq<char>| #[trigger]
            after.names.contains_key(n) implies after.queues.contains_key(after.names[n]) by {
            assert(registry.names.contains_key(n));
            assert(registry.queues.contains_key(registry.names[n]));
        }
        assert forall|a: u64| #[trigger] after.queues.contains_key(a) implies exists|n: Seq<char>|
            after.names.contains_key(n) && #[trigger] after.names[n] == a by {
            assert(registry.queues.contains_key(a));
            let n = choose|n: Seq<char>|
                registry.names.contains_key(n) && #[trigger] registry.names[n] == a;
            assert(after.names.contains_key(n) && after.names[n] == a);
        }
    }
}

/// Agreement of names and queues does not depend on what the queues have
/// taken: routing and broadcasting keep it.
pub proof fn lemma_deliveries_keep_consistent(before: Registry, after: Registry)
    requires
        before.consistent(),
        before.same_entries(after),
    ensures
        after.consistent(),
{
    assert forall|a: u64| #[trigger] after.queues.contains_key(a) implies exists|n: Seq<char>|
        after.names.contains_key(n) && #[trigger] after.names[n] == a by {
        assert(before.queues.contains_key(a));
    }
}

/// A direct delivery and an offer to all leave the names and the set of
/// addresses as they were.
pub proof fn lemma_deliveries_keep_entries(
    before: Registry,
    address: u64,
    response: ResponseView,
    after: Registry,
)
    requires
        before.queues.contains_key(address) && (after == before.handed(address, response, true)
            || after == before.handed(address, response, false)) || before.offered(
            response,
            after,
        ),
    ensures
        before.same_entries(after),
{
    if !before.offered(response, after) {
        assert(after.queues.dom() =~= before.queues.dom());
    }
}

/// What a queue took grows by a response exactly when the response is
/// handed to it and it takes it; what the other queues took stays.
pub proof fn lemma_handed_is_taken_once(
    registry: Registry,
    address: u64,
    response: ResponseView,
    taken: bool,
    other: u64,
)
    requires
        registry.queues.contains_key(address),
        other != address,
    ensures
        registry.handed(address, response, taken).taken(address) == if taken {
            registry.taken(address).push(response)
        } else {
            registry.taken(address)
        },
        registry.handed(address, response, taken).taken(other) == registry.taken(other),
{
    let before = registry.queues[address];
    let after = before.push(Handed { response, taken });
    assert(after.drop_last() =~= before);
}

/// A broadcast reaches every registered queue, the sender's own included,
/// exactly once: the queue holds what it held, and behind it the response.
/// What the queue took grows by the response if it took it and stays if
/// not, whatever the other queues did with theirs.
pub proof fn lemma_offered_reaches_every_queue(
    before: Registry,
    response: ResponseView,
    after: Registry,
    address: u64,
)
    requires
        before.offered(response, after),
        before.queues.contains_key(address),
    ensures
        after.queues.contains_key(address),
        after.queues[address].len() == before.queues[address].len() + 1,
        after.queues[address].drop_last() == before.queues[address],
        after.queues[address].last().response == response,
        after.taken(address) == if after.queues[address].last().taken {
            before.taken(address).push(response)
        } else {
            before.taken(address)
        },
{
    let old_queue = before.queues[address];
    let new_queue = after.queues[address];
    assert(after.queues.dom().contains(address));
    if new_queue == old_queue.push(Handed { response, taken: true }) {
        assert(new_queue.drop_last() =~= old_queue);
    } else {
        assert(new_queue == old_queue.push(Handed { response, taken: false }));
        assert(new_queue.drop_last() =~= old_queue);
    }
}

/// Whatever sessions come and go, in whatever order and with whatever names
/// and addresses, names and queues agree after each of them: every name maps
/// to an address that has a queue, and every queue belongs to a name.
pub proof fn lemma_changes_keep_consistent(registry: Registry, changes: Seq<Change>)
    requires
        registry.consistent(),
    ensures
        registry.apply_all(changes).consistent(),
    decreases changes.len(),
{
    if changes.len() > 0 {
        match changes[0] {
            Change::Add { name, address } => lemma_add_keeps_consistent(registry, name, address),
            Change::Remove { name, address } => lemma_remove_keeps_consistent(
                registry,
                name,
                address,
            ),
        }
        lemma_changes_keep_consistent(registry.apply(changes[0]), changes.drop_first());
    }
}

/// A session that registers and then leaves, with only deliveries in
/// between, leaves nothing behind: the registry holds neither its name nor
/// its address, and no other name at that address. `joined` is the registry
/// as the registration and its announcement leave it, `after` as the
/// farewell and the removal leave it.
pub proof fn lemma_sign_in_then_sign_out_leaves_nothing(
    before: Registry,
    name: Seq<char>,
    address: u64,
    joined: Registry,
    after: Registry,
)
    requires
        before.added(name, address).same_entries(joined),
        joined.removed(name, address).same_entries(after),
    ensures
        !after.names.contains_key(name),
        !after.queues.contains_key(address),
        forall|other: Seq<char>| after.names.contains_key(other) ==> after.names[other] != address,
{
    assert(joined.names == inserted(before.names, name, address));
    assert(after.names == joined.names.remove(name));
    assert(after.queues.dom() == joined.queues.dom().remove(address));
}

/// If the registry was consistent before and the name and address were
/// free, a session that registers and leaves puts the registry back to the
/// names and addresses that it held.
pub proof fn lemma_sign_in_then_sign_out_restores(
    before: Registry,
    name: Seq<char>,
    address: u64,
    joined: Registry,
    after: Registry,
)
    requires
        before.consistent(),
        !before.names.contains_key(name),
        !before.queues.contains_key(address),
        before.added(name, address).same_entries(joined),
        joined.removed(name, address).same_entries(after),
    ensures
        before.same_entries(after),
{
    assert(joined.names == inserted(before.names, name, address));
    assert forall|n: Seq<char>| before.names.contains_key(n) implies #[trigger] before.names[n]
        != address by {
        assert(before.queues.contains_key(before.names[n]));
    }
    assert(after.names =~= before.names);
    assert(after.queues.dom() =~= before.queues.dom());
}

} // verus!
