//! The connection registry: which identifiers the engine has handed out,
//! what is known of the peer behind each, and whether the connection can
//! still be used. Records are never removed, and a connection that was
//! marked dead stays dead.

use std::collections::HashMap;
use vstd::prelude::*;

verus! {

broadcast use vstd::std_specs::hash::group_hash_axioms;

/// The identifier of a connection: a number that the engine assigned. The
/// bridge records and checks identifiers; it never makes one up.
pub type ConnectionId = u32;

/// What the registry knows of one connection.
#[derive(Debug, PartialEq, Eq)]
pub struct ConnectionRecord {
    pub id: ConnectionId,
    /// The peer's address; empty while it is unknown.
    pub peer_address: String,
    /// The peer's port; `None` while it is unknown.
    pub peer_port: Option<u16>,
    /// When the registry first saw the identifier.
    pub created_at: u64,
    pub alive: bool,
}

/// A record as a mathematical value.
pub struct RecordView {
    pub id: ConnectionId,
    pub peer_address: Seq<char>,
    pub peer_port: Option<u16>,
    pub created_at: u64,
    pub alive: bool,
}

impl View for ConnectionRecord {
    type V = RecordView;

    open spec fn view(&self) -> RecordView {
        RecordView {
            id: self.id,
            peer_address: self.peer_address@,
            peer_port: self.peer_port,
            created_at: self.created_at,
            alive: self.alive,
        }
    }
}

/// The characters of an address that may be absent.
pub open spec fn address_view(peer_address: Option<&str>) -> Option<Seq<char>> {
    match peer_address {
        Some(address) => Some(address@),
        None => None,
    }
}

/// The records of a registry as a mathematical value: a finite map from
/// identifiers to records.
pub type Records = Map<ConnectionId, RecordView>;

/// Whether `id` denotes a connection that can be used: it is on record and alive.
pub open spec fn usable(records: Records, id: ConnectionId) -> bool {
    records.contains_key(id) && records[id].alive
}

/// Whether every record is filed under its own identifier.
pub open spec fn well_keyed(records: Records) -> bool {
    forall|id: ConnectionId| #[trigger] records.contains_key(id) ==> records[id].id == id
}

/// The records after `id` was registered at time `now`. A new identifier
/// gets a live record with what was supplied. A known one keeps its record;
/// an address that is supplied and not empty replaces the address on record,
/// a port that is supplied replaces the port on record, and nothing else
/// changes: when the record was created and whether it is alive stay.
pub open spec fn registered(
    records: Records,
    id: ConnectionId,
    peer_address: Option<Seq<char>>,
    peer_port: Option<u16>,
    now: u64,
) -> Records {
    if records.contains_key(id) {
        let known = records[id];
        records.insert(
            id,
            RecordView {
                peer_address: match peer_address {
                    Some(address) if address.len() > 0 => address,
                    _ => known.peer_address,
                },
                peer_port: match peer_port {
                    Some(port) => Some(port),
                    None => known.peer_port,
                },
                ..known
            },
        )
    } else {
        records.insert(
            id,
            RecordView {
                id,
                peer_address: match peer_address {
                    Some(address) => address,
                    None => Seq::empty(),
                },
                peer_port,
                created_at: now,
                alive: true,
            },
        )
    }
}

/// The records after `id` was marked dead at time `now`. A known identifier
/// keeps its record but for `alive`; an unknown one gets a dead record with
/// nothing known of the peer, so that the identifier is remembered.
pub open spec fn marked_dead(records: Records, id: ConnectionId, now: u64) -> Records {
    if records.contains_key(id) {
        records.insert(id, RecordView { alive: false, ..records[id] })
    } else {
        records.insert(
            id,
            RecordView {
                id,
                peer_address: Seq::empty(),
                peer_port: None,
                created_at: now,
                alive: false,
            },
        )
    }
}

/// One change to the registry.
pub enum RegistryOp {
    Register {
        id: ConnectionId,
        peer_address: Option<Seq<char>>,
        peer_port: Option<u16>,
        now: u64,
    },
    MarkDead { id: ConnectionId, now: u64 },
}

impl RegistryOp {
    /// The identifier that the change is about.
    pub open spec fn id(self) -> ConnectionId {
        match self {
            RegistryOp::Register { id, .. } => id,
            RegistryOp::MarkDead { id, .. } => id,
        }
    }

    /// The records after the change.
    pub open spec fn apply(self, records: Records) -> Records {
        match self {
            RegistryOp::Register { id, peer_address, peer_port, now } => registered(
                records,
                id,
                peer_address,
                peer_port,
                now,
            ),
            RegistryOp::MarkDead { id, now } => marked_dead(records, id, now),
        }
    }
}

/// The records after the changes of `ops` were made in order.
pub open spec fn applied(records: Records, ops: Seq<RegistryOp>) -> Records
    decreases ops.len(),
{
    if ops.len() == 0 {
        records
    } else {
        ops.last().apply(applied(records, ops.drop_last()))
    }
}

/// Registering is idempotent: doing it a second time with the same
/// arguments, at whatever time, changes nothing.
pub proof fn lemma_register_idempotent(
    records: Records,
    id: ConnectionId,
    peer_address: Option<Seq<char>>,
    peer_port: Option<u16>,
    first: u64,
    second: u64,
)
    ensures
        registered(
            registered(records, id, peer_address, peer_port, first),
            id,
            peer_address,
            peer_port,
            second,
        ) == registered(records, id, peer_address, peer_port, first),
{
    let once = registered(records, id, peer_address, peer_port, first);
    let twice = registered(once, id, peer_address, peer_port, second);
    assert(twice =~= once);
}

/// A change leaves the records of all other identifiers as they were, keeps
/// every identifier on record, and keeps each record under its identifier
/// with its time of creation.
pub proof fn lemma_change_is_local(records: Records, op: RegistryOp, other: ConnectionId)
    ensures
        op.apply(records).contains_key(op.id()),
        records.contains_key(other) ==> op.apply(records).contains_key(other),
        other != op.id() ==> (op.apply(records).contains_key(other) <==> records.contains_key(
            other,
        )),
        other != op.id() && records.contains_key(other) ==> op.apply(records)[other]
            == records[other],
        records.contains_key(other) ==> op.apply(records)[other].created_at
            == records[other].created_at,
        well_keyed(records) ==> well_keyed(op.apply(records)),
{
}

/// No change revives a connection: whatever is done to the registry, an
/// identifier that is on record and dead before is on record and dead
/// afterwards.
pub proof fn lemma_change_never_revives(records: Records, op: RegistryOp, id: ConnectionId)
    requires
        records.contains_key(id),
        !records[id].alive,
    ensures
        op.apply(records).contains_key(id),
        !op.apply(records)[id].alive,
{
}

/// Once dead, always dead: after an identifier was marked dead, no sequence
/// of further changes makes it usable again.
pub proof fn lemma_dead_forever(
    records: Records,
    id: ConnectionId,
    now: u64,
    ops: Seq<RegistryOp>,
)
    ensures
        !usable(applied(marked_dead(records, id, now), ops), id),
        applied(marked_dead(records, id, now), ops).contains_key(id),
    decreases ops.len(),
{
    if ops.len() > 0 {
        lemma_dead_forever(records, id, now, ops.drop_last());
        lemma_change_never_revives(
            applied(marked_dead(records, id, now), ops.drop_last()),
            ops.last(),
            id,
        );
    }
}

/// An identifier that no change was about is not on record, and so not usable.
pub proof fn lemma_unmentioned_unknown(ops: Seq<RegistryOp>, id: ConnectionId)
    requires
        forall|i: int| 0 <= i < ops.len() ==> (#[trigger] ops[i]).id() != id,
    ensures
        !applied(Map::empty(), ops).contains_key(id),
        !usable(applied(Map::empty(), ops), id),
    decreases ops.len(),
{
    if ops.len() > 0 {
        lemma_unmentioned_unknown(ops.drop_last(), id);
        lemma_change_is_local(applied(Map::empty(), ops.drop_last()), ops.last(), id);
    }
}

/// What is stored for one identifier.
struct Entry {
    peer_address: String,
    peer_port: Option<u16>,
    created_at: u64,
    alive: bool,
}

impl Entry {
    spec fn record(self, id: ConnectionId) -> RecordView {
        RecordView {
            id,
            peer_address: self.peer_address@,
            peer_port: self.peer_port,
            created_at: self.created_at,
            alive: self.alive,
        }
    }
}

/// The registry of connections, keyed by the identifiers that the engine assigned.
pub struct Registry {
    entries: HashMap<ConnectionId, Entry>,
}

impl View for Registry {
    type V = Records;

    closed spec fn view(&self) -> Records {
        Map::new(
            |id: ConnectionId| self.entries@.contains_key(id),
            |id: ConnectionId| self.entries@[id].record(id),
        )
    }
}

impl Registry {
    /// A registry without records.
    pub fn new() -> (registry: Registry)
        ensures
            registry@ == Map::<ConnectionId, RecordView>::empty(),
    {
        let registry = Registry { entries: HashMap::new() };
        assert(registry@ =~= Map::<ConnectionId, RecordView>::empty());
        registry
    }

    /// Every record is filed under its own identifier, and there are
    /// finitely many.
    pub proof fn lemma_well_keyed(&self)
        ensures
            well_keyed(self@),
            self@.dom().finite(),
    {
        assert(self@.dom() =~= self.entries@.dom());
    }

    /// Records `id`, at time `now`, with what is known of the peer. See
    /// [`registered`] for what changes when the identifier is known already.
    pub fn register(
        &mut self,
        id: ConnectionId,
        peer_address: Option<&str>,
        peer_port: Option<u16>,
        now: u64,
    )
        ensures
            final(self)@ == registered(old(self)@, id, address_view(peer_address), peer_port, now),
    {
        let entry = match self.entries.remove(&id) {
            Some(known) => {
                let address = match peer_address {
                    Some(address) if !address.is_empty() => address.to_owned(),
                    _ => known.peer_address,
                };
                let port = match peer_port {
                    Some(port) => Some(port),
                    None => known.peer_port,
                };
                Entry {
                    peer_address: address,
                    peer_port: port,
                    created_at: known.created_at,
                    alive: known.alive,
                }
            },
            None => Entry {
                peer_address: match peer_address {
                    Some(address) => address.to_owned(),
                    None => String::new(),
                },
                peer_port,
                created_at: now,
                alive: true,
            },
        };
        self.entries.insert(id, entry);
        assert(self@ =~= registered(old(self)@, id, address_view(peer_address), peer_port, now));
    }

    /// Marks `id` as no longer usable. An identifier that is not on record
    /// gets a dead record created at time `now`.
    pub fn mark_dead(&mut self, id: ConnectionId, now: u64)
        ensures
            final(self)@ == marked_dead(old(self)@, id, now),
    {
        let entry = match self.entries.remove(&id) {
            Some(known) => Entry {
                peer_address: known.peer_address,
                peer_port: known.peer_port,
                created_at: known.created_at,
                alive: false,
            },
            None => Entry {
                peer_address: String::new(),
                peer_port: None,
                created_at: now,
                alive: false,
            },
        };
        self.entries.insert(id, entry);
        assert(self@ =~= marked_dead(old(self)@, id, now));
    }

    /// Whether `id` is on record and alive.
    pub fn is_usable(&self, id: ConnectionId) -> (r: bool)
        ensures
            r == usable(self@, id),
    {
        match self.entries.get(&id) {
            Some(entry) => entry.alive,
            None => false,
        }
    }

    /// Whether `id` is on record, alive or not.
    pub fn contains(&self, id: ConnectionId) -> (r: bool)
        ensures
            r == self@.contains_key(id),
    {
        self.entries.contains_key(&id)
    }

    /// The record of `id`, if there is one.
    pub fn get(&self, id: ConnectionId) -> (r: Option<ConnectionRecord>)
        ensures
            match r {
                Some(record) => self@.contains_key(id) && record@ == self@[id],
                None => !self@.contains_key(id),
            },
    {
        match self.entries.get(&id) {
            Some(entry) => Some(
                ConnectionRecord {
                    id,
                    peer_address: entry.peer_address.clone(),
                    peer_port: entry.peer_port,
                    created_at: entry.created_at,
                    alive: entry.alive,
                },
            ),
            None => None,
        }
    }

    /// The number of identifiers on record.
    pub fn len(&self) -> (n: usize)
        ensures
            n == self@.dom().len(),
    {
        assert(self@.dom() =~= self.entries@.dom());
        self.entries.len()
    }
}

} // verus!
