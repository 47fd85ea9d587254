//! Ticket locks and the state machine that hands them out.
//!
//! Locks are exclusive. Whether a lock has expired is judged by the time in the command, not by a
//! clock, so every node that applies the same commands comes to the same locks.

use vstd::prelude::*;
use vstd::string::*;

use crate::bytes::{be8, be8_injective, to_be8};
use crate::db::storage::{Held, Lookup, Storage, StorageError};
use crate::ids::{show_uuid, uuid_text};
use crate::raft::codec::Command;
use crate::raft::types::{first_membership, LogId, StoredMembership};
use crate::record::{json_error_text, read_record, record_json, record_of, write_record, Record,
    RecordView};
use crate::text::{blob_of, dec, decimal, text_of};

verus! {

/// The collection of locks.
pub const TREE_LOCKS: &'static str = "locks";

/// A lock on a ticket.
#[derive(Debug, Clone, Copy, PartialEq, Eq, Structural)]
pub struct LockInfo {
    pub ticket_id: u64,
    pub user_id: u128,
    pub acquired_at_unix: i64,
    /// When the lock expires; `0` means never.
    pub expires_at_unix: i64,
}

/// A replicated command on locks.
#[derive(Debug, Clone, Copy, PartialEq, Eq, Structural)]
pub enum LockCommand {
    AcquireLock {
        ticket_id: u64,
        user_id: u128,
        at_unix: i64,
        /// How long the lock lasts; `0` means until it is released.
        ttl_secs: i64,
    },
    ReleaseLock { ticket_id: u64, user_id: u128 },
}

/// The outcome of a command on locks.
#[derive(Debug, Clone)]
pub struct LockResponse {
    pub success: bool,
    pub error: Option<String>,
    pub value: Option<Vec<u8>>,
}

/// What the outcome of a command on locks says.
pub struct LockResponseView {
    pub success: bool,
    pub error: Option<Seq<char>>,
    pub value: Option<Seq<u8>>,
}

impl View for LockResponse {
    type V = LockResponseView;

    open spec fn view(&self) -> LockResponseView {
        LockResponseView {
            success: self.success,
            error: text_of(self.error),
            value: blob_of(self.value),
        }
    }
}

/// The command succeeded.
pub open spec fn granted() -> LockResponseView {
    LockResponseView { success: true, error: None, value: None }
}

/// The command was refused, for the given reason.
pub open spec fn refused(reason: Seq<char>) -> LockResponseView {
    LockResponseView { success: false, error: Some(reason), value: None }
}

/// The upper half of an id.
pub open spec fn high_half(id: u128) -> u64 {
    (id / 0x1_0000_0000_0000_0000) as u64
}

/// The lower half of an id.
pub open spec fn low_half(id: u128) -> u64 {
    (id % 0x1_0000_0000_0000_0000) as u64
}

/// The id with the given halves.
pub open spec fn id_of_halves(high: u64, low: u64) -> u128 {
    (high as u128 * 0x1_0000_0000_0000_0000 + low as u128) as u128
}

/// The halves of an id make the id.
proof fn halves_round_trip(id: u128)
    ensures
        id_of_halves(high_half(id), low_half(id)) == id,
{
    assert(id / 0x1_0000_0000_0000_0000 <= u64::MAX);
}

pub(crate) fn split_id(id: u128) -> (out: (u64, u64))
    ensures
        out == (high_half(id), low_half(id)),
{
    assert(id / 0x1_0000_0000_0000_0000 <= u64::MAX);
    ((id / 0x1_0000_0000_0000_0000) as u64, (id % 0x1_0000_0000_0000_0000) as u64)
}

fn join_id(high: u64, low: u64) -> (out: u128)
    ensures
        out == id_of_halves(high, low),
{
    high as u128 * 0x1_0000_0000_0000_0000 + low as u128
}

impl View for LockCommand {
    type V = LockCommand;

    open spec fn view(&self) -> LockCommand {
        *self
    }
}

impl Command for LockCommand {
    open spec fn record_view(v: LockCommand) -> RecordView {
        let (counts, stamps) = match v {
            LockCommand::AcquireLock { ticket_id, user_id, at_unix, ttl_secs } => (
                seq![0u64, ticket_id, high_half(user_id), low_half(user_id)],
                seq![at_unix, ttl_secs],
            ),
            LockCommand::ReleaseLock { ticket_id, user_id } => (
                seq![1u64, ticket_id, high_half(user_id), low_half(user_id)],
                Seq::empty(),
            ),
        };
        RecordView {
            counts,
            groups: Seq::empty(),
            stamps,
            texts: Seq::empty(),
            blobs: Seq::empty(),
        }
    }

    open spec fn of_record(r: RecordView) -> Option<LockCommand> {
        if r.counts.len() == 4 && r.groups.len() == 0 && r.texts.len() == 0 && r.blobs.len() == 0 {
            let user_id = id_of_halves(r.counts[2], r.counts[3]);
            if r.counts[0] == 0 && r.stamps.len() == 2 {
                Some(
                    LockCommand::AcquireLock {
                        ticket_id: r.counts[1],
                        user_id,
                        at_unix: r.stamps[0],
                        ttl_secs: r.stamps[1],
                    },
                )
            } else if r.counts[0] == 1 && r.stamps.len() == 0 {
                Some(LockCommand::ReleaseLock { ticket_id: r.counts[1], user_id })
            } else {
                None
            }
        } else {
            None
        }
    }

    proof fn record_round_trip(v: LockCommand) {
        match v {
            LockCommand::AcquireLock { user_id, .. } => {
                halves_round_trip(user_id);
            },
            LockCommand::ReleaseLock { user_id, .. } => {
                halves_round_trip(user_id);
            },
        }
    }

    fn to_record(&self) -> (out: Record) {
        let mut counts: Vec<u64> = Vec::new();
        let mut stamps: Vec<i64> = Vec::new();
        match self {
            LockCommand::AcquireLock { ticket_id, user_id, at_unix, ttl_secs } => {
                let halves = split_id(*user_id);
                counts.push(0);
                counts.push(*ticket_id);
                counts.push(halves.0);
                counts.push(halves.1);
                stamps.push(*at_unix);
                stamps.push(*ttl_secs);
            },
            LockCommand::ReleaseLock { ticket_id, user_id } => {
                let halves = split_id(*user_id);
                counts.push(1);
                counts.push(*ticket_id);
                counts.push(halves.0);
                counts.push(halves.1);
            },
        }
        let out = Record {
            counts,
            groups: Vec::new(),
            stamps,
            texts: Vec::new(),
            blobs: Vec::new(),
        };
        assert(out@ =~= Self::record_view(*self));
        out
    }

    fn from_record(record: Record) -> (out: Option<Self>) {
        if record.counts.len() != 4 || record.groups.len() != 0 || record.texts.len() != 0
            || record.blobs.len() != 0 {
            return None;
        }
        let ticket_id: u64 = record.counts[1];
        let user_id: u128 = join_id(record.counts[2], record.counts[3]);
        if record.counts[0] == 0 && record.stamps.len() == 2 {
            Some(
                LockCommand::AcquireLock {
                    ticket_id,
                    user_id,
                    at_unix: record.stamps[0],
                    ttl_secs: record.stamps[1],
                },
            )
        } else if record.counts[0] == 1 && record.stamps.len() == 0 {
            Some(LockCommand::ReleaseLock { ticket_id, user_id })
        } else {
            None
        }
    }
}

// ---- Locks in storage ----

/// When a lock that is acquired at `at` for `ttl` seconds expires; `0` means never.
pub open spec fn expiry(at: i64, ttl: i64) -> i64 {
    if ttl <= 0 {
        0
    } else if at + ttl > i64::MAX {
        i64::MAX
    } else {
        (at + ttl) as i64
    }
}

/// The lock has expired at `now`.
pub open spec fn expired(lock: LockInfo, now: i64) -> bool {
    lock.expires_at_unix != 0 && now >= lock.expires_at_unix
}

/// Where the lock on a ticket stands.
pub open spec fn lock_at(ticket_id: u64) -> (Seq<char>, Seq<u8>) {
    (TREE_LOCKS@, be8(ticket_id))
}

/// The record of a lock.
pub open spec fn lock_record(lock: LockInfo) -> RecordView {
    RecordView {
        counts: seq![lock.ticket_id, high_half(lock.user_id), low_half(lock.user_id)],
        groups: Seq::empty(),
        stamps: seq![lock.acquired_at_unix, lock.expires_at_unix],
        texts: Seq::empty(),
        blobs: Seq::empty(),
    }
}

/// The lock that a record holds, if it is the record of one.
pub open spec fn lock_of_record(r: RecordView) -> Option<LockInfo> {
    if r.counts.len() == 3 && r.groups.len() == 0 && r.stamps.len() == 2 && r.texts.len() == 0
        && r.blobs.len() == 0 {
        Some(
            LockInfo {
                ticket_id: r.counts[0],
                user_id: id_of_halves(r.counts[1], r.counts[2]),
                acquired_at_unix: r.stamps[0],
                expires_at_unix: r.stamps[1],
            },
        )
    } else {
        None
    }
}

/// The stored bytes of a lock.
pub open spec fn lock_bytes(lock: LockInfo) -> Seq<u8> {
    record_json(lock_record(lock))
}

/// The lock that stored bytes hold.
pub open spec fn lock_in(bytes: Seq<u8>) -> Option<LockInfo> {
    match record_of(bytes) {
        Some(record) => lock_of_record(record),
        None => None,
    }
}

/// What a row of a lock holds, where there is one.
pub open spec fn lock_in_row(row: Option<Seq<u8>>) -> Lookup<LockInfo> {
    match row {
        None => Lookup::Missing,
        Some(bytes) => match lock_in(bytes) {
            Some(lock) => Lookup::Found(lock),
            None => Lookup::Corrupt,
        },
    }
}

/// The lock on a ticket.
pub open spec fn lookup_lock(held: Held, ticket_id: u64) -> Lookup<LockInfo> {
    if held.contains_key(lock_at(ticket_id)) {
        match lock_in(held[lock_at(ticket_id)]) {
            Some(lock) => Lookup::Found(lock),
            None => Lookup::Corrupt,
        }
    } else {
        Lookup::Missing
    }
}

/// The lock that an acquisition writes.
pub open spec fn new_lock(ticket_id: u64, user_id: u128, at: i64, ttl: i64) -> LockInfo {
    LockInfo { ticket_id, user_id, acquired_at_unix: at, expires_at_unix: expiry(at, ttl) }
}

impl LockInfo {
    /// Whether the lock has expired at `now`.
    pub fn is_expired(&self, now: i64) -> (out: bool)
        ensures
            out == expired(*self, now),
    {
        self.expires_at_unix != 0 && now >= self.expires_at_unix
    }
}

/// Reads the row of a lock, where there is one.
pub fn read_lock(row: Option<Vec<u8>>) -> (out: Result<Option<LockInfo>, StorageError>)
    ensures
        match lock_in_row(blob_of(row)) {
            Lookup::Found(lock) => out matches Ok(Some(l)) && l == lock,
            Lookup::Missing => out matches Ok(None),
            Lookup::Corrupt => out matches Err(StorageError::Corrupt(_)),
        },
{
    match row {
        None => Ok(None),
        Some(bytes) => match read_record(bytes.as_slice()) {
            Err(e) => Err(StorageError::Corrupt(json_error_text(&e))),
            Ok(record) => {
                if record.counts.len() == 3 && record.groups.len() == 0 && record.stamps.len() == 2
                    && record.texts.len() == 0 && record.blobs.len() == 0 {
                    Ok(
                        Some(
                            LockInfo {
                                ticket_id: record.counts[0],
                                user_id: join_id(record.counts[1], record.counts[2]),
                                acquired_at_unix: record.stamps[0],
                                expires_at_unix: record.stamps[1],
                            },
                        ),
                    )
                } else {
                    Err(StorageError::Corrupt("not a lock".to_owned()))
                }
            },
        },
    }
}

impl Storage {
    /// The lock on a ticket, expired or not.
    pub fn get_lock_info(&self, ticket_id: u64) -> (out: Result<Option<LockInfo>, StorageError>)
        ensures
            match out {
                Ok(Some(lock)) => lookup_lock(self@, ticket_id) == Lookup::Found(lock),
                Ok(None) => lookup_lock(self@, ticket_id) is Missing,
                Err(StorageError::Corrupt(_)) => lookup_lock(self@, ticket_id) is Corrupt,
                Err(e) => e is Backend,
            },
    {
        let key: Vec<u8> = to_be8(ticket_id);
        read_lock(self.get(TREE_LOCKS, key.as_slice())?)
    }

    /// Whether there is a lock on a ticket, expired or not.
    pub fn is_locked(&self, ticket_id: u64) -> (out: Result<bool, StorageError>)
        ensures
            out matches Ok(locked) ==> locked == !(lookup_lock(self@, ticket_id) is Missing),
            out matches Err(e) ==> e is Backend,
    {
        let key: Vec<u8> = to_be8(ticket_id);
        self.has_key(TREE_LOCKS, key.as_slice())
    }

    /// Gives the lock on a ticket to a user, whoever held it.
    pub fn acquire_lock_at(&mut self, ticket_id: u64, user_id: u128, at_unix: i64, ttl_secs: i64) -> (out:
        Result<(), StorageError>)
        ensures
            out is Ok ==> {
                let lock = new_lock(ticket_id, user_id, at_unix, ttl_secs);
                &&& final(self)@ == old(self)@.insert(lock_at(ticket_id), lock_bytes(lock))
                &&& lookup_lock(final(self)@, ticket_id) == Lookup::Found(lock)
            },
            out matches Err(e) ==> e is Backend,
    {
        let expires: i64 = if ttl_secs <= 0 {
            0
        } else if at_unix > i64::MAX - ttl_secs {
            i64::MAX
        } else {
            at_unix + ttl_secs
        };
        let halves = split_id(user_id);
        let mut counts: Vec<u64> = Vec::new();
        counts.push(ticket_id);
        counts.push(halves.0);
        counts.push(halves.1);
        let mut stamps: Vec<i64> = Vec::new();
        stamps.push(at_unix);
        stamps.push(expires);
        let record = Record {
            counts,
            groups: Vec::new(),
            stamps,
            texts: Vec::new(),
            blobs: Vec::new(),
        };
        let ghost lock = new_lock(ticket_id, user_id, at_unix, ttl_secs);
        assert(record@ =~= lock_record(lock));
        let key: Vec<u8> = to_be8(ticket_id);
        match write_record(&record) {
            Ok(bytes) => {
                proof {
                    halves_round_trip(user_id);
                    assert(lock_of_record(record@) == Some(lock));
                }
                self.put(TREE_LOCKS, key.as_slice(), bytes.as_slice())
            },
            Err(e) => Err(StorageError::Corrupt(json_error_text(&e))),
        }
    }

    /// Gives the lock on a ticket to a user until it is released.
    pub fn acquire_lock(&mut self, ticket_id: u64, user_id: u128, at_unix: i64) -> (out: Result<
        (),
        StorageError,
    >)
        ensures
            out is Ok ==> {
                let lock = new_lock(ticket_id, user_id, at_unix, 0);
                &&& final(self)@ == old(self)@.insert(lock_at(ticket_id), lock_bytes(lock))
                &&& lookup_lock(final(self)@, ticket_id) == Lookup::Found(lock)
            },
            out matches Err(e) ==> e is Backend,
    {
        self.acquire_lock_at(ticket_id, user_id, at_unix, 0)
    }

    /// Removes the lock on a ticket, whoever held it.
    pub fn release_lock(&mut self, ticket_id: u64) -> (out: Result<(), StorageError>)
        ensures
            out is Ok ==> final(self)@ == old(self)@.remove(lock_at(ticket_id)),
            out matches Err(e) ==> e is Backend,
    {
        let key: Vec<u8> = to_be8(ticket_id);
        self.delete(TREE_LOCKS, key.as_slice())
    }
}

// ---- The state machine ----

/// What is said to one who asks for a lock that another holds.
pub open spec fn locked_text(ticket_id: u64, holder: u128) -> Seq<char> {
    "ticket "@ + dec(ticket_id as nat) + " is locked by "@ + uuid_text(holder)
}

/// What is said to one who releases a lock that another holds.
pub open spec fn held_text(ticket_id: u64) -> Seq<char> {
    "ticket "@ + dec(ticket_id as nat) + " is held by another user"@
}

/// What a command comes to.
pub enum LockDecision {
    /// The user gets the lock.
    Take,
    /// The lock is removed.
    Free,
    /// Nothing changes, for the given reason.
    Refuse(String),
}

/// What a command comes to, with the reason as text.
pub enum DecisionView {
    Take,
    Free,
    Refuse(Seq<char>),
}

impl View for LockDecision {
    type V = DecisionView;

    open spec fn view(&self) -> DecisionView {
        match *self {
            LockDecision::Take => DecisionView::Take,
            LockDecision::Free => DecisionView::Free,
            LockDecision::Refuse(text) => DecisionView::Refuse(text@),
        }
    }
}

/// What a command comes to beside the lock there is on the ticket: a lock that another holds can be
/// taken only once it has expired, and released only by its holder.
pub open spec fn decision(existing: Option<LockInfo>, command: LockCommand) -> DecisionView {
    match command {
        LockCommand::AcquireLock { ticket_id, user_id, at_unix, .. } => match existing {
            Some(lock) => if lock.user_id != user_id && !expired(lock, at_unix) {
                DecisionView::Refuse(locked_text(ticket_id, lock.user_id))
            } else {
                DecisionView::Take
            },
            None => DecisionView::Take,
        },
        LockCommand::ReleaseLock { ticket_id, user_id } => match existing {
            Some(lock) => if lock.user_id != user_id {
                DecisionView::Refuse(held_text(ticket_id))
            } else {
                DecisionView::Free
            },
            None => DecisionView::Free,
        },
    }
}

/// Decides on a command beside the lock there is on the ticket.
pub fn decide(existing: Option<LockInfo>, entry: &LockCommand) -> (out: LockDecision)
    ensures
        out@ == decision(existing, *entry),
{
    match entry {
        LockCommand::AcquireLock { ticket_id, user_id, at_unix, .. } => {
            if let Some(lock) = existing {
                if lock.user_id != *user_id && !lock.is_expired(*at_unix) {
                    let mut text: String = "ticket ".to_owned();
                    text.append(decimal(*ticket_id).as_str());
                    text.append(" is locked by ");
                    text.append(show_uuid(lock.user_id).as_str());
                    return LockDecision::Refuse(text);
                }
            }
            LockDecision::Take
        },
        LockCommand::ReleaseLock { ticket_id, user_id } => {
            if let Some(lock) = existing {
                if lock.user_id != *user_id {
                    let mut text: String = "ticket ".to_owned();
                    text.append(decimal(*ticket_id).as_str());
                    text.append(" is held by another user");
                    return LockDecision::Refuse(text);
                }
            }
            LockDecision::Free
        },
    }
}

/// The lock that a command to acquire one writes.
pub open spec fn asked_lock(command: LockCommand) -> LockInfo {
    match command {
        LockCommand::AcquireLock { ticket_id, user_id, at_unix, ttl_secs } => new_lock(
            ticket_id,
            user_id,
            at_unix,
            ttl_secs,
        ),
        LockCommand::ReleaseLock { ticket_id, user_id } => new_lock(ticket_id, user_id, 0, 0),
    }
}

/// Storage and the answer after a command; `None` where the lock cannot be read.
pub open spec fn lock_step(held: Held, command: LockCommand) -> Option<(Held, LockResponseView)> {
    let ticket_id = ticket_of_command(command);
    let existing = match lookup_lock(held, ticket_id) {
        Lookup::Found(lock) => Some(lock),
        _ => None,
    };
    if lookup_lock(held, ticket_id) is Corrupt {
        None
    } else {
        match decision(existing, command) {
            DecisionView::Take => Some(
                (held.insert(lock_at(ticket_id), lock_bytes(asked_lock(command))), granted()),
            ),
            DecisionView::Free => Some((held.remove(lock_at(ticket_id)), granted())),
            DecisionView::Refuse(text) => Some((held, refused(text))),
        }
    }
}

/// The ticket that a command speaks of.
pub open spec fn ticket_of_command(command: LockCommand) -> u64 {
    match command {
        LockCommand::AcquireLock { ticket_id, .. } => ticket_id,
        LockCommand::ReleaseLock { ticket_id, .. } => ticket_id,
    }
}

pub(crate) fn grant() -> (out: LockResponse)
    ensures
        out@ == granted(),
{
    LockResponse { success: true, error: None, value: None }
}

/// Applies replicated commands to the locks.
pub struct CustodianStateMachine {
    pub last_applied_log: Option<LogId>,
    pub last_membership: StoredMembership,
    pub storage: Storage,
}

impl CustodianStateMachine {
    /// A state machine that has applied nothing yet.
    pub fn new(storage: Storage) -> (out: Self)
        ensures
            out.last_applied_log is None,
            out.last_membership@ == first_membership(),
            out.storage == storage,
    {
        CustodianStateMachine {
            last_applied_log: None,
            last_membership: StoredMembership::default(),
            storage,
        }
    }

    /// Applies a command to the locks.
    pub fn apply(&mut self, entry: &LockCommand) -> (out: Result<LockResponse, StorageError>)
        ensures
            final(self).last_applied_log == old(self).last_applied_log,
            final(self).last_membership == old(self).last_membership,
            match out {
                Ok(response) => lock_step(old(self).storage@, *entry) == Some(
                    (final(self).storage@, response@),
                ),
                Err(StorageError::Corrupt(_)) => lock_step(old(self).storage@, *entry) is None
                    && final(self).storage@ == old(self).storage@,
                Err(e) => e is Backend,
            },
            match *entry {
                LockCommand::AcquireLock { ticket_id, user_id, at_unix, ttl_secs } => (out
                    matches Ok(response) && response.success) ==> lookup_lock(
                    final(self).storage@,
                    ticket_id,
                ) == Lookup::Found(new_lock(ticket_id, user_id, at_unix, ttl_secs)),
                LockCommand::ReleaseLock { .. } => true,
            },
    {
        let ticket_id: u64 = match entry {
            LockCommand::AcquireLock { ticket_id, .. } => *ticket_id,
            LockCommand::ReleaseLock { ticket_id, .. } => *ticket_id,
        };
        let existing: Option<LockInfo> = self.storage.get_lock_info(ticket_id)?;
        match decide(existing, entry) {
            LockDecision::Take => {
                if let LockCommand::AcquireLock { user_id, at_unix, ttl_secs, .. } = entry {
                    self.storage.acquire_lock_at(ticket_id, *user_id, *at_unix, *ttl_secs)?;
                }
                Ok(grant())
            },
            LockDecision::Free => {
                self.storage.release_lock(ticket_id)?;
                Ok(grant())
            },
            LockDecision::Refuse(text) => Ok(
                LockResponse { success: false, error: Some(text), value: None },
            ),
        }
    }
}

// ---- Laws ----

/// A lock that has not expired cannot be taken or released by another: the command is refused and
/// nothing changes.
pub proof fn live_lock_is_exclusive(held: Held, command: LockCommand, lock: LockInfo)
    requires
        lookup_lock(held, ticket_of_command(command)) == Lookup::Found(lock),
        match command {
            LockCommand::AcquireLock { user_id, at_unix, .. } => user_id != lock.user_id && !expired(
                lock,
                at_unix,
            ),
            LockCommand::ReleaseLock { user_id, .. } => user_id != lock.user_id,
        },
    ensures
        lock_step(held, command) matches Some((after, response)) && after == held
            && !response.success && response.error is Some,
{
}

/// A free lock, an expired lock and one's own lock can be acquired, and the one who asked then
/// holds it.
pub proof fn acquiring_gives_the_lock(
    held: Held,
    ticket_id: u64,
    user_id: u128,
    at_unix: i64,
    ttl_secs: i64,
)
    requires
        match lookup_lock(held, ticket_id) {
            Lookup::Missing => true,
            Lookup::Found(lock) => lock.user_id == user_id || expired(lock, at_unix),
            Lookup::Corrupt => false,
        },
    ensures
        ({
            let command = LockCommand::AcquireLock { ticket_id, user_id, at_unix, ttl_secs };
            lock_step(held, command) matches Some((after, response)) && response == granted()
                && after.contains_pair(
                lock_at(ticket_id),
                lock_bytes(new_lock(ticket_id, user_id, at_unix, ttl_secs)),
            )
        }),
{
}

/// The holder can release the lock, and the ticket is then free.
pub proof fn holder_can_release(held: Held, ticket_id: u64, lock: LockInfo)
    requires
        lookup_lock(held, ticket_id) == Lookup::Found(lock),
    ensures
        ({
            let command = LockCommand::ReleaseLock { ticket_id, user_id: lock.user_id };
            lock_step(held, command) matches Some((after, response)) && response == granted()
                && lookup_lock(after, ticket_id) is Missing
        }),
{
}

/// A command changes the lock of no other ticket.
pub proof fn other_tickets_keep_their_locks(held: Held, command: LockCommand, other: u64)
    requires
        other != ticket_of_command(command),
    ensures
        lock_step(held, command) matches Some((after, _)) ==> lookup_lock(after, other)
            == lookup_lock(held, other),
{
    if be8(other) == be8(ticket_of_command(command)) {
        be8_injective(other, ticket_of_command(command));
    }
}

/// A lock without a time to live never expires; one with it holds until its time has run out, and
/// not longer.
pub proof fn lock_lasts_for_its_time(ticket_id: u64, user_id: u128, at: i64, ttl: i64, now: i64)
    ensures
        ttl <= 0 ==> !expired(new_lock(ticket_id, user_id, at, ttl), now),
        ttl > 0 && at + ttl <= i64::MAX && at + ttl != 0 ==> (expired(
            new_lock(ticket_id, user_id, at, ttl),
            now,
        ) <==> now >= at + ttl),
{
}

} // verus!
