//! Stored rows: tickets and users as an opaque body beside plain fields that can be indexed.

use vstd::prelude::*;
use vstd::utf8::encode_utf8;

use crate::bytes::{be8, to_be8};
use crate::record::{Record, RecordView};
use crate::text::{copy_bytes, copy_text, text_of};

verus! {

pub const IDX_TICKET_STATUS: &'static str = "idx_ticket_status";

pub const IDX_TICKET_ASSIGNEE: &'static str = "idx_ticket_assignee";

pub const IDX_TICKET_PROJECT: &'static str = "idx_ticket_project";

pub const IDX_TICKET_ACCOUNT: &'static str = "idx_ticket_account";

pub const IDX_TICKET_CREATED: &'static str = "idx_ticket_created";

pub const IDX_TICKET_UPDATED: &'static str = "idx_ticket_updated";

pub const IDX_TICKET_TRACKING: &'static str = "idx_ticket_tracking";

pub const IDX_USER_NAME: &'static str = "idx_user_name";

pub const IDX_USER_EMAIL: &'static str = "idx_user_email";

pub const IDX_USER_ROLE: &'static str = "idx_user_role";

/// Plaintext, indexable fields of a ticket.
#[derive(Debug, Clone, PartialEq, Eq)]
pub struct TicketIndexFields {
    /// The ticket's status as a number.
    pub status: u8,
    pub account_uuid: String,
    pub assigned_to_uuid: Option<String>,
    pub project: String,
    pub tracking_url: Option<String>,
    pub created_at_unix: i64,
    pub updated_at_unix: i64,
}

/// What the index fields of a ticket hold.
#[verifier::ext_equal]
pub struct TicketIndexView {
    pub status: u8,
    pub account_uuid: Seq<char>,
    pub assigned_to_uuid: Option<Seq<char>>,
    pub project: Seq<char>,
    pub tracking_url: Option<Seq<char>>,
    pub created_at_unix: i64,
    pub updated_at_unix: i64,
}

impl View for TicketIndexFields {
    type V = TicketIndexView;

    open spec fn view(&self) -> TicketIndexView {
        TicketIndexView {
            status: self.status,
            account_uuid: self.account_uuid@,
            assigned_to_uuid: text_of(self.assigned_to_uuid),
            project: self.project@,
            tracking_url: text_of(self.tracking_url),
            created_at_unix: self.created_at_unix,
            updated_at_unix: self.updated_at_unix,
        }
    }
}

impl Default for TicketIndexFields {
    fn default() -> (out: Self)
        ensures
            out@ == (TicketIndexView {
                status: 0,
                account_uuid: Seq::empty(),
                assigned_to_uuid: None,
                project: Seq::empty(),
                tracking_url: None,
                created_at_unix: 0,
                updated_at_unix: 0,
            }),
    {
        TicketIndexFields {
            status: 0,
            account_uuid: String::new(),
            assigned_to_uuid: None,
            project: String::new(),
            tracking_url: None,
            created_at_unix: 0,
            updated_at_unix: 0,
        }
    }
}

/// A stored ticket: an opaque encrypted body, its plaintext index fields and its deletion mark.
#[derive(Debug, Clone, PartialEq, Eq)]
pub struct StoredTicket {
    pub body: Vec<u8>,
    pub index: TicketIndexFields,
    pub deleted: bool,
    pub deleted_at_unix: i64,
}

/// What a stored ticket holds.
#[verifier::ext_equal]
pub struct TicketView {
    pub body: Seq<u8>,
    pub index: TicketIndexView,
    pub deleted: bool,
    pub deleted_at_unix: i64,
}

impl View for StoredTicket {
    type V = TicketView;

    open spec fn view(&self) -> TicketView {
        TicketView {
            body: self.body@,
            index: self.index@,
            deleted: self.deleted,
            deleted_at_unix: self.deleted_at_unix,
        }
    }
}

/// Plaintext, indexable fields of a user.
#[derive(Debug, Clone, PartialEq, Eq)]
pub struct UserIndexFields {
    pub username: String,
    pub email: String,
    /// The user's role as a number.
    pub role: u8,
}

/// What the index fields of a user hold.
#[verifier::ext_equal]
pub struct UserIndexView {
    pub username: Seq<char>,
    pub email: Seq<char>,
    pub role: u8,
}

impl View for UserIndexFields {
    type V = UserIndexView;

    open spec fn view(&self) -> UserIndexView {
        UserIndexView { username: self.username@, email: self.email@, role: self.role }
    }
}

impl Default for UserIndexFields {
    fn default() -> (out: Self)
        ensures
            out@ == (UserIndexView { username: Seq::empty(), email: Seq::empty(), role: 0 }),
    {
        UserIndexFields { username: String::new(), email: String::new(), role: 0 }
    }
}

/// A stored user: an opaque encrypted body, its plaintext index fields and its deletion mark.
#[derive(Debug, Clone, PartialEq, Eq)]
pub struct StoredUser {
    pub body: Vec<u8>,
    pub index: UserIndexFields,
    pub deleted: bool,
    pub deleted_at_unix: i64,
}

/// What a stored user holds.
#[verifier::ext_equal]
pub struct UserView {
    pub body: Seq<u8>,
    pub index: UserIndexView,
    pub deleted: bool,
    pub deleted_at_unix: i64,
}

impl View for StoredUser {
    type V = UserView;

    open spec fn view(&self) -> UserView {
        UserView {
            body: self.body@,
            index: self.index@,
            deleted: self.deleted,
            deleted_at_unix: self.deleted_at_unix,
        }
    }
}

/// The two's complement bits of `n`.
pub open spec fn bits_of(n: i64) -> u64 {
    if n >= 0 {
        n as u64
    } else {
        (n + 0x1_0000_0000_0000_0000) as u64
    }
}

/// A truth value as a count.
pub open spec fn flag(b: bool) -> u64 {
    if b {
        1
    } else {
        0
    }
}

/// The record of a stored ticket.
pub open spec fn ticket_record_view(t: TicketView) -> RecordView {
    RecordView {
        counts: seq![t.index.status as u64, flag(t.deleted)],
        groups: Seq::empty(),
        stamps: seq![t.index.created_at_unix, t.index.updated_at_unix, t.deleted_at_unix],
        texts: seq![
            Some(t.index.account_uuid),
            t.index.assigned_to_uuid,
            Some(t.index.project),
            t.index.tracking_url,
        ],
        blobs: seq![t.body],
    }
}

/// The ticket that a record holds, if it is the record of one.
pub open spec fn ticket_of_record(r: RecordView) -> Option<TicketView> {
    if r.counts.len() == 2 && r.counts[0] <= u8::MAX && r.counts[1] <= 1 && r.groups.len() == 0
        && r.stamps.len() == 3
        && r.texts.len() == 4 && r.texts[0] is Some && r.texts[2] is Some && r.blobs.len() == 1 {
        Some(
            TicketView {
                body: r.blobs[0],
                index: TicketIndexView {
                    status: r.counts[0] as u8,
                    account_uuid: r.texts[0]->0,
                    assigned_to_uuid: r.texts[1],
                    project: r.texts[2]->0,
                    tracking_url: r.texts[3],
                    created_at_unix: r.stamps[0],
                    updated_at_unix: r.stamps[1],
                },
                deleted: r.counts[1] == 1,
                deleted_at_unix: r.stamps[2],
            },
        )
    } else {
        None
    }
}

/// The record of a stored user.
pub open spec fn user_record_view(u: UserView) -> RecordView {
    RecordView {
        counts: seq![u.index.role as u64, flag(u.deleted)],
        groups: Seq::empty(),
        stamps: seq![u.deleted_at_unix],
        texts: seq![Some(u.index.username), Some(u.index.email)],
        blobs: seq![u.body],
    }
}

/// The user that a record holds, if it is the record of one.
pub open spec fn user_of_record(r: RecordView) -> Option<UserView> {
    if r.counts.len() == 2 && r.counts[0] <= u8::MAX && r.counts[1] <= 1 && r.groups.len() == 0
        && r.stamps.len() == 1
        && r.texts.len() == 2 && r.texts[0] is Some && r.texts[1] is Some && r.blobs.len() == 1 {
        Some(
            UserView {
                body: r.blobs[0],
                index: UserIndexView {
                    username: r.texts[0]->0,
                    email: r.texts[1]->0,
                    role: r.counts[0] as u8,
                },
                deleted: r.counts[1] == 1,
                deleted_at_unix: r.stamps[0],
            },
        )
    } else {
        None
    }
}

/// The indexes a ticket appears in, each with the value it appears under.
pub open spec fn ticket_index_values(ix: TicketIndexView) -> Seq<(Seq<char>, Seq<u8>)> {
    seq![
        (IDX_TICKET_STATUS@, seq![ix.status]),
        (IDX_TICKET_ACCOUNT@, encode_utf8(ix.account_uuid)),
        (IDX_TICKET_PROJECT@, encode_utf8(ix.project)),
        (IDX_TICKET_CREATED@, be8(bits_of(ix.created_at_unix))),
        (IDX_TICKET_UPDATED@, be8(bits_of(ix.updated_at_unix))),
    ] + match ix.assigned_to_uuid {
        Some(assignee) => seq![(IDX_TICKET_ASSIGNEE@, encode_utf8(assignee))],
        None => Seq::empty(),
    } + match ix.tracking_url {
        Some(tracking) => seq![(IDX_TICKET_TRACKING@, encode_utf8(tracking))],
        None => Seq::empty(),
    }
}

/// The indexes a user appears in, each with the value it appears under.
pub open spec fn user_index_values(ix: UserIndexView) -> Seq<(Seq<char>, Seq<u8>)> {
    seq![
        (IDX_USER_NAME@, encode_utf8(ix.username)),
        (IDX_USER_EMAIL@, encode_utf8(ix.email)),
        (IDX_USER_ROLE@, seq![ix.role]),
    ]
}

/// The name of an index over tickets.
pub open spec fn is_ticket_index(tree: Seq<char>) -> bool {
    ||| tree == IDX_TICKET_STATUS@
    ||| tree == IDX_TICKET_ASSIGNEE@
    ||| tree == IDX_TICKET_PROJECT@
    ||| tree == IDX_TICKET_ACCOUNT@
    ||| tree == IDX_TICKET_CREATED@
    ||| tree == IDX_TICKET_UPDATED@
    ||| tree == IDX_TICKET_TRACKING@
}

/// The name of an index over users.
pub open spec fn is_user_index(tree: Seq<char>) -> bool {
    ||| tree == IDX_USER_NAME@
    ||| tree == IDX_USER_EMAIL@
    ||| tree == IDX_USER_ROLE@
}

/// The names of the indexes are distinct, and they all begin alike.
pub proof fn index_names_apart()
    ensures
        IDX_TICKET_STATUS@ != IDX_TICKET_ASSIGNEE@,
        IDX_TICKET_STATUS@ != IDX_TICKET_PROJECT@,
        IDX_TICKET_STATUS@ != IDX_TICKET_ACCOUNT@,
        IDX_TICKET_STATUS@ != IDX_TICKET_CREATED@,
        IDX_TICKET_STATUS@ != IDX_TICKET_UPDATED@,
        IDX_TICKET_STATUS@ != IDX_TICKET_TRACKING@,
        IDX_TICKET_ASSIGNEE@ != IDX_TICKET_PROJECT@,
        IDX_TICKET_ASSIGNEE@ != IDX_TICKET_ACCOUNT@,
        IDX_TICKET_ASSIGNEE@ != IDX_TICKET_CREATED@,
        IDX_TICKET_ASSIGNEE@ != IDX_TICKET_UPDATED@,
        IDX_TICKET_ASSIGNEE@ != IDX_TICKET_TRACKING@,
        IDX_TICKET_PROJECT@ != IDX_TICKET_ACCOUNT@,
        IDX_TICKET_PROJECT@ != IDX_TICKET_CREATED@,
        IDX_TICKET_PROJECT@ != IDX_TICKET_UPDATED@,
        IDX_TICKET_PROJECT@ != IDX_TICKET_TRACKING@,
        IDX_TICKET_ACCOUNT@ != IDX_TICKET_CREATED@,
        IDX_TICKET_ACCOUNT@ != IDX_TICKET_UPDATED@,
        IDX_TICKET_ACCOUNT@ != IDX_TICKET_TRACKING@,
        IDX_TICKET_CREATED@ != IDX_TICKET_UPDATED@,
        IDX_TICKET_CREATED@ != IDX_TICKET_TRACKING@,
        IDX_TICKET_UPDATED@ != IDX_TICKET_TRACKING@,
        IDX_USER_NAME@ != IDX_USER_EMAIL@,
        IDX_USER_NAME@ != IDX_USER_ROLE@,
        IDX_USER_EMAIL@ != IDX_USER_ROLE@,
        forall|tree: Seq<char>| #[trigger] is_ticket_index(tree) ==> !is_user_index(tree),
        forall|tree: Seq<char>|
            #![trigger is_ticket_index(tree)]
            #![trigger is_user_index(tree)]
            is_ticket_index(tree) || is_user_index(tree) ==> tree.len() > 7 && tree[0] == 'i'
                && tree[1] == 'd',
{
    reveal_strlit("idx_ticket_status");
    reveal_strlit("idx_ticket_assignee");
    reveal_strlit("idx_ticket_project");
    reveal_strlit("idx_ticket_account");
    reveal_strlit("idx_ticket_created");
    reveal_strlit("idx_ticket_updated");
    reveal_strlit("idx_ticket_tracking");
    reveal_strlit("idx_user_name");
    reveal_strlit("idx_user_email");
    reveal_strlit("idx_user_role");
    assert(IDX_TICKET_STATUS@[11] == 's');
    assert(IDX_TICKET_ASSIGNEE@[11] == 'a');
    assert(IDX_TICKET_PROJECT@[11] == 'p');
    assert(IDX_TICKET_ACCOUNT@[11] == 'a');
    assert(IDX_TICKET_ACCOUNT@.len() == 18);
    assert(IDX_TICKET_ASSIGNEE@.len() == 19);
    assert(IDX_TICKET_CREATED@[11] == 'c');
    assert(IDX_TICKET_UPDATED@[11] == 'u');
    assert(IDX_TICKET_TRACKING@[11] == 't');
    assert(IDX_USER_NAME@[9] == 'n');
    assert(IDX_USER_EMAIL@[9] == 'e');
    assert(IDX_USER_ROLE@[9] == 'r');
    assert(IDX_USER_NAME@[4] == 'u' && IDX_USER_EMAIL@[4] == 'u' && IDX_USER_ROLE@[4] == 'u');
    assert forall|tree: Seq<char>| #[trigger] is_ticket_index(tree) implies tree[4] == 't' by {}
}

/// The views of a list of index values.
pub open spec fn values_of(v: Seq<(&'static str, Vec<u8>)>) -> Seq<(Seq<char>, Seq<u8>)> {
    Seq::new(v.len(), |i: int| (v[i].0@, v[i].1@))
}

/// A ticket can be read back from its record.
pub proof fn ticket_record_round_trip(t: TicketView)
    ensures
        ticket_of_record(ticket_record_view(t)) == Some(t),
{
    assert(ticket_of_record(ticket_record_view(t))->0 =~= t);
}

/// A user can be read back from its record.
pub proof fn user_record_round_trip(u: UserView)
    ensures
        user_of_record(user_record_view(u)) == Some(u),
{
    assert(user_of_record(user_record_view(u))->0 =~= u);
}

fn bits(n: i64) -> (out: u64)
    ensures
        out == bits_of(n),
{
    if n >= 0 {
        n as u64
    } else {
        u64::MAX - (-(n + 1)) as u64
    }
}

fn flag_count(b: bool) -> (out: u64)
    ensures
        out == flag(b),
{
    if b {
        1
    } else {
        0
    }
}

impl TicketIndexFields {
    /// A copy of the fields.
    pub fn copy(&self) -> (out: Self)
        ensures
            out@ == self@,
    {
        TicketIndexFields {
            status: self.status,
            account_uuid: self.account_uuid.clone(),
            assigned_to_uuid: copy_text(&self.assigned_to_uuid),
            project: self.project.clone(),
            tracking_url: copy_text(&self.tracking_url),
            created_at_unix: self.created_at_unix,
            updated_at_unix: self.updated_at_unix,
        }
    }
}

impl UserIndexFields {
    /// A copy of the fields.
    pub fn copy(&self) -> (out: Self)
        ensures
            out@ == self@,
    {
        UserIndexFields {
            username: self.username.clone(),
            email: self.email.clone(),
            role: self.role,
        }
    }
}

impl StoredTicket {
    pub(crate) fn to_record(&self) -> (out: Record)
        ensures
            out@ == ticket_record_view(self@),
    {
        let mut counts: Vec<u64> = Vec::new();
        counts.push(self.index.status as u64);
        counts.push(flag_count(self.deleted));
        let mut stamps: Vec<i64> = Vec::new();
        stamps.push(self.index.created_at_unix);
        stamps.push(self.index.updated_at_unix);
        stamps.push(self.deleted_at_unix);
        let mut texts: Vec<Option<String>> = Vec::new();
        texts.push(Some(self.index.account_uuid.clone()));
        texts.push(copy_text(&self.index.assigned_to_uuid));
        texts.push(Some(self.index.project.clone()));
        texts.push(copy_text(&self.index.tracking_url));
        let mut blobs: Vec<Vec<u8>> = Vec::new();
        blobs.push(copy_bytes(self.body.as_slice()));
        let out = Record { counts, groups: Vec::new(), stamps, texts, blobs };
        assert(out@ =~= ticket_record_view(self@));
        out
    }

    pub(crate) fn from_record(record: &Record) -> (out: Option<StoredTicket>)
        ensures
            match out {
                Some(t) => ticket_of_record(record@) == Some(t@),
                None => ticket_of_record(record@) is None,
            },
    {
        if record.counts.len() != 2 || record.counts[0] > 255 || record.counts[1] > 1
            || record.groups.len() != 0 || record.stamps.len() != 3 || record.texts.len() != 4 || record.blobs.len() != 1 {
            return None;
        }
        match (&record.texts[0], &record.texts[2]) {
            (Some(account), Some(project)) => {
                let out = StoredTicket {
                    body: copy_bytes(record.blobs[0].as_slice()),
                    index: TicketIndexFields {
                        status: record.counts[0] as u8,
                        account_uuid: account.clone(),
                        assigned_to_uuid: copy_text(&record.texts[1]),
                        project: project.clone(),
                        tracking_url: copy_text(&record.texts[3]),
                        created_at_unix: record.stamps[0],
                        updated_at_unix: record.stamps[1],
                    },
                    deleted: record.counts[1] == 1,
                    deleted_at_unix: record.stamps[2],
                };
                assert(ticket_of_record(record@)->0 =~= out@);
                Some(out)
            },
            _ => None,
        }
    }
}

impl StoredUser {
    pub(crate) fn to_record(&self) -> (out: Record)
        ensures
            out@ == user_record_view(self@),
    {
        let mut counts: Vec<u64> = Vec::new();
        counts.push(self.index.role as u64);
        counts.push(flag_count(self.deleted));
        let mut stamps: Vec<i64> = Vec::new();
        stamps.push(self.deleted_at_unix);
        let mut texts: Vec<Option<String>> = Vec::new();
        texts.push(Some(self.index.username.clone()));
        texts.push(Some(self.index.email.clone()));
        let mut blobs: Vec<Vec<u8>> = Vec::new();
        blobs.push(copy_bytes(self.body.as_slice()));
        let out = Record { counts, groups: Vec::new(), stamps, texts, blobs };
        assert(out@ =~= user_record_view(self@));
        out
    }

    pub(crate) fn from_record(record: &Record) -> (out: Option<StoredUser>)
        ensures
            match out {
                Some(u) => user_of_record(record@) == Some(u@),
                None => user_of_record(record@) is None,
            },
    {
        if record.counts.len() != 2 || record.counts[0] > 255 || record.counts[1] > 1
            || record.groups.len() != 0 || record.stamps.len() != 1 || record.texts.len() != 2 || record.blobs.len() != 1 {
            return None;
        }
        match (&record.texts[0], &record.texts[1]) {
            (Some(username), Some(email)) => {
                let out = StoredUser {
                    body: copy_bytes(record.blobs[0].as_slice()),
                    index: UserIndexFields {
                        username: username.clone(),
                        email: email.clone(),
                        role: record.counts[0] as u8,
                    },
                    deleted: record.counts[1] == 1,
                    deleted_at_unix: record.stamps[0],
                };
                assert(user_of_record(record@)->0 =~= out@);
                Some(out)
            },
            _ => None,
        }
    }
}

/// The indexes a ticket appears in, each with the value it appears under.
pub fn ticket_index_entries(index: &TicketIndexFields) -> (out: Vec<(&'static str, Vec<u8>)>)
    ensures
        values_of(out@) == ticket_index_values(index@),
{
    let mut out: Vec<(&'static str, Vec<u8>)> = Vec::new();
    let mut status: Vec<u8> = Vec::new();
    status.push(index.status);
    out.push((IDX_TICKET_STATUS, status));
    out.push((IDX_TICKET_ACCOUNT, copy_bytes(index.account_uuid.as_str().as_bytes())));
    out.push((IDX_TICKET_PROJECT, copy_bytes(index.project.as_str().as_bytes())));
    out.push((IDX_TICKET_CREATED, to_be8(bits(index.created_at_unix))));
    out.push((IDX_TICKET_UPDATED, to_be8(bits(index.updated_at_unix))));
    assert(out@[0].1@ =~= seq![index.status]);
    match &index.assigned_to_uuid {
        Some(assignee) => {
            out.push((IDX_TICKET_ASSIGNEE, copy_bytes(assignee.as_str().as_bytes())));
        },
        None => {},
    }
    match &index.tracking_url {
        Some(tracking) => {
            out.push((IDX_TICKET_TRACKING, copy_bytes(tracking.as_str().as_bytes())));
        },
        None => {},
    }
    assert(values_of(out@) =~= ticket_index_values(index@));
    out
}

/// The indexes a user appears in, each with the value it appears under.
pub fn user_index_entries(index: &UserIndexFields) -> (out: Vec<(&'static str, Vec<u8>)>)
    ensures
        values_of(out@) == user_index_values(index@),
{
    let mut out: Vec<(&'static str, Vec<u8>)> = Vec::new();
    let mut role: Vec<u8> = Vec::new();
    role.push(index.role);
    out.push((IDX_USER_NAME, copy_bytes(index.username.as_str().as_bytes())));
    out.push((IDX_USER_EMAIL, copy_bytes(index.email.as_str().as_bytes())));
    out.push((IDX_USER_ROLE, role));
    assert(out@[2].1@ =~= seq![index.role]);
    assert(values_of(out@) =~= user_index_values(index@));
    out
}

} // verus!
