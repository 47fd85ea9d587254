//! The console's requests to the gateway.

use vstd::prelude::*;
use vstd::string::*;

use crate::text::{
    blank, concat2, dec, dec_int, decimal, decimal_signed, is_blank, join, joined, texts_of, trim,
    trimmed,
};

verus! {

/// Where the token is kept.
pub const TOKEN_KEY: &'static str = "infovulcan_demo_token";

/// A ticket's next action.
#[derive(Clone, Debug, PartialEq)]
pub enum NextAction {
    FollowUp { at: i64 },
    Appointment { at: i64 },
    AutoClose { schedule: String },
}

/// A next action in a few words.
pub open spec fn action_summary(a: NextAction) -> Seq<char> {
    match a {
        NextAction::FollowUp { at } => "Follow up @ "@ + dec_int(at as int),
        NextAction::Appointment { at } => "Appointment @ "@ + dec_int(at as int),
        NextAction::AutoClose { schedule } => "Auto-close ("@ + schedule@ + ")"@,
    }
}

impl NextAction {
    /// The action in a few words.
    pub fn summary(&self) -> (out: String)
        ensures
            out@ == action_summary(*self),
    {
        match self {
            NextAction::FollowUp { at } => concat2("Follow up @ ", decimal_signed(*at).as_str()),
            NextAction::Appointment { at } => concat2(
                "Appointment @ ",
                decimal_signed(*at).as_str(),
            ),
            NextAction::AutoClose { schedule } => {
                let mut out: String = concat2("Auto-close (", schedule.as_str());
                out.append(")");
                out
            },
        }
    }
}

/// A ticket.
#[derive(Clone, Debug, PartialEq)]
pub struct Ticket {
    pub ticket_id: u64,
    pub title: String,
    pub project: String,
    pub priority: i32,
    pub status: i32,
    pub next_action: Option<NextAction>,
}

/// A request to log in.
#[derive(Clone, Debug)]
pub struct LoginRequest {
    pub username: String,
    pub password: String,
    pub mfa_token: Option<String>,
}

/// The answer to one who logged in.
#[derive(Clone, Debug)]
pub struct LoginResponse {
    pub token: String,
}

/// A request to create a ticket.
#[derive(Clone, Debug)]
pub struct CreateTicketRequest {
    pub title: String,
    pub project: String,
    pub account_uuid: String,
    pub symptom: i32,
    pub priority: i32,
}

/// A ticket's next action, as it is written; `NoAction` clears it.
#[derive(Clone, Debug, PartialEq)]
pub enum NextActionInput {
    NoAction,
    FollowUp { at: i64 },
    Appointment { at: i64 },
    AutoClose { schedule: String },
}

/// A request to update a ticket; what is not given stays.
#[derive(Clone, Debug)]
pub struct UpdateTicketRequest {
    pub title: Option<String>,
    pub project: Option<String>,
    pub priority: Option<i32>,
    pub status: Option<i32>,
    pub next_action: Option<NextActionInput>,
}

/// A request to create a user.
#[derive(Clone, Debug)]
pub struct CreateUserRequest {
    pub username: String,
    pub password: String,
    pub email: String,
    pub display_name: String,
    pub role: i32,
}

/// What is sent to log in; the console knows no second factor.
pub fn login_request(username: String, password: String) -> (out: LoginRequest)
    ensures
        out == (LoginRequest { username, password, mfa_token: None }),
{
    LoginRequest { username, password, mfa_token: None }
}

/// The header that carries a token.
pub fn bearer(token: &str) -> (out: String)
    ensures
        out@ == "Bearer "@ + token@,
{
    concat2("Bearer ", token)
}

/// Why a request failed.
#[derive(Clone, Debug)]
pub enum ApiError {
    /// It could not be sent, or its answer not read.
    Transport(String),
    /// The server refused it, in these words.
    Server(String),
}

/// A failure in words.
pub open spec fn error_text(e: ApiError) -> Seq<char> {
    match e {
        ApiError::Transport(text) => "network error: "@ + text@,
        ApiError::Server(text) => text@,
    }
}

impl ApiError {
    /// The failure in words.
    pub fn text(&self) -> (out: String)
        ensures
            out@ == error_text(*self),
    {
        match self {
            ApiError::Transport(text) => concat2("network error: ", text.as_str()),
            ApiError::Server(text) => text.clone(),
        }
    }
}

/// The failure of a request that the server refused: its words, or words in their place where they
/// could not be read.
pub fn server_error(body: Option<String>, fallback: &str) -> (out: ApiError)
    ensures
        out matches ApiError::Server(text) && text@ == (match body {
            Some(t) => t@,
            None => fallback@,
        }),
{
    match body {
        Some(text) => ApiError::Server(text),
        None => ApiError::Server(fallback.to_owned()),
    }
}

// ---- Lists of tickets ----

/// What a list of tickets is filtered by. What is blank or not given filters nothing.
#[derive(Clone, Debug, PartialEq)]
pub struct ListTicketsFilter {
    pub status: Option<i32>,
    pub assignee: String,
    pub account: String,
    pub project: String,
    pub include_deleted: bool,
    pub limit: Option<u32>,
}

impl Default for ListTicketsFilter {
    fn default() -> (out: Self)
        ensures
            out.status is None,
            out.assignee@.len() == 0,
            out.account@.len() == 0,
            out.project@.len() == 0,
            !out.include_deleted,
            out.limit is None,
    {
        ListTicketsFilter {
            status: None,
            assignee: String::new(),
            account: String::new(),
            project: String::new(),
            include_deleted: false,
            limit: None,
        }
    }
}

/// A filter by a text, where it is not blank.
pub open spec fn text_part(name: Seq<char>, value: Seq<char>) -> Seq<Seq<char>> {
    if is_blank(value) {
        Seq::empty()
    } else {
        seq![name + trimmed(value)]
    }
}

/// The parts of a query, in the order of the fields.
pub open spec fn query_parts(f: ListTicketsFilter) -> Seq<Seq<char>> {
    (match f.status {
        Some(n) => seq!["status="@ + dec_int(n as int)],
        None => Seq::empty(),
    }) + text_part("assignee="@, f.assignee@) + text_part("account="@, f.account@) + text_part(
        "project="@,
        f.project@,
    ) + (if f.include_deleted {
        seq!["include_deleted=true"@]
    } else {
        Seq::empty()
    }) + (match f.limit {
        Some(n) => seq!["limit="@ + dec(n as nat)],
        None => Seq::empty(),
    })
}

fn push_text(parts: &mut Vec<String>, name: &str, value: &str)
    ensures
        texts_of(final(parts)@) == texts_of(old(parts)@) + text_part(name@, value@),
{
    if !blank(value) {
        let part: String = concat2(name, trim(value));
        parts.push(part);
        assert(texts_of(parts@) =~= texts_of(old(parts)@) + text_part(name@, value@));
    } else {
        assert(texts_of(parts@) =~= texts_of(old(parts)@) + text_part(name@, value@));
    }
}

impl ListTicketsFilter {
    /// The query of the filter, in the order of its fields and without what filters nothing.
    pub fn to_query_string(&self) -> (out: String)
        ensures
            out@ == joined(query_parts(*self), "&"@),
    {
        let mut parts: Vec<String> = Vec::new();
        if let Some(n) = self.status {
            parts.push(concat2("status=", decimal_signed(n as i64).as_str()));
        }
        assert(texts_of(parts@) =~= (match self.status {
            Some(n) => seq!["status="@ + dec_int(n as int)],
            None => Seq::empty(),
        }));
        push_text(&mut parts, "assignee=", self.assignee.as_str());
        push_text(&mut parts, "account=", self.account.as_str());
        push_text(&mut parts, "project=", self.project.as_str());
        let ghost before = texts_of(parts@);
        if self.include_deleted {
            parts.push("include_deleted=true".to_owned());
        }
        let ghost middle = before + (if self.include_deleted {
            seq!["include_deleted=true"@]
        } else {
            Seq::empty()
        });
        assert(texts_of(parts@) =~= middle);
        if let Some(n) = self.limit {
            parts.push(concat2("limit=", decimal(n as u64).as_str()));
        }
        assert(texts_of(parts@) =~= query_parts(*self));
        join(&parts, "&")
    }

    /// Where the filtered list is asked for.
    pub fn url(&self) -> (out: String)
        ensures
            out@ == (if joined(query_parts(*self), "&"@).len() == 0 {
                "/api/tickets"@
            } else {
                "/api/tickets?"@ + joined(query_parts(*self), "&"@)
            }),
    {
        let query: String = self.to_query_string();
        if query.as_str().is_empty() {
            "/api/tickets".to_owned()
        } else {
            concat2("/api/tickets?", query.as_str())
        }
    }
}

/// Where a ticket is asked for.
pub fn ticket_url(ticket_id: u64) -> (out: String)
    ensures
        out@ == "/api/tickets/"@ + dec(ticket_id as nat),
{
    concat2("/api/tickets/", decimal(ticket_id).as_str())
}

/// A filter that filters nothing asks nothing.
pub proof fn idle_filter_asks_nothing(f: ListTicketsFilter)
    requires
        f.status is None,
        is_blank(f.assignee@),
        is_blank(f.account@),
        is_blank(f.project@),
        !f.include_deleted,
        f.limit is None,
    ensures
        joined(query_parts(f), "&"@).len() == 0,
{
    assert(query_parts(f) =~= Seq::empty());
}

} // verus!
