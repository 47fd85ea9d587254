//! The REST vocabulary: requests and answers, and the calls to the backends that they become.

use vstd::prelude::*;
use vstd::string::*;

use crate::admin::{CreateUserCall, ProtoUser, UpdateUserCall, UserPage};
use crate::custodian::server::{CreateTicketCall, UpdateTicketCall};
use crate::custodian::ticket::{
    schedule_number, schedule_of, AutoCloseSchedule, NextActionKind, NextActionMessage,
    TicketMessage, SCHEDULE_END_OF_DAY, SCHEDULE_HOURS_24, SCHEDULE_HOURS_48, SCHEDULE_HOURS_72,
};
use crate::db::server::WireTicketQuery;
use crate::gateway::error::{code_word, http_status, is_error, ApiError};
use crate::status::Status;
use crate::text::same;
use crate::time::Timestamp;

verus! {

// ---- Logging in ----

/// A request to log in.
#[derive(Debug, Clone)]
pub struct LoginRequest {
    pub username: String,
    pub password: String,
    pub mfa_token: Option<String>,
}

/// The answer to one who logged in.
#[derive(Debug, Clone)]
pub struct LoginResponse {
    pub token: String,
}

/// What the authentication service is asked.
#[derive(Debug, Clone)]
pub struct AuthenticateCall {
    pub username: String,
    pub password: String,
    pub mfa_token: String,
}

/// What the authentication service answers.
#[derive(Debug, Clone)]
pub struct AuthenticateReply {
    pub success: bool,
    pub session_token: String,
    pub error: String,
}

/// What the authentication service is asked for a login; no second factor is an empty one.
pub fn login_call(payload: LoginRequest) -> (out: AuthenticateCall)
    ensures
        out.username == payload.username,
        out.password == payload.password,
        out.mfa_token@ == (match payload.mfa_token {
            Some(token) => token@,
            None => Seq::empty(),
        }),
{
    let mfa_token: String = match payload.mfa_token {
        Some(token) => token,
        None => String::new(),
    };
    AuthenticateCall { username: payload.username, password: payload.password, mfa_token }
}

/// A failed call became an error of the REST interface.
pub open spec fn passes_on(e: ApiError, failure: Status) -> bool {
    is_error(e, http_status(failure.code), code_word(failure.code), failure.message@)
}

/// The answer to a login.
pub fn login_reply(reply: Result<AuthenticateReply, Status>) -> (out: Result<
    LoginResponse,
    ApiError,
>)
    ensures
        match reply {
            Ok(r) => if r.success {
                out matches Ok(answer) && answer.token == r.session_token
            } else {
                out matches Err(e) && is_error(e, 401, "unauthenticated"@, r.error@)
            },
            Err(failure) => out matches Err(e) && passes_on(e, failure),
        },
{
    match reply {
        Ok(r) => if r.success {
            Ok(LoginResponse { token: r.session_token })
        } else {
            Err(ApiError::unauthorized(r.error.as_str()))
        },
        Err(failure) => Err(ApiError::from(failure)),
    }
}

// ---- Next actions ----

/// A ticket's next action.
#[derive(Debug, Clone)]
pub enum ApiNextAction {
    /// Follow up at the given second.
    FollowUp { at: i64 },
    /// An appointment at the given second.
    Appointment { at: i64 },
    /// Close by itself on the named schedule.
    AutoClose { schedule: String },
}

/// A ticket's next action, as it is written; `NoAction` clears it.
#[derive(Debug, Clone)]
pub enum ApiNextActionInput {
    /// Clear the action.
    NoAction,
    /// Follow up at the given second.
    FollowUp { at: i64 },
    /// An appointment at the given second.
    Appointment { at: i64 },
    /// Close by itself on the named schedule.
    AutoClose { schedule: String },
}

/// The name of a schedule.
pub open spec fn schedule_name(s: AutoCloseSchedule) -> Seq<char> {
    match s {
        AutoCloseSchedule::EndOfDay => "end_of_day"@,
        AutoCloseSchedule::Hours24 => "hours_24"@,
        AutoCloseSchedule::Hours48 => "hours_48"@,
        AutoCloseSchedule::Hours72 => "hours_72"@,
    }
}

/// The schedule with the given name; any other name is the end of the day.
pub open spec fn schedule_named(name: Seq<char>) -> AutoCloseSchedule {
    if name == "hours_24"@ {
        AutoCloseSchedule::Hours24
    } else if name == "hours_48"@ {
        AutoCloseSchedule::Hours48
    } else if name == "hours_72"@ {
        AutoCloseSchedule::Hours72
    } else {
        AutoCloseSchedule::EndOfDay
    }
}

/// The action shows what a message says.
pub open spec fn shows_action(a: Option<ApiNextAction>, m: NextActionMessage) -> bool {
    match m.kind {
        None => a is None,
        Some(NextActionKind::FollowUp(ts)) => a == Some(ApiNextAction::FollowUp { at: ts.seconds }),
        Some(NextActionKind::Appointment(ts)) => a == Some(
            ApiNextAction::Appointment { at: ts.seconds },
        ),
        Some(NextActionKind::AutoClose(n)) => a matches Some(ApiNextAction::AutoClose { schedule })
            && schedule@ == schedule_name(schedule_of(n)),
    }
}

/// The next action that a message carries; none without a kind.
pub fn map_next_action(message: NextActionMessage) -> (out: Option<ApiNextAction>)
    ensures
        shows_action(out, message),
{
    match message.kind {
        None => None,
        Some(NextActionKind::FollowUp(ts)) => Some(ApiNextAction::FollowUp { at: ts.seconds }),
        Some(NextActionKind::Appointment(ts)) => Some(
            ApiNextAction::Appointment { at: ts.seconds },
        ),
        Some(NextActionKind::AutoClose(n)) => {
            let schedule: &str = if n == SCHEDULE_HOURS_24 {
                "hours_24"
            } else if n == SCHEDULE_HOURS_48 {
                "hours_48"
            } else if n == SCHEDULE_HOURS_72 {
                "hours_72"
            } else {
                "end_of_day"
            };
            Some(ApiNextAction::AutoClose { schedule: schedule.to_owned() })
        },
    }
}

/// The message of a next action that was written.
pub open spec fn action_message_of(input: ApiNextActionInput) -> NextActionMessage {
    NextActionMessage {
        kind: match input {
            ApiNextActionInput::NoAction => None,
            ApiNextActionInput::FollowUp { at } => Some(
                NextActionKind::FollowUp(Timestamp { seconds: at, nanos: 0 }),
            ),
            ApiNextActionInput::Appointment { at } => Some(
                NextActionKind::Appointment(Timestamp { seconds: at, nanos: 0 }),
            ),
            ApiNextActionInput::AutoClose { schedule } => Some(
                NextActionKind::AutoClose(schedule_number(schedule_named(schedule@))),
            ),
        },
    }
}

/// The message of a next action that was written. A message without a kind clears the action.
pub fn to_proto_next_action(input: ApiNextActionInput) -> (out: NextActionMessage)
    ensures
        out == action_message_of(input),
{
    let kind: Option<NextActionKind> = match input {
        ApiNextActionInput::NoAction => None,
        ApiNextActionInput::FollowUp { at } => Some(
            NextActionKind::FollowUp(Timestamp { seconds: at, nanos: 0 }),
        ),
        ApiNextActionInput::Appointment { at } => Some(
            NextActionKind::Appointment(Timestamp { seconds: at, nanos: 0 }),
        ),
        ApiNextActionInput::AutoClose { schedule } => {
            let s: &str = schedule.as_str();
            let number: i32 = if same(s, "hours_24") {
                SCHEDULE_HOURS_24
            } else if same(s, "hours_48") {
                SCHEDULE_HOURS_48
            } else if same(s, "hours_72") {
                SCHEDULE_HOURS_72
            } else {
                SCHEDULE_END_OF_DAY
            };
            Some(NextActionKind::AutoClose(number))
        },
    };
    NextActionMessage { kind }
}

/// A next action that was written is read back the same.
pub proof fn written_actions_are_read_back(input: ApiNextActionInput, back: Option<ApiNextAction>)
    requires
        shows_action(back, action_message_of(input)),
    ensures
        match input {
            ApiNextActionInput::NoAction => back is None,
            ApiNextActionInput::FollowUp { at } => back == Some(ApiNextAction::FollowUp { at }),
            ApiNextActionInput::Appointment { at } => back == Some(
                ApiNextAction::Appointment { at },
            ),
            ApiNextActionInput::AutoClose { schedule } => back matches Some(
                ApiNextAction::AutoClose { schedule: s },
            ) && s@ == schedule_name(schedule_named(schedule@)),
        },
{
}

/// The name of a schedule is read back as the schedule.
pub proof fn schedule_names_are_read_back(s: AutoCloseSchedule)
    ensures
        schedule_named(schedule_name(s)) == s,
{
    reveal_strlit("end_of_day");
    reveal_strlit("hours_24");
    reveal_strlit("hours_48");
    reveal_strlit("hours_72");
    assert("end_of_day"@.len() == 10);
    assert("hours_24"@[6] == '2');
    assert("hours_48"@[6] == '4');
    assert("hours_72"@[6] == '7');
}

// ---- Tickets ----

/// A ticket.
#[derive(Debug, Clone)]
pub struct ApiTicket {
    pub ticket_id: u64,
    pub title: String,
    pub project: String,
    pub priority: i32,
    pub status: i32,
    pub next_action: Option<ApiNextAction>,
}

/// The ticket shows what a message says.
pub open spec fn shows_api_ticket(t: ApiTicket, m: TicketMessage) -> bool {
    &&& t.ticket_id == m.ticket_id
    &&& t.title == m.title
    &&& t.project == m.project
    &&& t.priority == m.priority
    &&& t.status == m.status
    &&& match m.next_action {
        Some(action) => shows_action(t.next_action, action),
        None => t.next_action is None,
    }
}

impl ApiTicket {
    /// The ticket that a message carries.
    pub fn from(ticket: TicketMessage) -> (out: Self)
        ensures
            shows_api_ticket(out, ticket),
    {
        let next_action: Option<ApiNextAction> = match ticket.next_action {
            Some(message) => map_next_action(message),
            None => None,
        };
        ApiTicket {
            ticket_id: ticket.ticket_id,
            title: ticket.title,
            project: ticket.project,
            priority: ticket.priority,
            status: ticket.status,
            next_action,
        }
    }
}

fn ticket_list(messages: Vec<TicketMessage>) -> (out: Vec<ApiTicket>)
    ensures
        out@.len() == messages@.len(),
        forall|i: int|
            0 <= i < messages@.len() ==> shows_api_ticket(#[trigger] out@[i], messages@[i]),
{
    let ghost all = messages@;
    let mut rest: Vec<TicketMessage> = messages;
    let n: usize = rest.len();
    let mut out: Vec<ApiTicket> = Vec::new();
    let mut i: usize = 0;
    while i < n
        invariant
            i <= n,
            n == all.len(),
            all == messages@,
            rest@ == all.skip(i as int),
            out@.len() == i,
            forall|j: int| 0 <= j < i ==> shows_api_ticket(#[trigger] out@[j], all[j]),
        decreases n - i,
    {
        let message: TicketMessage = rest.remove(0);
        assert(rest@ =~= all.skip(i + 1));
        out.push(ApiTicket::from(message));
        i = i + 1;
    }
    out
}

/// A request to create a ticket.
#[derive(Debug, Clone)]
pub struct CreateTicketRequest {
    pub title: String,
    pub project: String,
    pub account_uuid: String,
    pub symptom: i32,
    pub priority: i32,
}

/// What the custodian is asked for a new ticket; `subject` is the user who is logged in.
pub fn create_ticket_call(payload: CreateTicketRequest, subject: String) -> (out: CreateTicketCall)
    ensures
        out == (CreateTicketCall {
            title: payload.title,
            project: payload.project,
            account_uuid: payload.account_uuid,
            symptom: payload.symptom,
            priority: payload.priority,
            created_by_uuid: subject,
            customer_ticket_number: None,
            isp_ticket_number: None,
            other_ticket_number: None,
            ebond: None,
            tracking_url: None,
        }),
{
    CreateTicketCall {
        title: payload.title,
        project: payload.project,
        account_uuid: payload.account_uuid,
        symptom: payload.symptom,
        priority: payload.priority,
        created_by_uuid: subject,
        customer_ticket_number: None,
        isp_ticket_number: None,
        other_ticket_number: None,
        ebond: None,
        tracking_url: None,
    }
}

/// The HTTP status and the ticket for one that was created. Any failure is one of the inside, in
/// the words of the call.
pub fn create_ticket_reply(reply: Result<TicketMessage, String>) -> (out: Result<
    (u16, ApiTicket),
    ApiError,
>)
    ensures
        match reply {
            Ok(m) => out matches Ok((http, t)) && http == 201 && shows_api_ticket(t, m),
            Err(text) => out matches Err(e) && is_error(e, 500, "internal"@, text@),
        },
{
    match reply {
        Ok(message) => Ok((201, ApiTicket::from(message))),
        Err(text) => Err(ApiError::internal(text.as_str())),
    }
}

/// The answer to a request for a ticket. Any failure says that there is none, in the words of the
/// call.
pub fn get_ticket_reply(reply: Result<TicketMessage, String>) -> (out: Result<ApiTicket, ApiError>)
    ensures
        match reply {
            Ok(m) => out matches Ok(t) && shows_api_ticket(t, m),
            Err(text) => out matches Err(e) && is_error(e, 404, "not_found"@, text@),
        },
{
    match reply {
        Ok(message) => Ok(ApiTicket::from(message)),
        Err(text) => Err(ApiError::not_found(text.as_str())),
    }
}

/// The answer to an update of a ticket. Any failure is one of the inside, in the words of the call.
pub fn update_ticket_reply(reply: Result<TicketMessage, String>) -> (out: Result<
    ApiTicket,
    ApiError,
>)
    ensures
        match reply {
            Ok(m) => out matches Ok(t) && shows_api_ticket(t, m),
            Err(text) => out matches Err(e) && is_error(e, 500, "internal"@, text@),
        },
{
    match reply {
        Ok(message) => Ok(ApiTicket::from(message)),
        Err(text) => Err(ApiError::internal(text.as_str())),
    }
}

/// The answer to a request for a list of tickets, in the order of the custodian.
pub fn list_tickets_reply(reply: Result<Vec<TicketMessage>, String>) -> (out: Result<
    Vec<ApiTicket>,
    ApiError,
>)
    ensures
        match reply {
            Ok(messages) => out matches Ok(tickets) && tickets@.len() == messages@.len() && forall|
                i: int,
            |
                0 <= i < messages@.len() ==> shows_api_ticket(#[trigger] tickets@[i], messages@[i]),
            Err(text) => out matches Err(e) && is_error(e, 500, "internal"@, text@),
        },
{
    match reply {
        Ok(messages) => Ok(ticket_list(messages)),
        Err(text) => Err(ApiError::internal(text.as_str())),
    }
}

/// What a list of tickets is asked by.
#[derive(Debug, Clone)]
pub struct ListTicketsParams {
    pub status: Option<u32>,
    pub assignee: Option<String>,
    pub account: Option<String>,
    pub project: Option<String>,
    pub include_deleted: Option<bool>,
    pub limit: Option<u32>,
}

/// What the custodian is asked for a list of tickets; without a word deleted ones are left out and
/// there is no limit.
pub fn list_tickets_call(params: ListTicketsParams) -> (out: WireTicketQuery)
    ensures
        out == (WireTicketQuery {
            status: params.status,
            assigned_to_uuid: params.assignee,
            account_uuid: params.account,
            project: params.project,
            include_deleted: params.include_deleted == Some(true),
            limit: match params.limit {
                Some(n) => n,
                None => 0,
            },
        }),
{
    WireTicketQuery {
        status: params.status,
        assigned_to_uuid: params.assignee,
        account_uuid: params.account,
        project: params.project,
        include_deleted: match params.include_deleted {
            Some(b) => b,
            None => false,
        },
        limit: match params.limit {
            Some(n) => n,
            None => 0,
        },
    }
}

/// A request to update a ticket; what is not given stays.
#[derive(Debug, Clone)]
pub struct UpdateTicketRequest {
    pub title: Option<String>,
    pub project: Option<String>,
    pub priority: Option<i32>,
    pub status: Option<i32>,
    pub next_action: Option<ApiNextActionInput>,
}

/// What the custodian is asked for an update; `subject` is the user who is logged in.
pub fn update_ticket_call(id: u64, payload: UpdateTicketRequest, subject: String) -> (out:
    UpdateTicketCall)
    ensures
        out == (UpdateTicketCall {
            ticket_id: id,
            title: payload.title,
            project: payload.project,
            symptom: None,
            priority: payload.priority,
            status: payload.status,
            next_action: match payload.next_action {
                Some(input) => Some(action_message_of(input)),
                None => None,
            },
            resolution: None,
            assigned_to_uuid: None,
            updated_by_uuid: Some(subject),
        }),
{
    let next_action: Option<NextActionMessage> = match payload.next_action {
        Some(input) => Some(to_proto_next_action(input)),
        None => None,
    };
    UpdateTicketCall {
        ticket_id: id,
        title: payload.title,
        project: payload.project,
        symptom: None,
        priority: payload.priority,
        status: payload.status,
        next_action,
        resolution: None,
        assigned_to_uuid: None,
        updated_by_uuid: Some(subject),
    }
}

// ---- Users ----

/// A request to create a user.
#[derive(Debug, Clone)]
pub struct CreateUserRequest {
    pub username: String,
    pub password: String,
    pub email: String,
    pub display_name: String,
    pub role: i32,
}

/// What the administration service is asked for a new user.
pub fn create_user_call(payload: CreateUserRequest) -> (out: CreateUserCall)
    ensures
        out == (CreateUserCall {
            username: payload.username,
            password: payload.password,
            email: payload.email,
            display_name: payload.display_name,
            role: payload.role,
        }),
{
    CreateUserCall {
        username: payload.username,
        password: payload.password,
        email: payload.email,
        display_name: payload.display_name,
        role: payload.role,
    }
}

/// A user.
#[derive(Debug, Clone)]
pub struct ApiUser {
    pub id: String,
    pub username: String,
    pub email: String,
    pub display_name: String,
    pub role: i32,
    pub active: bool,
    pub created_at: u64,
}

/// The user shows what a message says.
pub open spec fn api_user_of(u: ProtoUser) -> ApiUser {
    ApiUser {
        id: u.id,
        username: u.username,
        email: u.email,
        display_name: u.display_name,
        role: u.role,
        active: u.active,
        created_at: u.created_at,
    }
}

impl ApiUser {
    /// The user that a message carries.
    pub fn from(user: ProtoUser) -> (out: Self)
        ensures
            out == api_user_of(user),
    {
        ApiUser {
            id: user.id,
            username: user.username,
            email: user.email,
            display_name: user.display_name,
            role: user.role,
            active: user.active,
            created_at: user.created_at,
        }
    }
}

/// What a list of users is asked by.
#[derive(Debug, Clone, Copy, PartialEq, Eq, Structural)]
pub struct ListUsersParams {
    pub page: Option<u32>,
    pub page_size: Option<u32>,
}

/// A list of users.
#[derive(Debug, Clone)]
pub struct ListUsersResponse {
    pub users: Vec<ApiUser>,
    pub total_count: u32,
}

/// The page and the size of a page that the administration service is asked for; zero leaves it to
/// the service.
pub fn list_users_call(params: &ListUsersParams) -> (out: (u32, u32))
    ensures
        out.0 == (match params.page {
            Some(n) => n,
            None => 0,
        }),
        out.1 == (match params.page_size {
            Some(n) => n,
            None => 0,
        }),
{
    let page: u32 = match params.page {
        Some(n) => n,
        None => 0,
    };
    let page_size: u32 = match params.page_size {
        Some(n) => n,
        None => 0,
    };
    (page, page_size)
}

/// The HTTP status of the answer to the creation of a user.
pub fn create_user_reply(reply: Result<(), Status>) -> (out: Result<u16, ApiError>)
    ensures
        match reply {
            Ok(_) => out == Ok::<u16, ApiError>(201),
            Err(failure) => out matches Err(e) && passes_on(e, failure),
        },
{
    match reply {
        Ok(_) => Ok(201),
        Err(failure) => Err(ApiError::from(failure)),
    }
}

/// The HTTP status of the answer to the removal of a user.
pub fn delete_user_reply(reply: Result<(), Status>) -> (out: Result<u16, ApiError>)
    ensures
        match reply {
            Ok(_) => out == Ok::<u16, ApiError>(204),
            Err(failure) => out matches Err(e) && passes_on(e, failure),
        },
{
    match reply {
        Ok(_) => Ok(204),
        Err(failure) => Err(ApiError::from(failure)),
    }
}

fn user_list(users: Vec<ProtoUser>) -> (out: Vec<ApiUser>)
    ensures
        out@.len() == users@.len(),
        forall|i: int| 0 <= i < users@.len() ==> #[trigger] out@[i] == api_user_of(users@[i]),
{
    let ghost all = users@;
    let mut rest: Vec<ProtoUser> = users;
    let n: usize = rest.len();
    let mut out: Vec<ApiUser> = Vec::new();
    let mut i: usize = 0;
    while i < n
        invariant
            i <= n,
            n == all.len(),
            all == users@,
            rest@ == all.skip(i as int),
            out@.len() == i,
            forall|j: int| 0 <= j < i ==> #[trigger] out@[j] == api_user_of(all[j]),
        decreases n - i,
    {
        let user: ProtoUser = rest.remove(0);
        assert(rest@ =~= all.skip(i + 1));
        out.push(ApiUser::from(user));
        i = i + 1;
    }
    out
}

/// The answer to a request for a list of users, in the order of the administration service.
pub fn list_users_reply(reply: Result<UserPage, Status>) -> (out: Result<
    ListUsersResponse,
    ApiError,
>)
    ensures
        match reply {
            Ok(page) => out matches Ok(answer) && {
                &&& answer.total_count == page.total_count
                &&& answer.users@.len() == page.users@.len()
                &&& forall|i: int|
                    0 <= i < page.users@.len() ==> #[trigger] answer.users@[i] == api_user_of(
                        page.users@[i],
                    )
            },
            Err(failure) => out matches Err(e) && passes_on(e, failure),
        },
{
    match reply {
        Ok(page) => {
            let total_count: u32 = page.total_count;
            Ok(ListUsersResponse { users: user_list(page.users), total_count })
        },
        Err(failure) => Err(ApiError::from(failure)),
    }
}

/// The answer to a request for a user, or for a change of one.
pub fn user_reply(reply: Result<Option<ProtoUser>, Status>) -> (out: Result<ApiUser, ApiError>)
    ensures
        match reply {
            Ok(Some(u)) => out == Ok::<ApiUser, ApiError>(api_user_of(u)),
            Ok(None) => out matches Err(e) && is_error(e, 404, "not_found"@, "user not found"@),
            Err(failure) => out matches Err(e) && passes_on(e, failure),
        },
{
    match reply {
        Ok(Some(u)) => Ok(ApiUser::from(u)),
        Ok(None) => Err(ApiError::not_found("user not found")),
        Err(failure) => Err(ApiError::from(failure)),
    }
}

/// A request to update a user; what is not given stays.
#[derive(Debug, Clone)]
pub struct UpdateUserRequest {
    pub email: Option<String>,
    pub display_name: Option<String>,
    pub role: Option<i32>,
    pub active: Option<bool>,
    pub password: Option<String>,
}

/// What the administration service is asked for an update.
pub fn update_user_call(id: String, payload: UpdateUserRequest) -> (out: UpdateUserCall)
    ensures
        out == (UpdateUserCall {
            id,
            email: payload.email,
            display_name: payload.display_name,
            role: payload.role,
            active: payload.active,
            password: payload.password,
        }),
{
    UpdateUserCall {
        id,
        email: payload.email,
        display_name: payload.display_name,
        role: payload.role,
        active: payload.active,
        password: payload.password,
    }
}

// ---- Health ----

/// How the gateway and the services behind it do.
#[derive(Debug, Clone)]
pub struct HealthResponse {
    pub status: &'static str,
    /// Each service with how it does, in the order of their names.
    pub services: Vec<(String, &'static str)>,
}

/// How a service does, in a word.
pub open spec fn health_word(up: bool) -> Seq<char> {
    if up {
        "up"@
    } else {
        "down"@
    }
}

/// The HTTP status and the answer to a question for health: all is well only while both services
/// can be reached.
pub fn health(auth_ok: bool, custodian_ok: bool) -> (out: (u16, HealthResponse))
    ensures
        out.0 == (if auth_ok && custodian_ok {
            200u16
        } else {
            503u16
        }),
        out.1.status@ == (if auth_ok && custodian_ok {
            "ok"@
        } else {
            "degraded"@
        }),
        out.1.services@.len() == 2,
        out.1.services@[0].0@ == "auth"@,
        out.1.services@[0].1@ == health_word(auth_ok),
        out.1.services@[1].0@ == "custodian"@,
        out.1.services@[1].1@ == health_word(custodian_ok),
{
    let mut services: Vec<(String, &'static str)> = Vec::new();
    services.push(
        (
            "auth".to_owned(),
            if auth_ok {
                "up"
            } else {
                "down"
            },
        ),
    );
    services.push(
        (
            "custodian".to_owned(),
            if custodian_ok {
                "up"
            } else {
                "down"
            },
        ),
    );
    if auth_ok && custodian_ok {
        (200, HealthResponse { status: "ok", services })
    } else {
        (503, HealthResponse { status: "degraded", services })
    }
}

} // verus!
