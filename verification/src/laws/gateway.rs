//! The gateway: requests become calls with what they carry, and replies become answers.

use vstd::prelude::*;

use crate::admin::{CreateUserCall, ProtoUser, UpdateUserCall, UserPage};
use crate::custodian::server::{CreateTicketCall, UpdateTicketCall};
use crate::custodian::ticket::{NextActionKind, NextActionMessage, TicketMessage};
use crate::db::server::WireTicketQuery;
use crate::gateway::error::ApiError;
use crate::gateway::routes::{
    create_ticket_call, create_ticket_reply, create_user_call, create_user_reply, delete_user_reply,
    get_ticket_reply, health, list_tickets_call, list_tickets_reply, list_users_call,
    list_users_reply, login_call, login_reply, map_next_action, to_proto_next_action,
    update_ticket_call, update_ticket_reply, update_user_call, user_reply, ApiNextAction,
    ApiNextActionInput, ApiTicket, ApiUser, AuthenticateCall, AuthenticateReply, CreateTicketRequest,
    CreateUserRequest, HealthResponse, ListTicketsParams, ListUsersParams, ListUsersResponse,
    LoginRequest, LoginResponse, UpdateTicketRequest, UpdateUserRequest,
};
use crate::status::Status;
use crate::text::text_of;
use crate::time::Timestamp;

verus! {

// ---- Logging in ----

/// A login is handed on with its name, its password and its second factor, an empty one where none
/// is given.
pub proof fn a_login_is_handed_on(payload: LoginRequest, out: AuthenticateCall)
    requires
        call_ensures(login_call, (payload,), out),
    ensures
        out.username@ == payload.username@ && out.password@ == payload.password@,
        payload.mfa_token matches Some(token) ==> out.mfa_token@ == token@,
        payload.mfa_token is None ==> out.mfa_token@.len() == 0,
{
}

/// One whose login succeeded gets the token of the session; one whose login failed gets none, and
/// is told why.
pub proof fn a_token_is_for_those_who_logged_in(
    r: AuthenticateReply,
    out: Result<LoginResponse, ApiError>,
    failure: Status,
    refused: Result<LoginResponse, ApiError>,
    e: ApiError,
)
    requires
        call_ensures(login_reply, (Ok::<AuthenticateReply, Status>(r),), out),
        call_ensures(login_reply, (Err::<AuthenticateReply, Status>(failure),), refused),
        call_ensures(ApiError::from, (failure,), e),
    ensures
        out is Ok <==> r.success,
        out matches Ok(answer) ==> answer.token@ == r.session_token@,
        out matches Err(said) ==> said.status == 401 && said.code@ == "unauthenticated"@
            && said.message@ == r.error@,
        refused matches Err(said) && said.status == e.status && said.code@ == e.code@
            && said.message@ == e.message@,
{
}

// ---- Next actions ----

/// A message of a next action shows its kind and its time, and a schedule by its name.
pub proof fn an_action_is_shown(m: NextActionMessage, out: Option<ApiNextAction>)
    requires
        call_ensures(map_next_action, (m,), out),
    ensures
        m.kind is None ==> out is None,
        m.kind matches Some(NextActionKind::FollowUp(ts)) ==> out == Some(
            ApiNextAction::FollowUp { at: ts.seconds },
        ),
        m.kind matches Some(NextActionKind::Appointment(ts)) ==> out == Some(
            ApiNextAction::Appointment { at: ts.seconds },
        ),
        m.kind matches Some(NextActionKind::AutoClose(n)) ==> (out matches Some(
            ApiNextAction::AutoClose { schedule },
        ) && (n == 2 ==> schedule@ == "hours_24"@) && (n == 3 ==> schedule@ == "hours_48"@) && (n
            == 4 ==> schedule@ == "hours_72"@) && (n != 2 && n != 3 && n != 4 ==> schedule@
            == "end_of_day"@)),
{
}

/// A next action that was written is shown again as it was; a schedule with an unknown name as the
/// end of the day.
pub proof fn a_written_action_is_shown(
    at: i64,
    schedule: String,
    a: NextActionMessage,
    b: NextActionMessage,
    c: NextActionMessage,
    d: NextActionMessage,
    w: Option<ApiNextAction>,
    x: Option<ApiNextAction>,
    y: Option<ApiNextAction>,
    z: Option<ApiNextAction>,
)
    requires
        call_ensures(to_proto_next_action, (ApiNextActionInput::NoAction,), a),
        call_ensures(to_proto_next_action, (ApiNextActionInput::FollowUp { at },), b),
        call_ensures(to_proto_next_action, (ApiNextActionInput::Appointment { at },), c),
        call_ensures(to_proto_next_action, (ApiNextActionInput::AutoClose { schedule },), d),
        call_ensures(map_next_action, (a,), w),
        call_ensures(map_next_action, (b,), x),
        call_ensures(map_next_action, (c,), y),
        call_ensures(map_next_action, (d,), z),
    ensures
        w is None,
        x == Some(ApiNextAction::FollowUp { at }),
        y == Some(ApiNextAction::Appointment { at }),
        b.kind == Some(NextActionKind::FollowUp(Timestamp { seconds: at, nanos: 0 })),
        c.kind == Some(NextActionKind::Appointment(Timestamp { seconds: at, nanos: 0 })),
        z matches Some(ApiNextAction::AutoClose { schedule: shown }) && (if schedule@ == "hours_24"@
            || schedule@ == "hours_48"@ || schedule@ == "hours_72"@ {
            shown@ == schedule@
        } else {
            shown@ == "end_of_day"@
        }),
{
    reveal_strlit("hours_24");
    reveal_strlit("hours_48");
    reveal_strlit("hours_72");
    assert("hours_24"@[6] == '2');
    assert("hours_48"@[6] == '4');
    assert("hours_72"@[6] == '7');
}

// ---- Tickets ----

/// The ticket shows the message field by field.
pub open spec fn is_shown_as(t: ApiTicket, m: TicketMessage) -> bool {
    &&& t.ticket_id == m.ticket_id
    &&& t.title@ == m.title@
    &&& t.project@ == m.project@
    &&& t.priority == m.priority
    &&& t.status == m.status
    &&& m.next_action is None ==> t.next_action is None
}

/// A ticket is shown as its message says, with its next action.
pub proof fn a_ticket_is_shown(
    m: TicketMessage,
    out: ApiTicket,
    action: NextActionMessage,
    shown: Option<ApiNextAction>,
)
    requires
        call_ensures(ApiTicket::from, (m,), out),
        call_ensures(map_next_action, (action,), shown),
        m.next_action == Some(action),
    ensures
        is_shown_as(out, m),
        shown is None <==> out.next_action is None,
        shown matches Some(ApiNextAction::FollowUp { at }) ==> out.next_action == shown,
        shown matches Some(ApiNextAction::Appointment { at }) ==> out.next_action == shown,
        shown matches Some(ApiNextAction::AutoClose { schedule }) ==> (out.next_action matches Some(
            ApiNextAction::AutoClose { schedule: s },
        ) && s@ == schedule@),
{
}

/// What is asked for a new ticket is what was written, in the name of the one who is logged in.
pub proof fn a_new_ticket_is_asked_for(
    payload: CreateTicketRequest,
    subject: String,
    out: CreateTicketCall,
)
    requires
        call_ensures(create_ticket_call, (payload, subject), out),
    ensures
        out.title@ == payload.title@ && out.project@ == payload.project@ && out.account_uuid@
            == payload.account_uuid@,
        out.symptom == payload.symptom && out.priority == payload.priority,
        out.created_by_uuid@ == subject@,
        out.customer_ticket_number is None && out.isp_ticket_number is None
            && out.other_ticket_number is None && out.ebond is None && out.tracking_url is None,
{
}

/// What is asked for a changed ticket is what was written, in the name of the one who is logged in;
/// what was not written is not asked for.
pub proof fn a_change_of_a_ticket_is_asked_for(
    id: u64,
    payload: UpdateTicketRequest,
    subject: String,
    out: UpdateTicketCall,
    input: ApiNextActionInput,
    message: NextActionMessage,
)
    requires
        call_ensures(update_ticket_call, (id, payload, subject), out),
        call_ensures(to_proto_next_action, (input,), message),
    ensures
        out.ticket_id == id,
        text_of(out.title) == text_of(payload.title),
        text_of(out.project) == text_of(payload.project),
        out.priority == payload.priority,
        out.status == payload.status,
        payload.next_action is None ==> out.next_action is None,
        payload.next_action == Some(input) ==> out.next_action == Some(message),
        text_of(out.updated_by_uuid) == Some(subject@),
        out.symptom is None && out.resolution is None && out.assigned_to_uuid is None,
{
}

/// What is asked for a list is what was written; without a word deleted tickets are left out and
/// there is no limit.
pub proof fn a_list_is_asked_for(params: ListTicketsParams, out: WireTicketQuery)
    requires
        call_ensures(list_tickets_call, (params,), out),
    ensures
        out.status == params.status,
        text_of(out.assigned_to_uuid) == text_of(params.assignee),
        text_of(out.account_uuid) == text_of(params.account),
        text_of(out.project) == text_of(params.project),
        params.include_deleted matches Some(b) ==> out.include_deleted == b,
        params.include_deleted is None ==> !out.include_deleted,
        params.limit matches Some(n) ==> out.limit == n,
        params.limit is None ==> out.limit == 0,
{
}

/// A ticket that came back is shown, and one that was created with the status for that.
pub proof fn tickets_that_came_back_are_shown(
    m: TicketMessage,
    created: Result<(u16, ApiTicket), ApiError>,
    got: Result<ApiTicket, ApiError>,
    updated: Result<ApiTicket, ApiError>,
)
    requires
        call_ensures(create_ticket_reply, (Ok::<TicketMessage, String>(m),), created),
        call_ensures(get_ticket_reply, (Ok::<TicketMessage, String>(m),), got),
        call_ensures(update_ticket_reply, (Ok::<TicketMessage, String>(m),), updated),
    ensures
        created matches Ok((http, t)) && http == 201 && is_shown_as(t, m),
        got matches Ok(t) && is_shown_as(t, m),
        updated matches Ok(t) && is_shown_as(t, m),
{
}

/// A ticket that did not come back is told in the words of the call: as not found where it was
/// asked for, as a failure inside otherwise.
pub proof fn tickets_that_did_not_come_back_are_told(
    text: String,
    created: Result<(u16, ApiTicket), ApiError>,
    got: Result<ApiTicket, ApiError>,
    updated: Result<ApiTicket, ApiError>,
    listed: Result<Vec<ApiTicket>, ApiError>,
)
    requires
        call_ensures(create_ticket_reply, (Err::<TicketMessage, String>(text),), created),
        call_ensures(get_ticket_reply, (Err::<TicketMessage, String>(text),), got),
        call_ensures(update_ticket_reply, (Err::<TicketMessage, String>(text),), updated),
        call_ensures(list_tickets_reply, (Err::<Vec<TicketMessage>, String>(text),), listed),
    ensures
        created matches Err(e) && e.status == 500 && e.code@ == "internal"@ && e.message@ == text@,
        got matches Err(e) && e.status == 404 && e.code@ == "not_found"@ && e.message@ == text@,
        updated matches Err(e) && e.status == 500 && e.code@ == "internal"@ && e.message@ == text@,
        listed matches Err(e) && e.status == 500 && e.code@ == "internal"@ && e.message@ == text@,
{
}

/// A list shows every ticket that came back, in the same order.
pub proof fn a_list_shows_every_ticket(
    messages: Vec<TicketMessage>,
    out: Result<Vec<ApiTicket>, ApiError>,
    i: int,
)
    requires
        call_ensures(list_tickets_reply, (Ok::<Vec<TicketMessage>, String>(messages),), out),
    ensures
        out matches Ok(tickets) && tickets@.len() == messages@.len() && (0 <= i < messages@.len()
            ==> is_shown_as(tickets@[i], messages@[i])),
{
    if 0 <= i < messages@.len() {
        assert(crate::gateway::routes::shows_api_ticket(out->Ok_0@[i], messages@[i]));
    }
}

// ---- Users ----

/// What is asked for a new user is what was written.
pub proof fn a_new_user_is_asked_for(payload: CreateUserRequest, out: CreateUserCall)
    requires
        call_ensures(create_user_call, (payload,), out),
    ensures
        out.username@ == payload.username@ && out.password@ == payload.password@,
        out.email@ == payload.email@ && out.display_name@ == payload.display_name@,
        out.role == payload.role,
{
}

/// What is asked for a changed user is what was written, and what was not written is not asked for.
pub proof fn a_change_of_a_user_is_asked_for(
    id: String,
    payload: UpdateUserRequest,
    out: UpdateUserCall,
)
    requires
        call_ensures(update_user_call, (id, payload), out),
    ensures
        out.id@ == id@,
        text_of(out.email) == text_of(payload.email),
        text_of(out.display_name) == text_of(payload.display_name),
        text_of(out.password) == text_of(payload.password),
        out.role == payload.role && out.active == payload.active,
{
}

/// The page that was written is asked for; without a word it is left to the service.
pub proof fn a_page_is_asked_for(params: ListUsersParams, out: (u32, u32))
    requires
        call_ensures(list_users_call, (&params,), out),
    ensures
        params.page matches Some(n) ==> out.0 == n,
        params.page is None ==> out.0 == 0,
        params.page_size matches Some(n) ==> out.1 == n,
        params.page_size is None ==> out.1 == 0,
{
}

/// The user shows the message field by field.
pub open spec fn is_user_shown_as(u: ApiUser, m: ProtoUser) -> bool {
    &&& u.id@ == m.id@
    &&& u.username@ == m.username@
    &&& u.email@ == m.email@
    &&& u.display_name@ == m.display_name@
    &&& u.role == m.role
    &&& u.active == m.active
    &&& u.created_at == m.created_at
}

/// A user that came back is shown as it is; one that is not there is not found.
pub proof fn a_user_is_shown(
    m: ProtoUser,
    one: ApiUser,
    out: Result<ApiUser, ApiError>,
    nobody: Result<ApiUser, ApiError>,
)
    requires
        call_ensures(ApiUser::from, (m,), one),
        call_ensures(user_reply, (Ok::<Option<ProtoUser>, Status>(Some(m)),), out),
        call_ensures(user_reply, (Ok::<Option<ProtoUser>, Status>(None),), nobody),
    ensures
        is_user_shown_as(one, m),
        out matches Ok(u) && is_user_shown_as(u, m),
        nobody matches Err(e) && e.status == 404 && e.code@ == "not_found"@ && e.message@
            == "user not found"@,
{
}

/// A list shows every user of the page, in the same order, and how many there are in all.
pub proof fn a_list_shows_every_user(
    page: UserPage,
    out: Result<ListUsersResponse, ApiError>,
    i: int,
)
    requires
        call_ensures(list_users_reply, (Ok::<UserPage, Status>(page),), out),
    ensures
        out matches Ok(answer) && answer.total_count == page.total_count && answer.users@.len()
            == page.users@.len() && (0 <= i < page.users@.len() ==> is_user_shown_as(
            answer.users@[i],
            page.users@[i],
        )),
{
    if 0 <= i < page.users@.len() {
        assert(out->Ok_0.users@[i] == crate::gateway::routes::api_user_of(page.users@[i]));
    }
}

/// A user that was created or removed is told with the status for that.
pub proof fn work_on_users_is_told(created: Result<u16, ApiError>, deleted: Result<u16, ApiError>)
    requires
        call_ensures(create_user_reply, (Ok::<(), Status>(()),), created),
        call_ensures(delete_user_reply, (Ok::<(), Status>(()),), deleted),
    ensures
        created matches Ok(http) && http == 201,
        deleted matches Ok(http) && http == 204,
{
}

/// A failed call on users becomes the error that a failed call becomes.
pub proof fn failed_work_on_users_is_told(
    failure: Status,
    e: ApiError,
    created: Result<u16, ApiError>,
    deleted: Result<u16, ApiError>,
    listed: Result<ListUsersResponse, ApiError>,
    got: Result<ApiUser, ApiError>,
)
    requires
        call_ensures(ApiError::from, (failure,), e),
        call_ensures(create_user_reply, (Err::<(), Status>(failure),), created),
        call_ensures(delete_user_reply, (Err::<(), Status>(failure),), deleted),
        call_ensures(list_users_reply, (Err::<UserPage, Status>(failure),), listed),
        call_ensures(user_reply, (Err::<Option<ProtoUser>, Status>(failure),), got),
    ensures
        created matches Err(x) && x.status == e.status && x.code@ == e.code@ && x.message@
            == failure.message@,
        deleted matches Err(x) && x.status == e.status && x.code@ == e.code@ && x.message@
            == failure.message@,
        listed matches Err(x) && x.status == e.status && x.code@ == e.code@ && x.message@
            == failure.message@,
        got matches Err(x) && x.status == e.status && x.code@ == e.code@ && x.message@
            == failure.message@,
{
}

// ---- Health ----

/// All is well only while both services can be reached, and each is told of by itself.
pub proof fn health_is_of_both_services(auth: bool, custodian: bool, out: (u16, HealthResponse))
    requires
        call_ensures(health, (auth, custodian), out),
    ensures
        auth && custodian ==> out.0 == 200 && out.1.status@ == "ok"@,
        !(auth && custodian) ==> out.0 == 503 && out.1.status@ == "degraded"@,
        out.1.services@.len() == 2,
        out.1.services@[0].0@ == "auth"@ && out.1.services@[1].0@ == "custodian"@,
        auth ==> out.1.services@[0].1@ == "up"@,
        !auth ==> out.1.services@[0].1@ == "down"@,
        custodian ==> out.1.services@[1].1@ == "up"@,
        !custodian ==> out.1.services@[1].1@ == "down"@,
{
}

} // verus!
