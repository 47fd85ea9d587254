//! The console: what a click asks of the gateway is what the forms say, and what is shown is what
//! came back.

use vstd::prelude::*;

use crate::console::api::{
    bearer, login_request, query_parts, server_error, ticket_url, ApiError, ListTicketsFilter,
    LoginRequest, NextAction, Ticket,
};
use crate::console::theme::{button_label, current_theme, toggle};
use crate::console::ticket_list::{
    action_cell, editing_line, priorities_of, statuses_of, Action, TicketList,
};
use crate::policy::{
    allowed_transitions, can_transition, is_terminal, occurrences, status_label, statuses, tally,
};
use crate::text::{
    blank, dec, dec_int, decimal, decimal_signed, joined, read_i32, read_unsigned, trim,
};

verus! {

// ---- Requests ----

/// A login carries the name and the password and no second factor, and a token stands behind the
/// word for its bearer.
pub proof fn logging_in_is_plain(
    username: String,
    password: String,
    out: LoginRequest,
    token: &str,
    header: String,
)
    requires
        call_ensures(login_request, (username, password), out),
        call_ensures(bearer, (token,), header),
    ensures
        out.username@ == username@ && out.password@ == password@ && out.mfa_token is None,
        header@ == "Bearer "@ + token@,
{
}

/// A ticket is asked for by its number.
pub proof fn a_ticket_is_asked_for_by_number(id: u64, out: String, number: String)
    requires
        call_ensures(ticket_url, (id,), out),
        call_ensures(decimal, (id,), number),
    ensures
        out@ == "/api/tickets/"@ + number@,
{
}

/// A failure says what the server said, or that the network failed and how.
pub proof fn failures_are_told(
    text: String,
    body: Option<String>,
    fallback: &str,
    a: String,
    b: String,
    out: ApiError,
)
    requires
        call_ensures(ApiError::text, (&ApiError::Transport(text),), a),
        call_ensures(ApiError::text, (&ApiError::Server(text),), b),
        call_ensures(server_error, (body, fallback), out),
    ensures
        a@ == "network error: "@ + text@,
        b@ == text@,
        out matches ApiError::Server(said) && (body matches Some(t) ==> said@ == t@) && (body
            is None ==> said@ == fallback@),
{
}

/// A next action is summed up by its kind and its time, or its schedule; without one there is a
/// dash.
pub proof fn actions_are_summed_up(
    at: i64,
    number: String,
    schedule: String,
    a: String,
    b: String,
    c: String,
    action: NextAction,
    summary: String,
    cell: String,
    none: String,
)
    requires
        call_ensures(decimal_signed, (at,), number),
        call_ensures(NextAction::summary, (&(NextAction::FollowUp { at }),), a),
        call_ensures(NextAction::summary, (&(NextAction::Appointment { at }),), b),
        call_ensures(NextAction::summary, (&(NextAction::AutoClose { schedule }),), c),
        call_ensures(NextAction::summary, (&action,), summary),
        call_ensures(action_cell, (&Some(action),), cell),
        call_ensures(action_cell, (&None::<NextAction>,), none),
    ensures
        a@ == "Follow up @ "@ + number@,
        b@ == "Appointment @ "@ + number@,
        c@ == "Auto-close ("@ + schedule@ + ")"@,
        cell@ == summary@,
        none@ == "\u{2014}"@,
{
}

// ---- Filters ----

/// The query is the other one with a part more at its end.
pub open spec fn with_more(query: Seq<char>, less: Seq<char>, part: Seq<char>) -> bool {
    query == if less.len() == 0 {
        part
    } else {
        less + "&"@ + part
    }
}

proof fn parts_are_not_empty(f: ListTicketsFilter)
    ensures
        forall|i: int| 0 <= i < query_parts(f).len() ==> (#[trigger] query_parts(f)[i]).len() > 0,
{
    reveal_strlit("status=");
    reveal_strlit("assignee=");
    reveal_strlit("account=");
    reveal_strlit("project=");
    reveal_strlit("include_deleted=true");
    reveal_strlit("limit=");
}

proof fn joining_one_more(parts: Seq<Seq<char>>, part: Seq<char>)
    requires
        forall|i: int| 0 <= i < parts.len() ==> (#[trigger] parts[i]).len() > 0,
    ensures
        with_more(joined(parts.push(part), "&"@), joined(parts, "&"@), part),
{
    assert(parts.push(part).drop_last() =~= parts);
    if parts.len() == 1 {
        assert(parts[0].len() > 0);
    } else if parts.len() > 1 {
        reveal_strlit("&");
    }
}

/// What a filter asks is asked part by part, in the order of the fields: the status, the assignee,
/// the account, the project, the deleted ones, the limit. Each that is set adds its part at the
/// end; a text is trimmed, and a blank one adds nothing.
pub proof fn a_filter_is_asked_part_by_part(
    f: ListTicketsFilter,
    g: ListTicketsFilter,
    query: String,
    less: String,
    account: &str,
    account_trimmed: &str,
    account_blank: bool,
    project: &str,
    project_trimmed: &str,
    project_blank: bool,
    assignee: &str,
    assignee_trimmed: &str,
    assignee_blank: bool,
)
    requires
        call_ensures(ListTicketsFilter::to_query_string, (&f,), query),
        call_ensures(ListTicketsFilter::to_query_string, (&g,), less),
        assignee@ == f.assignee@ && account@ == f.account@ && project@ == f.project@,
        call_ensures(blank, (assignee,), assignee_blank),
        call_ensures(trim, (assignee,), assignee_trimmed),
        call_ensures(blank, (account,), account_blank),
        call_ensures(trim, (account,), account_trimmed),
        call_ensures(blank, (project,), project_blank),
        call_ensures(trim, (project,), project_trimmed),
    ensures
        f.limit is Some && g == (ListTicketsFilter { limit: None, ..f }) ==> with_more(
            query@,
            less@,
            "limit="@ + dec(f.limit->0 as nat),
        ),
        f.limit is None && f.include_deleted && g == (ListTicketsFilter {
            include_deleted: false,
            ..f
        }) ==> with_more(query@, less@, "include_deleted=true"@),
        f.limit is None && !f.include_deleted && !project_blank && g.project@.len() == 0 && g == (
        ListTicketsFilter { project: g.project, ..f }) ==> with_more(
            query@,
            less@,
            "project="@ + project_trimmed@,
        ),
        f.limit is None && !f.include_deleted && project_blank && !account_blank && g.account@.len()
            == 0 && g == (ListTicketsFilter { account: g.account, ..f }) ==> with_more(
            query@,
            less@,
            "account="@ + account_trimmed@,
        ),
        f.limit is None && !f.include_deleted && project_blank && account_blank && !assignee_blank
            && g.assignee@.len() == 0 && g == (ListTicketsFilter { assignee: g.assignee, ..f })
            ==> with_more(query@, less@, "assignee="@ + assignee_trimmed@),
        f.limit is None && !f.include_deleted && project_blank && account_blank && assignee_blank ==> (
        if f.status is Some {
            query@ == "status="@ + dec_int(f.status->0 as int)
        } else {
            query@.len() == 0
        }),
{
    let (all, few) = (query_parts(f), query_parts(g));
    parts_are_not_empty(g);
    empty_is_blank(g.assignee@);
    empty_is_blank(g.account@);
    empty_is_blank(g.project@);
    if f.limit is Some && g == (ListTicketsFilter { limit: None, ..f }) {
        let part = "limit="@ + dec(f.limit->0 as nat);
        assert(all =~= few.push(part));
        joining_one_more(few, part);
    }
    if f.limit is None && f.include_deleted && g == (ListTicketsFilter {
        include_deleted: false,
        ..f
    }) {
        assert(all =~= few.push("include_deleted=true"@));
        joining_one_more(few, "include_deleted=true"@);
    }
    if f.limit is None && !f.include_deleted && !project_blank && g.project@.len() == 0 && g == (
    ListTicketsFilter { project: g.project, ..f }) {
        let part = "project="@ + project_trimmed@;
        assert(all =~= few.push(part));
        joining_one_more(few, part);
    }
    if f.limit is None && !f.include_deleted && project_blank && !account_blank && g.account@.len()
        == 0 && g == (ListTicketsFilter { account: g.account, ..f }) {
        let part = "account="@ + account_trimmed@;
        assert(all =~= few.push(part));
        joining_one_more(few, part);
    }
    if f.limit is None && !f.include_deleted && project_blank && account_blank && !assignee_blank
        && g.assignee@.len() == 0 && g == (ListTicketsFilter { assignee: g.assignee, ..f }) {
        let part = "assignee="@ + assignee_trimmed@;
        assert(all =~= few.push(part));
        joining_one_more(few, part);
    }
    if f.limit is None && !f.include_deleted && project_blank && account_blank && assignee_blank {
        if f.status is Some {
            assert(all =~= seq!["status="@ + dec_int(f.status->0 as int)]);
        } else {
            assert(all =~= Seq::empty());
        }
    }
}

proof fn empty_is_blank(s: Seq<char>)
    requires
        true,
    ensures
        s.len() == 0 ==> crate::text::is_blank(s),
{
}

/// A list is asked for at its place, with the query behind a question mark where there is one. A
/// filter as it is first asks nothing.
pub proof fn a_list_is_asked_for_at_its_place(
    f: ListTicketsFilter,
    query: String,
    url: String,
    first: ListTicketsFilter,
    plain: String,
)
    requires
        call_ensures(ListTicketsFilter::to_query_string, (&f,), query),
        call_ensures(ListTicketsFilter::url, (&f,), url),
        call_ensures(ListTicketsFilter::default, (), first),
        call_ensures(ListTicketsFilter::url, (&first,), plain),
    ensures
        query@.len() == 0 ==> url@ == "/api/tickets"@,
        query@.len() > 0 ==> url@ == "/api/tickets?"@ + query@,
        plain@ == "/api/tickets"@,
{
    crate::console::api::idle_filter_asks_nothing(first);
}

// ---- The theme ----

/// The theme is the one that was kept, and dark where none was; the other theme is the other one,
/// and the button is for that.
pub proof fn the_theme_is_kept(
    stored: Option<String>,
    now: String,
    other: String,
    theme: &str,
    label: &'static str,
)
    requires
        call_ensures(current_theme, (stored,), now),
        call_ensures(toggle, (stored,), other),
        theme@ == now@,
        call_ensures(button_label, (theme,), label),
    ensures
        now@ == "light"@ <==> (stored matches Some(s) && s@ == "light"@),
        now@ == "dark"@ || now@ == "light"@,
        now@ == "dark"@ ==> other@ == "light"@ && label@ == "\u{2600} Light"@,
        now@ == "light"@ ==> other@ == "dark"@ && label@ == "\u{1f319} Dark"@,
{
    reveal_strlit("dark");
    reveal_strlit("light");
    assert("dark"@.len() == 4 && "light"@.len() == 5);
}

// ---- Clicks ----

/// The page is as it was, but that the user is told why nothing is asked.
pub open spec fn told_why(before: TicketList, after: TicketList, why: Seq<char>) -> bool {
    after == (TicketList { error: after.error, ..before }) && after.error@ == why
}

/// The page is as it was, but that the user is told nothing any more.
pub open spec fn told_nothing(before: TicketList, after: TicketList) -> bool {
    after == (TicketList { error: after.error, message: after.message, ..before })
        && after.error@.len() == 0 && after.message@.len() == 0
}

/// One who is not signed in is told so, whatever the click, and nothing is asked.
pub proof fn one_must_be_signed_in(
    a: &mut TicketList,
    b: &mut TicketList,
    c: &mut TicketList,
    d: &mut TicketList,
    e: &mut TicketList,
    v: Option<Action>,
    w: Option<Action>,
    x: Option<Action>,
    y: Option<Action>,
    z: Option<Action>,
)
    requires
        old(a).token is None && old(b).token is None && old(c).token is None && old(d).token is None
            && old(e).token is None,
        call_ensures(TicketList::on_lookup, (a,), v),
        call_ensures(TicketList::on_search, (b,), w),
        call_ensures(TicketList::on_create_ticket, (c,), x),
        call_ensures(TicketList::on_update_ticket, (d,), y),
        call_ensures(TicketList::on_create_user, (e,), z),
    ensures
        v is None && w is None && x is None && y is None && z is None,
        told_why(*old(a), *final(a), "Missing auth token. Please sign in again."@),
        told_why(*old(b), *final(b), "Missing auth token. Please sign in again."@),
        told_why(*old(c), *final(c), "Missing auth token. Please sign in again."@),
        told_why(*old(d), *final(d), "Missing auth token. Please sign in again."@),
        told_why(*old(e), *final(e), "Missing auth token. Please sign in again."@),
{
}

/// A lookup asks for the ticket whose number was typed; what is no number is refused.
pub proof fn a_lookup_asks_for_the_number(
    page: &mut TicketList,
    out: Option<Action>,
    typed: &str,
    number: &str,
    n: Option<u64>,
)
    requires
        old(page).token is Some,
        call_ensures(TicketList::on_lookup, (page,), out),
        typed@ == old(page).lookup_id@,
        call_ensures(trim, (typed,), number),
        call_ensures(read_unsigned, (number, u64::MAX), n),
    ensures
        n is None ==> out is None && told_why(
            *old(page),
            *final(page),
            "Ticket number must be a valid integer."@,
        ),
        n is Some ==> told_nothing(*old(page), *final(page)) && (out matches Some(
            Action::FetchTicket { token, ticket_id },
        ) && ticket_id == n->0 && token@ == (old(page).token->0)@),
{
}

/// A search asks for what the form says: any status or the chosen one, the texts as they are, and a
/// limit where a number was typed.
pub proof fn a_search_asks_for_what_was_typed(
    page: &mut TicketList,
    out: Option<Action>,
    chosen: &str,
    status: Option<i32>,
    typed: &str,
    trimmed: &str,
    limit: Option<u64>,
)
    requires
        old(page).token is Some,
        call_ensures(TicketList::on_search, (page,), out),
        chosen@ == old(page).filter.status@,
        call_ensures(read_i32, (chosen,), status),
        typed@ == old(page).filter.limit@,
        call_ensures(trim, (typed,), trimmed),
        call_ensures(read_unsigned, (trimmed, u32::MAX as u64), limit),
    ensures
        told_nothing(*old(page), *final(page)),
        out matches Some(Action::ListTickets { token, filter }) && token@ == (old(page).token->0)@ && filter.assignee@ == old(page).filter.assignee@ && filter.account@ == old(page).filter.account@ && filter.project@ == old(page).filter.project@ && filter.include_deleted
            == old(page).filter.include_deleted && (chosen@ == "any"@ ==> filter.status is None) && (
        chosen@ != "any"@ ==> filter.status == status) && (limit is None ==> filter.limit is None)
            && (limit is Some ==> (filter.limit matches Some(k) && k == limit->0)),
{
}

/// A new ticket is asked for as the form says; the priority must be a number.
pub proof fn a_new_ticket_is_asked_for_as_typed(
    page: &mut TicketList,
    out: Option<Action>,
    typed: &str,
    priority: Option<i32>,
)
    requires
        old(page).token is Some,
        call_ensures(TicketList::on_create_ticket, (page,), out),
        typed@ == old(page).new_ticket.priority@,
        call_ensures(read_i32, (typed,), priority),
    ensures
        priority is None ==> out is None && told_why(
            *old(page),
            *final(page),
            "Priority must be a valid integer enum value."@,
        ),
        priority is Some ==> told_nothing(*old(page), *final(page)) && (out matches Some(
            Action::CreateTicket { token, payload },
        ) && token@ == (old(page).token->0)@ && payload.title@ == old(page).new_ticket.title@
            && payload.project@ == old(page).new_ticket.project@ && payload.account_uuid@ == old(page).new_ticket.account_uuid@ && payload.symptom == 1 && payload.priority == priority->0),
{
}

/// A new user is asked for as the form says; the role must be a number.
pub proof fn a_new_user_is_asked_for_as_typed(
    page: &mut TicketList,
    out: Option<Action>,
    typed: &str,
    role: Option<i32>,
)
    requires
        old(page).token is Some,
        call_ensures(TicketList::on_create_user, (page,), out),
        typed@ == old(page).new_user.role@,
        call_ensures(read_i32, (typed,), role),
    ensures
        role is None ==> out is None && told_why(
            *old(page),
            *final(page),
            "Role must be a valid integer enum value."@,
        ),
        role is Some ==> told_nothing(*old(page), *final(page)) && (out matches Some(
            Action::CreateUser { token, payload },
        ) && token@ == (old(page).token->0)@ && payload.username@ == old(page).new_user.username@
            && payload.password@ == old(page).new_user.password@ && payload.email@ == old(page).new_user.email@ && payload.display_name@ == old(page).new_user.display_name@
            && payload.role == role->0),
{
}

/// An update asks for what the form says of the loaded ticket: a blank field asks for nothing, what
/// is no number is refused, and so is a status that does not follow.
pub proof fn an_update_is_asked_for_as_typed(
    page: &mut TicketList,
    out: Option<Action>,
    title: &str,
    title_blank: bool,
    project: &str,
    project_blank: bool,
    priority: &str,
    priority_blank: bool,
    priority_read: Option<i32>,
    status: &str,
    status_blank: bool,
    status_read: Option<i32>,
    follows: bool,
    from: String,
    to: String,
)
    requires
        old(page).token is Some,
        call_ensures(TicketList::on_update_ticket, (page,), out),
        title@ == old(page).update.title@ && project@ == old(page).update.project@ && priority@
            == old(page).update.priority@ && status@ == old(page).update.status@,
        call_ensures(blank, (title,), title_blank),
        call_ensures(blank, (project,), project_blank),
        call_ensures(blank, (priority,), priority_blank),
        call_ensures(read_i32, (priority,), priority_read),
        call_ensures(blank, (status,), status_blank),
        call_ensures(read_i32, (status,), status_read),
        old(page).ticket is Some && status_read is Some ==> call_ensures(
            can_transition,
            (old(page).ticket->0.status, status_read->0),
            follows,
        ) && call_ensures(status_label, (old(page).ticket->0.status,), from) && call_ensures(
            status_label,
            (status_read->0,),
            to,
        ),
    ensures
        ({
            let loaded = old(page).ticket is Some;
            let bad_priority = !priority_blank && priority_read is None;
            let bad_status = !status_blank && status_read is None;
            let illegal = !status_blank && status_read is Some && !follows;
            &&& !loaded ==> out is None && told_why(
                *old(page),
                *final(page),
                "Load a ticket before updating."@,
            )
            &&& loaded && bad_priority ==> out is None && told_why(
                *old(page),
                *final(page),
                "Update priority must be a valid integer enum value."@,
            )
            &&& loaded && !bad_priority && bad_status ==> out is None && told_why(
                *old(page),
                *final(page),
                "Update status must be a valid integer enum value."@,
            )
            &&& loaded && !bad_priority && illegal ==> out is None && told_why(
                *old(page),
                *final(page),
                "Illegal transition: "@ + from@ + " \u{2192} "@ + to@ + " is not allowed."@,
            )
            &&& loaded && !bad_priority && !bad_status && !illegal ==> told_nothing(
                *old(page),
                *final(page),
            ) && (out matches Some(Action::UpdateTicket { token, ticket_id, payload }) && token@ == (
            old(page).token->0)@ && ticket_id == old(page).ticket->0.ticket_id && (title_blank
                ==> payload.title is None) && (!title_blank ==> (payload.title matches Some(t) && t@
                == title@)) && (project_blank ==> payload.project is None) && (!project_blank ==> (
            payload.project matches Some(t) && t@ == project@)) && (priority_blank
                ==> payload.priority is None) && (!priority_blank ==> payload.priority
                == priority_read) && (status_blank ==> payload.status is None) && (!status_blank
                ==> payload.status == status_read) && payload.next_action is None)
        }),
{
}

// ---- Answers ----

/// A ticket that came is loaded, and the form shows it; why none came is told.
pub proof fn a_ticket_that_came_is_loaded(
    a: &mut TicketList,
    b: &mut TicketList,
    c: &mut TicketList,
    d: &mut TicketList,
    t: Ticket,
    e: ApiError,
    words: String,
    priority: String,
    status: String,
    id: String,
)
    requires
        *old(b) == *old(a) && *old(c) == *old(a) && *old(d) == *old(a),
        call_ensures(TicketList::ticket_found, (a, Ok::<Ticket, ApiError>(t)), ()),
        call_ensures(TicketList::ticket_found, (b, Err::<Ticket, ApiError>(e)), ()),
        call_ensures(TicketList::ticket_created, (c, Ok::<Ticket, ApiError>(t)), ()),
        call_ensures(TicketList::ticket_created, (d, Err::<Ticket, ApiError>(e)), ()),
        call_ensures(ApiError::text, (&e,), words),
        call_ensures(decimal_signed, (t.priority as i64,), priority),
        call_ensures(decimal_signed, (t.status as i64,), status),
        call_ensures(decimal, (t.ticket_id,), id),
    ensures
        *final(a) == (TicketList { ticket: Some(t), update: final(a).update, ..*old(a) }),
        final(a).update.title@ == t.title@ && final(a).update.project@ == t.project@ && final(a).update.priority@ == priority@ && final(a).update.status@ == status@,
        told_why(*old(a), *final(b), words@),
        *final(c) == (TicketList {
            ticket: Some(t),
            update: final(c).update,
            message: final(c).message,
            ..*old(a)
        }),
        final(c).update.title@ == t.title@ && final(c).update.project@ == t.project@ && final(c).update.priority@ == priority@ && final(c).update.status@ == status@,
        final(c).message@ == "Ticket #"@ + id@ + " created."@,
        told_why(*old(a), *final(d), words@),
{
}

/// A ticket that was updated takes the place of the loaded one; the form stays as it was typed.
pub proof fn an_updated_ticket_is_taken_over(
    a: &mut TicketList,
    b: &mut TicketList,
    t: Ticket,
    e: ApiError,
    words: String,
    id: String,
)
    requires
        *old(b) == *old(a),
        call_ensures(TicketList::ticket_updated, (a, Ok::<Ticket, ApiError>(t)), ()),
        call_ensures(TicketList::ticket_updated, (b, Err::<Ticket, ApiError>(e)), ()),
        call_ensures(ApiError::text, (&e,), words),
        call_ensures(decimal, (t.ticket_id,), id),
    ensures
        *final(a) == (TicketList { ticket: Some(t), message: final(a).message, ..*old(a) }),
        final(a).message@ == "Ticket #"@ + id@ + " updated."@,
        told_why(*old(a), *final(b), words@),
{
}

/// Tickets that were found are listed and counted; why none were is told, and the list stays.
pub proof fn tickets_that_were_found_are_listed(
    a: &mut TicketList,
    b: &mut TicketList,
    list: Vec<Ticket>,
    e: ApiError,
    words: String,
    n: usize,
)
    requires
        *old(b) == *old(a),
        call_ensures(TicketList::tickets_listed, (a, Ok::<Vec<Ticket>, ApiError>(list)), ()),
        call_ensures(TicketList::tickets_listed, (b, Err::<Vec<Ticket>, ApiError>(e)), ()),
        call_ensures(ApiError::text, (&e,), words),
        call_ensures(TicketList::total, (final(a),), n),
    ensures
        *final(a) == (TicketList { tickets: list, message: final(a).message, ..*old(a) }),
        n == list@.len(),
        final(a).message@ == "Found "@ + dec(n as nat) + " ticket(s)."@,
        told_why(*old(a), *final(b), words@),
{
}

/// A user that was created is told, and why one was not.
pub proof fn a_created_user_is_told(
    a: &mut TicketList,
    b: &mut TicketList,
    e: ApiError,
    words: String,
)
    requires
        *old(b) == *old(a),
        call_ensures(TicketList::user_created, (a, Ok::<(), ApiError>(())), ()),
        call_ensures(TicketList::user_created, (b, Err::<(), ApiError>(e)), ()),
        call_ensures(ApiError::text, (&e,), words),
    ensures
        *final(a) == (TicketList { message: final(a).message, ..*old(a) }),
        final(a).message@ == "User created successfully."@,
        told_why(*old(a), *final(b), words@),
{
}

/// The page begins empty: no tickets, any status, the lowest priority and the usual role.
pub proof fn the_page_begins_empty(token: Option<String>, page: TicketList, n: usize)
    requires
        call_ensures(TicketList::new, (token,), page),
        call_ensures(TicketList::total, (&page,), n),
    ensures
        page.token == token && n == 0 && page.ticket is None,
        page.message@.len() == 0 && page.error@.len() == 0,
        page.filter.status@ == "any"@ && !page.filter.include_deleted,
        page.filter.assignee@.len() == 0 && page.filter.account@.len() == 0
            && page.filter.project@.len() == 0 && page.filter.limit@.len() == 0,
        page.new_ticket.priority@ == "1"@ && page.new_user.role@ == "2"@,
{
}

// ---- What is shown ----

/// The form offers the status the ticket has and those that may follow it, in their order; without
/// a ticket it offers all.
pub proof fn the_form_offers_what_follows(
    page: TicketList,
    out: Vec<i32>,
    next: Vec<i32>,
    all: Vec<(i32, &'static str)>,
    i: int,
)
    requires
        call_ensures(TicketList::update_status_options, (&page,), out),
        page.ticket is Some ==> call_ensures(
            allowed_transitions,
            (page.ticket->0.status,),
            next,
        ),
        call_ensures(statuses, (), all),
    ensures
        page.ticket is Some ==> out@.len() == next@.len() + 1 && out@[0] == page.ticket->0.status
            && (0 <= i < next@.len() ==> out@[i + 1] == next@[i]),
        page.ticket is None ==> out@.len() == all@.len() && (0 <= i < all@.len() ==> out@[i]
            == all@[i].0),
{
    if page.ticket is None {
        assert(crate::policy::numbers_of(all@).len() == all@.len());
        if 0 <= i < all@.len() {
            assert(crate::policy::numbers_of(all@)[i] == all@[i].0);
        }
    }
}

proof fn occurrences_are_counted(values: Seq<i32>, v: i32)
    ensures
        occurrences(values, v) == values.to_multiset().count(v),
    decreases values.len(),
{
    broadcast use vstd::seq_lib::group_to_multiset_ensures;

    if values.len() > 0 {
        occurrences_are_counted(values.drop_last(), v);
        assert(values =~= values.drop_last().push(values.last()));
    }
}

/// A count of values holds each value that occurs once, in ascending order, with how often it
/// occurs, whatever order the values are in.
pub proof fn a_tally_counts(values: &[i32], out: Vec<(i32, usize)>, v: i32, i: int, j: int)
    requires
        call_ensures(tally, (values,), out),
    ensures
        0 <= i < out@.len() ==> out@[i].1 == values@.to_multiset().count(out@[i].0) && out@[i].1
            > 0,
        0 <= i < j < out@.len() ==> out@[i].0 < out@[j].0,
        values@.contains(v) ==> exists|k: int| 0 <= k < out@.len() && (#[trigger] out@[k]).0 == v,
{
    broadcast use vstd::seq_lib::group_to_multiset_ensures;

    if 0 <= i < out@.len() {
        occurrences_are_counted(values@, out@[i].0);
    }
    if values@.contains(v) {
        occurrences_are_counted(values@, v);
        assert(occurrences(values@, v) > 0);
    }
}

/// The page counts its tickets by status and by priority as values are counted.
pub proof fn the_page_counts_its_tickets(
    page: TicketList,
    by_status: Vec<(i32, usize)>,
    by_priority: Vec<(i32, usize)>,
    n: usize,
    i: int,
    k: int,
)
    requires
        call_ensures(TicketList::status_counts, (&page,), by_status),
        call_ensures(TicketList::priority_counts, (&page,), by_priority),
        call_ensures(TicketList::total, (&page,), n),
    ensures
        n == page.tickets@.len(),
        0 <= i < by_status@.len() ==> by_status@[i].1 == page.tickets@.map_values(
            |t: Ticket| t.status,
        ).to_multiset().count(by_status@[i].0),
        0 <= i < by_priority@.len() ==> by_priority@[i].1 == page.tickets@.map_values(
            |t: Ticket| t.priority,
        ).to_multiset().count(by_priority@[i].0),
        0 <= k < page.tickets@.len() ==> exists|a: int|
            0 <= a < by_status@.len() && (#[trigger] by_status@[a]).0 == page.tickets@[k].status,
        0 <= k < page.tickets@.len() ==> exists|a: int|
            0 <= a < by_priority@.len() && (#[trigger] by_priority@[a]).0
                == page.tickets@[k].priority,
{
    broadcast use vstd::seq_lib::group_to_multiset_ensures;

    let (s, p) = (statuses_of(page.tickets@), priorities_of(page.tickets@));
    assert(s =~= page.tickets@.map_values(|t: Ticket| t.status));
    assert(p =~= page.tickets@.map_values(|t: Ticket| t.priority));
    if 0 <= i < by_status@.len() {
        occurrences_are_counted(s, by_status@[i].0);
    }
    if 0 <= i < by_priority@.len() {
        occurrences_are_counted(p, by_priority@[i].0);
    }
    if 0 <= k < page.tickets@.len() {
        assert(s[k] == page.tickets@[k].status && p[k] == page.tickets@[k].priority);
        assert(s.contains(page.tickets@[k].status) && p.contains(page.tickets@[k].priority));
        occurrences_are_counted(s, page.tickets@[k].status);
        occurrences_are_counted(p, page.tickets@[k].priority);
        assert(occurrences(s, page.tickets@[k].status) > 0);
        assert(occurrences(p, page.tickets@[k].priority) > 0);
    }
}

/// The line above the form names the ticket and its status, and warns where nothing follows it.
pub proof fn the_line_names_the_ticket(
    t: Ticket,
    out: (String, bool),
    id: String,
    label: String,
    ends: bool,
)
    requires
        call_ensures(editing_line, (&t,), out),
        call_ensures(decimal, (t.ticket_id,), id),
        call_ensures(status_label, (t.status,), label),
        call_ensures(is_terminal, (t.status,), ends),
    ensures
        out.0@ == "Editing #"@ + id@ + " \u{2014} current status: "@ + label@,
        out.1 == ends,
{
}

} // verus!
