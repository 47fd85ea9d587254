//! The console's page of tickets: what it holds, what a click asks of the gateway, and what an
//! answer changes.

use vstd::prelude::*;
use vstd::string::*;

use crate::console::api::{
    action_summary, error_text, ApiError, CreateTicketRequest, CreateUserRequest,
    ListTicketsFilter, NextAction, Ticket, UpdateTicketRequest,
};
use crate::policy::{
    allowed_transitions, can_transition, is_sink, is_tally, is_terminal, label_of_status,
    may_follow, numbers_of, status_label, statuses, successors, tally, APPOINTMENT_SCHEDULED,
    AUTO_CLOSE, AWAITING_CUSTOMER, AWAITING_ISP, AWAITING_PARTNER, CLOSED, EBOND_RECEIVED,
    HANDED_OFF, OPEN, SUPPORT_HOLD, VOICEMAIL_RECEIVED,
};
use crate::text::{
    blank, concat2, dec, dec_int, decimal, decimal_signed, is_blank, parse_signed, parse_unsigned,
    read_i32, read_unsigned, same, trim, trimmed,
};

verus! {

// ---- The page ----

/// The fields of the search form.
pub struct FilterForm {
    pub status: String,
    pub assignee: String,
    pub account: String,
    pub project: String,
    pub include_deleted: bool,
    pub limit: String,
}

/// The fields of the form that updates a ticket.
pub struct UpdateForm {
    pub title: String,
    pub project: String,
    pub priority: String,
    pub status: String,
}

/// The fields of the form that creates a ticket.
pub struct TicketForm {
    pub title: String,
    pub project: String,
    pub account_uuid: String,
    pub priority: String,
}

/// The fields of the form that creates a user.
pub struct UserForm {
    pub username: String,
    pub password: String,
    pub email: String,
    pub display_name: String,
    pub role: String,
}

/// The page: who is signed in, what was found, what the user is told, and the forms.
pub struct TicketList {
    pub token: Option<String>,
    pub tickets: Vec<Ticket>,
    pub message: String,
    pub error: String,
    pub filter: FilterForm,
    pub ticket: Option<Ticket>,
    pub lookup_id: String,
    pub update: UpdateForm,
    pub new_ticket: TicketForm,
    pub new_user: UserForm,
}

/// What a click asks of the gateway, with the token of the one who asks.
pub enum Action {
    FetchTicket { token: String, ticket_id: u64 },
    ListTickets { token: String, filter: ListTicketsFilter },
    CreateTicket { token: String, payload: CreateTicketRequest },
    UpdateTicket { token: String, ticket_id: u64, payload: UpdateTicketRequest },
    CreateUser { token: String, payload: CreateUserRequest },
}

// ---- What is refused before the gateway is asked ----

/// What one is told who is not signed in.
pub open spec fn missing_token() -> Seq<char> {
    "Missing auth token. Please sign in again."@
}

/// The number that a field writes.
pub open spec fn number_in(field: Seq<char>) -> Option<int> {
    parse_signed(field, i32::MIN as int, i32::MAX as int)
}

/// A field that may stay blank holds something that is no number.
pub open spec fn unreadable(field: Seq<char>) -> bool {
    !is_blank(field) && number_in(field) is None
}

/// The number that a field that may stay blank asks for.
pub open spec fn asked(field: Seq<char>) -> Option<i32> {
    if is_blank(field) {
        None
    } else {
        match number_in(field) {
            Some(n) => Some(n as i32),
            None => None,
        }
    }
}

/// Why a ticket is not looked up.
pub open spec fn lookup_refusal(p: TicketList) -> Option<Seq<char>> {
    if p.token is None {
        Some(missing_token())
    } else if parse_unsigned(trimmed(p.lookup_id@), u64::MAX as nat) is None {
        Some("Ticket number must be a valid integer."@)
    } else {
        None
    }
}

/// Why no search is made.
pub open spec fn search_refusal(p: TicketList) -> Option<Seq<char>> {
    if p.token is None {
        Some(missing_token())
    } else {
        None
    }
}

/// Why no ticket is created.
pub open spec fn create_refusal(p: TicketList) -> Option<Seq<char>> {
    if p.token is None {
        Some(missing_token())
    } else if number_in(p.new_ticket.priority@) is None {
        Some("Priority must be a valid integer enum value."@)
    } else {
        None
    }
}

/// What one is told who asks for a status that the policy does not allow.
pub open spec fn illegal_text(from: i32, to: i32) -> Seq<char> {
    "Illegal transition: "@ + label_of_status(from as int) + " \u{2192} "@ + label_of_status(
        to as int,
    ) + " is not allowed."@
}

/// Why the loaded ticket is not updated. A status that the policy does not allow is refused here.
pub open spec fn update_refusal(p: TicketList) -> Option<Seq<char>> {
    if p.token is None {
        Some(missing_token())
    } else if p.ticket is None {
        Some("Load a ticket before updating."@)
    } else if unreadable(p.update.priority@) {
        Some("Update priority must be a valid integer enum value."@)
    } else if unreadable(p.update.status@) {
        Some("Update status must be a valid integer enum value."@)
    } else {
        match asked(p.update.status@) {
            Some(to) => if may_follow(p.ticket->0.status, to) {
                None
            } else {
                Some(illegal_text(p.ticket->0.status, to))
            },
            None => None,
        }
    }
}

/// Why no user is created.
pub open spec fn user_refusal(p: TicketList) -> Option<Seq<char>> {
    if p.token is None {
        Some(missing_token())
    } else if number_in(p.new_user.role@) is None {
        Some("Role must be a valid integer enum value."@)
    } else {
        None
    }
}

/// The page differs only in what the user is told.
pub open spec fn only_told(before: TicketList, after: TicketList) -> bool {
    after == (TicketList { message: after.message, error: after.error, ..before })
}

/// The user was told why nothing is asked, and any message stays.
pub open spec fn was_refused(before: TicketList, after: TicketList, why: Seq<char>) -> bool {
    only_told(before, after) && after.message == before.message && after.error@ == why
}

/// The gateway is asked, and what the user was told is wiped.
pub open spec fn was_wiped(before: TicketList, after: TicketList) -> bool {
    only_told(before, after) && after.message@.len() == 0 && after.error@.len() == 0
}

// ---- What is asked ----

/// The status that a search asks for: any, or the one with the number that was chosen.
pub open spec fn searched_status(chosen: Seq<char>) -> Option<i32> {
    if chosen == "any"@ {
        None
    } else {
        match number_in(chosen) {
            Some(n) => Some(n as i32),
            None => None,
        }
    }
}

/// The limit that a search asks for.
pub open spec fn searched_limit(typed: Seq<char>) -> Option<u32> {
    match parse_unsigned(trimmed(typed), u32::MAX as nat) {
        Some(n) => Some(n as u32),
        None => None,
    }
}

/// The filter that the search form asks for.
pub open spec fn is_filter_of(f: ListTicketsFilter, form: FilterForm) -> bool {
    &&& f.status == searched_status(form.status@)
    &&& f.assignee@ == form.assignee@
    &&& f.account@ == form.account@
    &&& f.project@ == form.project@
    &&& f.include_deleted == form.include_deleted
    &&& f.limit == searched_limit(form.limit@)
}

/// The ticket that the form asks for.
pub open spec fn is_ticket_of(r: CreateTicketRequest, form: TicketForm) -> bool {
    &&& r.title@ == form.title@
    &&& r.project@ == form.project@
    &&& r.account_uuid@ == form.account_uuid@
    &&& r.symptom == 1
    &&& number_in(form.priority@) == Some(r.priority as int)
}

/// The text that a field asks for, which is nothing where the field is blank.
pub open spec fn is_text_of(t: Option<String>, field: Seq<char>) -> bool {
    match t {
        Some(text) => !is_blank(field) && text@ == field,
        None => is_blank(field),
    }
}

/// The update that the form asks for.
pub open spec fn is_update_of(r: UpdateTicketRequest, form: UpdateForm) -> bool {
    &&& is_text_of(r.title, form.title@)
    &&& is_text_of(r.project, form.project@)
    &&& r.priority == asked(form.priority@)
    &&& r.status == asked(form.status@)
    &&& r.next_action is None
}

/// The user that the form asks for.
pub open spec fn is_user_of(r: CreateUserRequest, form: UserForm) -> bool {
    &&& r.username@ == form.username@
    &&& r.password@ == form.password@
    &&& r.email@ == form.email@
    &&& r.display_name@ == form.display_name@
    &&& number_in(form.role@) == Some(r.role as int)
}

/// The update form shows a ticket.
pub open spec fn form_shows(form: UpdateForm, t: Ticket) -> bool {
    &&& form.title@ == t.title@
    &&& form.project@ == t.project@
    &&& form.priority@ == dec_int(t.priority as int)
    &&& form.status@ == dec_int(t.status as int)
}

fn read_field(field: &str) -> (out: Result<Option<i32>, ()>)
    ensures
        match out {
            Ok(n) => !unreadable(field@) && n == asked(field@),
            Err(_) => unreadable(field@),
        },
{
    if blank(field) {
        return Ok(None);
    }
    match read_i32(field) {
        Some(n) => Ok(Some(n)),
        None => Err(()),
    }
}

fn text_field(field: &String) -> (out: Option<String>)
    ensures
        is_text_of(out, field@),
{
    if blank(field.as_str()) {
        None
    } else {
        Some(field.clone())
    }
}

fn update_form(t: &Ticket) -> (out: UpdateForm)
    ensures
        form_shows(out, *t),
{
    UpdateForm {
        title: t.title.clone(),
        project: t.project.clone(),
        priority: decimal_signed(t.priority as i64),
        status: decimal_signed(t.status as i64),
    }
}

impl TicketList {
    /// The page as it is first shown to one with the given token.
    pub fn new(token: Option<String>) -> (out: Self)
        ensures
            out.token == token,
            out.tickets@.len() == 0,
            out.message@.len() == 0,
            out.error@.len() == 0,
            out.filter.status@ == "any"@,
            out.filter.assignee@.len() == 0,
            out.filter.account@.len() == 0,
            out.filter.project@.len() == 0,
            !out.filter.include_deleted,
            out.filter.limit@.len() == 0,
            out.ticket is None,
            out.lookup_id@.len() == 0,
            out.update.title@.len() == 0,
            out.update.project@.len() == 0,
            out.update.priority@.len() == 0,
            out.update.status@.len() == 0,
            out.new_ticket.title@.len() == 0,
            out.new_ticket.project@.len() == 0,
            out.new_ticket.account_uuid@.len() == 0,
            out.new_ticket.priority@ == "1"@,
            out.new_user.username@.len() == 0,
            out.new_user.password@.len() == 0,
            out.new_user.email@.len() == 0,
            out.new_user.display_name@.len() == 0,
            out.new_user.role@ == "2"@,
    {
        TicketList {
            token,
            tickets: Vec::new(),
            message: String::new(),
            error: String::new(),
            filter: FilterForm {
                status: "any".to_owned(),
                assignee: String::new(),
                account: String::new(),
                project: String::new(),
                include_deleted: false,
                limit: String::new(),
            },
            ticket: None,
            lookup_id: String::new(),
            update: UpdateForm {
                title: String::new(),
                project: String::new(),
                priority: String::new(),
                status: String::new(),
            },
            new_ticket: TicketForm {
                title: String::new(),
                project: String::new(),
                account_uuid: String::new(),
                priority: "1".to_owned(),
            },
            new_user: UserForm {
                username: String::new(),
                password: String::new(),
                email: String::new(),
                display_name: String::new(),
                role: "2".to_owned(),
            },
        }
    }

    fn wipe(&mut self)
        ensures
            was_wiped(*old(self), *final(self)),
    {
        self.error = String::new();
        self.message = String::new();
    }

    fn refuse(&mut self, why: &str)
        ensures
            was_refused(*old(self), *final(self), why@),
    {
        self.error = why.to_owned();
    }

    /// Looks up the ticket whose number was typed.
    pub fn on_lookup(&mut self) -> (out: Option<Action>)
        ensures
            match lookup_refusal(*old(self)) {
                Some(why) => out is None && was_refused(*old(self), *final(self), why),
                None => out matches Some(Action::FetchTicket { token, ticket_id }) && was_wiped(
                    *old(self),
                    *final(self),
                ) && token@ == (old(self).token->0)@ && parse_unsigned(
                    trimmed(old(self).lookup_id@),
                    u64::MAX as nat,
                ) == Some(ticket_id as nat),
            },
    {
        let token: String = match &self.token {
            Some(token) => token.clone(),
            None => {
                self.refuse("Missing auth token. Please sign in again.");
                return None;
            },
        };
        match read_unsigned(trim(self.lookup_id.as_str()), u64::MAX) {
            Some(ticket_id) => {
                self.wipe();
                Some(Action::FetchTicket { token, ticket_id })
            },
            None => {
                self.refuse("Ticket number must be a valid integer.");
                None
            },
        }
    }

    /// Shows a ticket in the update form.
    pub fn load_into_form(&mut self, t: Ticket)
        ensures
            *final(self) == (TicketList {
                ticket: Some(t),
                update: final(self).update,
                ..*old(self)
            }),
            form_shows(final(self).update, t),
    {
        self.update = update_form(&t);
        self.ticket = Some(t);
    }

    /// The answer to a lookup.
    pub fn ticket_found(&mut self, reply: Result<Ticket, ApiError>)
        ensures
            match reply {
                Ok(t) => *final(self) == (TicketList {
                    ticket: Some(t),
                    update: final(self).update,
                    ..*old(self)
                }) && form_shows(final(self).update, t),
                Err(e) => was_refused(*old(self), *final(self), error_text(e)),
            },
    {
        match reply {
            Ok(t) => self.load_into_form(t),
            Err(e) => {
                self.error = e.text();
            },
        }
    }

    /// Searches for tickets.
    pub fn on_search(&mut self) -> (out: Option<Action>)
        ensures
            match search_refusal(*old(self)) {
                Some(why) => out is None && was_refused(*old(self), *final(self), why),
                None => out matches Some(Action::ListTickets { token, filter }) && was_wiped(
                    *old(self),
                    *final(self),
                ) && token@ == (old(self).token->0)@ && is_filter_of(filter, old(self).filter),
            },
    {
        let token: String = match &self.token {
            Some(token) => token.clone(),
            None => {
                self.refuse("Missing auth token. Please sign in again.");
                return None;
            },
        };
        let status: Option<i32> = if same(self.filter.status.as_str(), "any") {
            None
        } else {
            read_i32(self.filter.status.as_str())
        };
        let limit: Option<u32> = match read_unsigned(
            trim(self.filter.limit.as_str()),
            0xffff_ffff,
        ) {
            Some(n) => Some(n as u32),
            None => None,
        };
        let filter = ListTicketsFilter {
            status,
            assignee: self.filter.assignee.clone(),
            account: self.filter.account.clone(),
            project: self.filter.project.clone(),
            include_deleted: self.filter.include_deleted,
            limit,
        };
        self.wipe();
        Some(Action::ListTickets { token, filter })
    }

    /// The answer to a search.
    pub fn tickets_listed(&mut self, reply: Result<Vec<Ticket>, ApiError>)
        ensures
            match reply {
                Ok(list) => *final(self) == (TicketList {
                    tickets: list,
                    message: final(self).message,
                    ..*old(self)
                }) && final(self).message@ == "Found "@ + dec(list@.len()) + " ticket(s)."@,
                Err(e) => was_refused(*old(self), *final(self), error_text(e)),
            },
    {
        match reply {
            Ok(list) => {
                let mut text: String = concat2("Found ", decimal(list.len() as u64).as_str());
                text.append(" ticket(s).");
                self.message = text;
                self.tickets = list;
            },
            Err(e) => {
                self.error = e.text();
            },
        }
    }

    /// Creates the ticket that the form describes.
    pub fn on_create_ticket(&mut self) -> (out: Option<Action>)
        ensures
            match create_refusal(*old(self)) {
                Some(why) => out is None && was_refused(*old(self), *final(self), why),
                None => out matches Some(Action::CreateTicket { token, payload }) && was_wiped(
                    *old(self),
                    *final(self),
                ) && token@ == (old(self).token->0)@ && is_ticket_of(payload, old(self).new_ticket),
            },
    {
        let token: String = match &self.token {
            Some(token) => token.clone(),
            None => {
                self.refuse("Missing auth token. Please sign in again.");
                return None;
            },
        };
        let priority: i32 = match read_i32(self.new_ticket.priority.as_str()) {
            Some(priority) => priority,
            None => {
                self.refuse("Priority must be a valid integer enum value.");
                return None;
            },
        };
        let payload = CreateTicketRequest {
            title: self.new_ticket.title.clone(),
            project: self.new_ticket.project.clone(),
            account_uuid: self.new_ticket.account_uuid.clone(),
            symptom: 1,
            priority,
        };
        self.wipe();
        Some(Action::CreateTicket { token, payload })
    }

    /// The answer to the creation of a ticket; the ticket is loaded.
    pub fn ticket_created(&mut self, reply: Result<Ticket, ApiError>)
        ensures
            match reply {
                Ok(t) => *final(self) == (TicketList {
                    ticket: Some(t),
                    update: final(self).update,
                    message: final(self).message,
                    ..*old(self)
                }) && form_shows(final(self).update, t) && final(self).message@ == "Ticket #"@
                    + dec(t.ticket_id as nat) + " created."@,
                Err(e) => was_refused(*old(self), *final(self), error_text(e)),
            },
    {
        match reply {
            Ok(t) => {
                let mut text: String = concat2("Ticket #", decimal(t.ticket_id).as_str());
                text.append(" created.");
                self.message = text;
                self.load_into_form(t);
            },
            Err(e) => {
                self.error = e.text();
            },
        }
    }

    /// Updates the loaded ticket as the form says. A status that the policy does not allow never
    /// reaches the gateway.
    pub fn on_update_ticket(&mut self) -> (out: Option<Action>)
        ensures
            match update_refusal(*old(self)) {
                Some(why) => out is None && was_refused(*old(self), *final(self), why),
                None => out matches Some(Action::UpdateTicket { token, ticket_id, payload }) && was_wiped(
                    *old(self),
                    *final(self),
                ) && token@ == (old(self).token->0)@ && ticket_id == (
                old(self).ticket->0).ticket_id && is_update_of(payload, old(self).update),
            },
    {
        let token: String = match &self.token {
            Some(token) => token.clone(),
            None => {
                self.refuse("Missing auth token. Please sign in again.");
                return None;
            },
        };
        let (ticket_id, from): (u64, i32) = match &self.ticket {
            Some(current) => (current.ticket_id, current.status),
            None => {
                self.refuse("Load a ticket before updating.");
                return None;
            },
        };
        let priority: Option<i32> = match read_field(self.update.priority.as_str()) {
            Ok(priority) => priority,
            Err(_) => {
                self.refuse("Update priority must be a valid integer enum value.");
                return None;
            },
        };
        let status: Option<i32> = match read_field(self.update.status.as_str()) {
            Ok(status) => status,
            Err(_) => {
                self.refuse("Update status must be a valid integer enum value.");
                return None;
            },
        };
        if let Some(to) = status {
            if !can_transition(from, to) {
                let mut text: String = concat2(
                    "Illegal transition: ",
                    status_label(from).as_str(),
                );
                text.append(" \u{2192} ");
                text.append(status_label(to).as_str());
                text.append(" is not allowed.");
                self.refuse(text.as_str());
                return None;
            }
        }
        let payload = UpdateTicketRequest {
            title: text_field(&self.update.title),
            project: text_field(&self.update.project),
            priority,
            status,
            next_action: None,
        };
        self.wipe();
        Some(Action::UpdateTicket { token, ticket_id, payload })
    }

    /// The answer to an update; the form stays as it was typed.
    pub fn ticket_updated(&mut self, reply: Result<Ticket, ApiError>)
        ensures
            match reply {
                Ok(t) => *final(self) == (TicketList {
                    ticket: Some(t),
                    message: final(self).message,
                    ..*old(self)
                }) && final(self).message@ == "Ticket #"@ + dec(t.ticket_id as nat)
                    + " updated."@,
                Err(e) => was_refused(*old(self), *final(self), error_text(e)),
            },
    {
        match reply {
            Ok(t) => {
                let mut text: String = concat2("Ticket #", decimal(t.ticket_id).as_str());
                text.append(" updated.");
                self.message = text;
                self.ticket = Some(t);
            },
            Err(e) => {
                self.error = e.text();
            },
        }
    }

    /// Creates the user that the form describes.
    pub fn on_create_user(&mut self) -> (out: Option<Action>)
        ensures
            match user_refusal(*old(self)) {
                Some(why) => out is None && was_refused(*old(self), *final(self), why),
                None => out matches Some(Action::CreateUser { token, payload }) && was_wiped(
                    *old(self),
                    *final(self),
                ) && token@ == (old(self).token->0)@ && is_user_of(payload, old(self).new_user),
            },
    {
        let token: String = match &self.token {
            Some(token) => token.clone(),
            None => {
                self.refuse("Missing auth token. Please sign in again.");
                return None;
            },
        };
        let role: i32 = match read_i32(self.new_user.role.as_str()) {
            Some(role) => role,
            None => {
                self.refuse("Role must be a valid integer enum value.");
                return None;
            },
        };
        let payload = CreateUserRequest {
            username: self.new_user.username.clone(),
            password: self.new_user.password.clone(),
            email: self.new_user.email.clone(),
            display_name: self.new_user.display_name.clone(),
            role,
        };
        self.wipe();
        Some(Action::CreateUser { token, payload })
    }

    /// The answer to the creation of a user.
    pub fn user_created(&mut self, reply: Result<(), ApiError>)
        ensures
            only_told(*old(self), *final(self)),
            match reply {
                Ok(_) => final(self).error == old(self).error && final(self).message@
                    == "User created successfully."@,
                Err(e) => was_refused(*old(self), *final(self), error_text(e)),
            },
    {
        match reply {
            Ok(_) => {
                self.message = "User created successfully.".to_owned();
            },
            Err(e) => {
                self.error = e.text();
            },
        }
    }

    // ---- What the page shows ----

    /// The statuses that the update form offers: that of the loaded ticket and those that may
    /// follow it, or all without a ticket.
    pub fn update_status_options(&self) -> (out: Vec<i32>)
        ensures
            match self.ticket {
                Some(ticket) => out@ == offered(ticket.status),
                None => out@ == all_statuses(),
            },
    {
        match &self.ticket {
            Some(ticket) => {
                let mut out: Vec<i32> = vec![ticket.status];
                let mut next: Vec<i32> = allowed_transitions(ticket.status);
                out.append(&mut next);
                assert(out@ =~= offered(ticket.status));
                out
            },
            None => {
                let all: Vec<(i32, &'static str)> = statuses();
                let mut out: Vec<i32> = Vec::new();
                let mut i: usize = 0;
                while i < all.len()
                    invariant
                        i <= all@.len(),
                        out@.len() == i,
                        forall|j: int| 0 <= j < i ==> out@[j] == (#[trigger] all@[j]).0,
                    decreases all@.len() - i,
                {
                    out.push(all[i].0);
                    i = i + 1;
                }
                assert(out@ =~= numbers_of(all@));
                assert(out@ =~= all_statuses());
                out
            },
        }
    }

    /// How many tickets are in view.
    pub fn total(&self) -> (out: usize)
        ensures
            out == self.tickets@.len(),
    {
        self.tickets.len()
    }

    /// How many tickets are in each status, in the order of the statuses.
    pub fn status_counts(&self) -> (out: Vec<(i32, usize)>)
        ensures
            is_tally(statuses_of(self.tickets@), out@),
    {
        let mut values: Vec<i32> = Vec::new();
        let mut i: usize = 0;
        while i < self.tickets.len()
            invariant
                i <= self.tickets@.len(),
                values@.len() == i,
                forall|j: int| 0 <= j < i ==> values@[j] == (#[trigger] self.tickets@[j]).status,
            decreases self.tickets@.len() - i,
        {
            values.push(self.tickets[i].status);
            i = i + 1;
        }
        assert(values@ =~= statuses_of(self.tickets@));
        tally(values.as_slice())
    }

    /// How many tickets have each priority, in the order of the priorities.
    pub fn priority_counts(&self) -> (out: Vec<(i32, usize)>)
        ensures
            is_tally(priorities_of(self.tickets@), out@),
    {
        let mut values: Vec<i32> = Vec::new();
        let mut i: usize = 0;
        while i < self.tickets.len()
            invariant
                i <= self.tickets@.len(),
                values@.len() == i,
                forall|j: int| 0 <= j < i ==> values@[j] == (#[trigger] self.tickets@[j]).priority,
            decreases self.tickets@.len() - i,
        {
            values.push(self.tickets[i].priority);
            i = i + 1;
        }
        assert(values@ =~= priorities_of(self.tickets@));
        tally(values.as_slice())
    }
}

/// All statuses, in the order of the workflow.
pub open spec fn all_statuses() -> Seq<i32> {
    seq![
        OPEN,
        AWAITING_CUSTOMER,
        AWAITING_ISP,
        AWAITING_PARTNER,
        SUPPORT_HOLD,
        HANDED_OFF,
        APPOINTMENT_SCHEDULED,
        EBOND_RECEIVED,
        VOICEMAIL_RECEIVED,
        AUTO_CLOSE,
        CLOSED,
    ]
}

/// The statuses that are offered for a ticket in a status.
pub open spec fn offered(status: i32) -> Seq<i32> {
    seq![status] + successors(status as int)
}

/// The statuses of a list of tickets.
pub open spec fn statuses_of(tickets: Seq<Ticket>) -> Seq<i32> {
    Seq::new(tickets.len(), |i: int| tickets[i].status)
}

/// The priorities of a list of tickets.
pub open spec fn priorities_of(tickets: Seq<Ticket>) -> Seq<i32> {
    Seq::new(tickets.len(), |i: int| tickets[i].priority)
}

/// The line above the update form, and whether to warn that the ticket has ended.
pub fn editing_line(ticket: &Ticket) -> (out: (String, bool))
    ensures
        out.0@ == "Editing #"@ + dec(ticket.ticket_id as nat) + " \u{2014} current status: "@
            + label_of_status(ticket.status as int),
        out.1 == is_sink(ticket.status as int),
{
    let mut text: String = concat2("Editing #", decimal(ticket.ticket_id).as_str());
    text.append(" \u{2014} current status: ");
    text.append(status_label(ticket.status).as_str());
    (text, is_terminal(ticket.status))
}

/// What the column of next actions shows.
pub fn action_cell(action: &Option<NextAction>) -> (out: String)
    ensures
        out@ == (match *action {
            Some(a) => action_summary(a),
            None => "\u{2014}"@,
        }),
{
    match action {
        Some(a) => a.summary(),
        None => "\u{2014}".to_owned(),
    }
}

/// Every status that the form offers for a loaded ticket is one that an update is not refused for.
pub proof fn offered_statuses_are_allowed(page: TicketList, i: int)
    requires
        page.token is Some,
        page.ticket is Some,
        !unreadable(page.update.priority@),
        0 <= i < offered(page.ticket->0.status).len(),
        page.update.status@ == dec_int(offered(page.ticket->0.status)[i] as int),
    ensures
        update_refusal(page) is None,
{
    let status = page.ticket->0.status;
    let to = offered(status)[i];
    crate::text::signed_round_trip(to as int, i32::MIN as int, i32::MAX as int);
    if i > 0 {
        assert(to == successors(status as int)[i - 1]);
    }
}

/// The form that shows a ticket asks for no change that the policy refuses.
pub proof fn loaded_ticket_can_be_saved(page: TicketList)
    requires
        page.token is Some,
        page.ticket is Some,
        form_shows(page.update, page.ticket->0),
    ensures
        update_refusal(page) is None,
{
    let t = page.ticket->0;
    crate::text::signed_round_trip(t.priority as int, i32::MIN as int, i32::MAX as int);
    crate::text::signed_round_trip(t.status as int, i32::MIN as int, i32::MAX as int);
}

} // verus!
