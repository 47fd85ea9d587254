//! The console: the ticket policy it shows, its requests, its theme and its page.

use infovulcan::console::api::{
    bearer, login_request, server_error, ticket_url, ApiError, ListTicketsFilter, NextAction,
    Ticket,
};
use infovulcan::console::theme::{button_label, current_theme, toggle, DARK, LIGHT};
use infovulcan::console::ticket_list::{action_cell, editing_line, Action, TicketList};
use infovulcan::policy::{
    allowed_transitions, can_transition, is_terminal, priorities, priority_label, roles,
    status_label, statuses, tally, APPOINTMENT_SCHEDULED, AUTO_CLOSE, AWAITING_CUSTOMER, CLOSED,
    EBOND_RECEIVED, OPEN,
};

// ---- Policy ----

#[test]
fn open_can_reach_working_and_terminal_states() {
    assert!(can_transition(OPEN, AWAITING_CUSTOMER));
    assert!(can_transition(OPEN, CLOSED));
    assert!(can_transition(OPEN, AUTO_CLOSE));
}

#[test]
fn terminal_states_are_sinks() {
    for terminal in [CLOSED, AUTO_CLOSE] {
        assert!(is_terminal(terminal));
        assert!(allowed_transitions(terminal).is_empty());
        // self-transition always allowed
        assert!(can_transition(terminal, terminal));
        assert!(!can_transition(terminal, OPEN));
    }
}

#[test]
fn illegal_transition_is_rejected() {
    assert!(!can_transition(EBOND_RECEIVED, APPOINTMENT_SCHEDULED));
    assert!(can_transition(EBOND_RECEIVED, OPEN));
}

#[test]
fn tally_counts_and_sorts() {
    let counts = tally(&[2, 0, 2, 1, 2, 0]);
    assert_eq!(counts, vec![(0, 2), (1, 1), (2, 3)]);
    assert!(tally(&[]).is_empty());
}

#[test]
fn labels_have_fallbacks() {
    assert_eq!(status_label(OPEN), "Open");
    assert_eq!(status_label(9999), "Status 9999");
    assert_eq!(priority_label(1), "Hard Down");
    assert_eq!(priority_label(9999), "Priority 9999");
}

#[test]
fn labels_of_negative_numbers_keep_the_sign() {
    assert_eq!(status_label(-7), "Status -7");
    assert_eq!(priority_label(i32::MIN), "Priority -2147483648");
}

#[test]
fn every_status_can_end_until_it_has() {
    for (status, label) in statuses() {
        assert_eq!(status_label(status), label);
        if !is_terminal(status) {
            assert!(can_transition(status, CLOSED));
        }
        for next in allowed_transitions(status) {
            assert!(can_transition(status, next));
            assert!(statuses().iter().any(|(known, _)| *known == next));
        }
    }
    for (priority, label) in priorities() {
        assert_eq!(priority_label(priority), label);
    }
    assert!(!roles().is_empty());
}

// ---- Requests ----

#[test]
fn empty_filter_produces_no_query() {
    assert_eq!(ListTicketsFilter::default().to_query_string(), "");
}

#[test]
fn filter_builds_query_in_field_order() {
    let filter = ListTicketsFilter {
        status: Some(2),
        assignee: "  alice  ".to_string(),
        account: String::new(),
        project: "acme".to_string(),
        include_deleted: true,
        limit: Some(50),
    };
    assert_eq!(
        filter.to_query_string(),
        "status=2&assignee=alice&project=acme&include_deleted=true&limit=50"
    );
    assert_eq!(
        filter.url(),
        "/api/tickets?status=2&assignee=alice&project=acme&include_deleted=true&limit=50"
    );
}

#[test]
fn blank_strings_are_skipped() {
    let filter = ListTicketsFilter {
        assignee: "   ".to_string(),
        ..Default::default()
    };
    assert_eq!(filter.to_query_string(), "");
    assert_eq!(filter.url(), "/api/tickets");
}

#[test]
fn next_action_summaries_render() {
    assert_eq!(
        NextAction::FollowUp { at: 5 }.summary(),
        "Follow up @ 5".to_string()
    );
    assert_eq!(
        NextAction::Appointment { at: 9 }.summary(),
        "Appointment @ 9".to_string()
    );
    assert_eq!(
        NextAction::AutoClose {
            schedule: "hours_24".to_string()
        }
        .summary(),
        "Auto-close (hours_24)".to_string()
    );
}

#[test]
fn requests_are_addressed_and_signed() {
    assert_eq!(ticket_url(42), "/api/tickets/42");
    assert_eq!(bearer("abc"), "Bearer abc");
    let login = login_request("ann".to_string(), "pw".to_string());
    assert_eq!(login.username, "ann");
    assert_eq!(login.password, "pw");
    assert_eq!(login.mfa_token, None);
}

#[test]
fn failures_are_put_into_words() {
    assert_eq!(
        ApiError::Transport("timeout".to_string()).text(),
        "network error: timeout"
    );
    assert_eq!(
        server_error(Some("no".to_string()), "Login failed").text(),
        "no"
    );
    assert_eq!(server_error(None, "Login failed").text(), "Login failed");
}

// ---- Theme ----

#[test]
fn the_theme_is_dark_unless_light_was_kept() {
    assert_eq!(current_theme(None), DARK);
    assert_eq!(current_theme(Some("light".to_string())), LIGHT);
    assert_eq!(current_theme(Some("dark".to_string())), DARK);
    assert_eq!(current_theme(Some("purple".to_string())), DARK);
}

#[test]
fn toggling_the_theme_twice_brings_it_back() {
    let once = toggle(Some("dark".to_string()));
    assert_eq!(once, LIGHT);
    assert_eq!(toggle(Some(once)), DARK);
    assert_eq!(toggle(None), LIGHT);
    assert_eq!(button_label(DARK), "☀ Light");
    assert_eq!(button_label(LIGHT), "🌙 Dark");
}

// ---- The page ----

fn ticket(status: i32) -> Ticket {
    Ticket {
        ticket_id: 7,
        title: "Line down".to_string(),
        project: "acme".to_string(),
        priority: 2,
        status,
        next_action: None,
    }
}

fn page() -> TicketList {
    TicketList::new(Some("token".to_string()))
}

#[test]
fn nothing_is_asked_without_a_token() {
    let told = "Missing auth token. Please sign in again.";
    let mut page = TicketList::new(None);
    assert!(page.on_lookup().is_none());
    assert_eq!(page.error, told);
    page.error.clear();
    assert!(page.on_search().is_none());
    assert_eq!(page.error, told);
    page.error.clear();
    assert!(page.on_create_ticket().is_none());
    assert_eq!(page.error, told);
    page.error.clear();
    assert!(page.on_update_ticket().is_none());
    assert_eq!(page.error, told);
    page.error.clear();
    assert!(page.on_create_user().is_none());
    assert_eq!(page.error, told);
}

#[test]
fn a_ticket_is_looked_up_by_its_number() {
    let mut page = page();
    page.lookup_id = " 42 ".to_string();
    page.message = "old".to_string();
    assert!(matches!(
        page.on_lookup(),
        Some(Action::FetchTicket { token, ticket_id: 42 }) if token == "token"
    ));
    assert_eq!(page.message, "");
    page.ticket_found(Ok(ticket(OPEN)));
    assert_eq!(page.update.title, "Line down");
    assert_eq!(page.update.project, "acme");
    assert_eq!(page.update.priority, "2");
    assert_eq!(page.update.status, "0");
    assert_eq!(page.ticket, Some(ticket(OPEN)));
    page.lookup_id = "x".to_string();
    page.message = "kept".to_string();
    assert!(page.on_lookup().is_none());
    assert_eq!(page.error, "Ticket number must be a valid integer.");
    assert_eq!(page.message, "kept");
    page.ticket_found(Err(ApiError::Server("gone".to_string())));
    assert_eq!(page.error, "gone");
}

#[test]
fn a_search_asks_for_what_the_form_says() {
    let mut page = page();
    page.filter.project = "acme".to_string();
    page.filter.limit = " 5 ".to_string();
    match page.on_search() {
        Some(Action::ListTickets { filter, .. }) => {
            assert_eq!(filter.status, None);
            assert_eq!(filter.limit, Some(5));
            assert_eq!(filter.to_query_string(), "project=acme&limit=5");
        }
        _ => panic!("a search was expected"),
    }
    page.filter.status = "255".to_string();
    page.filter.limit = "many".to_string();
    match page.on_search() {
        Some(Action::ListTickets { filter, .. }) => {
            assert_eq!(filter.status, Some(255));
            assert_eq!(filter.limit, None);
        }
        _ => panic!("a search was expected"),
    }
    page.tickets_listed(Ok(vec![ticket(OPEN), ticket(CLOSED), ticket(OPEN)]));
    assert_eq!(page.message, "Found 3 ticket(s).");
    assert_eq!(page.total(), 3);
    assert_eq!(page.status_counts(), vec![(OPEN, 2), (CLOSED, 1)]);
    assert_eq!(page.priority_counts(), vec![(2, 3)]);
    page.tickets_listed(Err(ApiError::Transport("down".to_string())));
    assert_eq!(page.error, "network error: down");
    assert_eq!(page.total(), 3);
}

#[test]
fn a_ticket_is_created_from_the_form() {
    let mut page = page();
    page.new_ticket.title = "New".to_string();
    match page.on_create_ticket() {
        Some(Action::CreateTicket { payload, .. }) => {
            assert_eq!(payload.title, "New");
            assert_eq!(payload.symptom, 1);
            assert_eq!(payload.priority, 1);
        }
        _ => panic!("a request was expected"),
    }
    page.ticket_created(Ok(ticket(OPEN)));
    assert_eq!(page.message, "Ticket #7 created.");
    assert_eq!(page.update.status, "0");
    page.new_ticket.priority = " 1".to_string();
    assert!(page.on_create_ticket().is_none());
    assert_eq!(page.error, "Priority must be a valid integer enum value.");
}

#[test]
fn only_allowed_updates_are_asked_for() {
    let mut page = page();
    assert!(page.on_update_ticket().is_none());
    assert_eq!(page.error, "Load a ticket before updating.");
    page.load_into_form(ticket(CLOSED));
    page.update.priority = "high".to_string();
    assert!(page.on_update_ticket().is_none());
    assert_eq!(
        page.error,
        "Update priority must be a valid integer enum value."
    );
    page.update.priority = "  ".to_string();
    page.update.status = "open".to_string();
    assert!(page.on_update_ticket().is_none());
    assert_eq!(
        page.error,
        "Update status must be a valid integer enum value."
    );
    page.update.status = "0".to_string();
    assert!(page.on_update_ticket().is_none());
    assert_eq!(
        page.error,
        format!(
            "Illegal transition: {} → {} is not allowed.",
            status_label(CLOSED),
            status_label(OPEN)
        )
    );
    page.update.status = "255".to_string();
    page.update.title = " ".to_string();
    match page.on_update_ticket() {
        Some(Action::UpdateTicket {
            ticket_id, payload, ..
        }) => {
            assert_eq!(ticket_id, 7);
            assert_eq!(payload.title, None);
            assert_eq!(payload.project.as_deref(), Some("acme"));
            assert_eq!(payload.priority, None);
            assert_eq!(payload.status, Some(CLOSED));
        }
        _ => panic!("a request was expected"),
    }
    page.ticket_updated(Ok(ticket(CLOSED)));
    assert_eq!(page.message, "Ticket #7 updated.");
}

#[test]
fn offered_statuses_can_be_saved() {
    let mut page = page();
    assert_eq!(page.update_status_options().len(), statuses().len());
    for (status, _) in statuses() {
        page.load_into_form(ticket(status));
        assert!(page.on_update_ticket().is_some());
        let options = page.update_status_options();
        assert_eq!(options[0], status);
        for next in options {
            page.update.status = next.to_string();
            assert!(page.on_update_ticket().is_some());
        }
    }
}

#[test]
fn a_user_is_created_from_the_form() {
    let mut page = page();
    page.new_user.username = "ann".to_string();
    match page.on_create_user() {
        Some(Action::CreateUser { payload, .. }) => {
            assert_eq!(payload.username, "ann");
            assert_eq!(payload.role, 2);
        }
        _ => panic!("a request was expected"),
    }
    page.user_created(Ok(()));
    assert_eq!(page.message, "User created successfully.");
    page.new_user.role = "".to_string();
    assert!(page.on_create_user().is_none());
    assert_eq!(page.error, "Role must be a valid integer enum value.");
}

#[test]
fn the_page_shows_what_is_edited() {
    let (line, ended) = editing_line(&ticket(CLOSED));
    assert_eq!(line, "Editing #7 — current status: Closed");
    assert!(ended);
    assert!(!editing_line(&ticket(OPEN)).1);
    assert_eq!(action_cell(&None), "—");
    assert_eq!(
        action_cell(&Some(NextAction::FollowUp { at: -1 })),
        "Follow up @ -1"
    );
}
