//! The gateway: errors, requests and answers of the REST interface, and settings.

use infovulcan::admin::{ProtoUser, UserPage};
use infovulcan::custodian::ticket::{
    NextActionKind, NextActionMessage, TicketMessage, SCHEDULE_END_OF_DAY, SCHEDULE_HOURS_24,
    SCHEDULE_HOURS_48, SCHEDULE_HOURS_72,
};
use infovulcan::gateway::error::ApiError;
use infovulcan::gateway::routes::{
    create_ticket_call, create_ticket_reply, create_user_call, create_user_reply,
    delete_user_reply, get_ticket_reply, health, list_tickets_call, list_tickets_reply,
    list_users_call, list_users_reply, login_call, login_reply, map_next_action,
    to_proto_next_action, update_ticket_call, update_ticket_reply, update_user_call, user_reply,
    ApiNextAction, ApiNextActionInput, ApiTicket, AuthenticateReply, CreateTicketRequest,
    CreateUserRequest, ListTicketsParams, ListUsersParams, LoginRequest, UpdateTicketRequest,
    UpdateUserRequest,
};
use infovulcan::gateway::settings::{
    cors_origins, env_or_default, jwt_secret_from_env, listen_address, rate_burst,
    rate_per_second, reload_secs, resolve_backend_addrs,
};
use infovulcan::status::{Code, Status};
use infovulcan::time::Timestamp;

// ---- Errors ----

#[test]
fn constructors_set_status_and_code() {
    assert_eq!(ApiError::unauthorized("nope").status, 401);
    assert_eq!(ApiError::unauthorized("nope").code, "unauthenticated");
    assert_eq!(ApiError::internal("boom").status, 500);
    assert_eq!(ApiError::internal("boom").code, "internal");
    assert_eq!(ApiError::not_found("gone").status, 404);
    assert_eq!(ApiError::not_found("gone").code, "not_found");
}

#[test]
fn from_tonic_status_maps_every_code() {
    let cases = [
        (Code::Unauthenticated, 401, "unauthenticated"),
        (Code::PermissionDenied, 403, "permission_denied"),
        (Code::InvalidArgument, 400, "invalid_argument"),
        (Code::NotFound, 404, "not_found"),
        (Code::Unavailable, 503, "unavailable"),
        // Any other code falls through to the internal mapping.
        (Code::Internal, 500, "internal"),
    ];
    for (code, http, expected_code) in cases {
        let err: ApiError = ApiError::from(Status::new(code, "msg"));
        assert_eq!(err.status, http);
        assert_eq!(err.code, expected_code);
        assert_eq!(err.message, "msg");
    }
}

#[test]
fn api_error_maps_grpc_codes_and_renders_envelope() {
    let err = ApiError::from(Status::new(Code::NotFound, "missing"));
    assert_eq!(err.status, 404);
    assert_eq!(err.code, "not_found");
    assert_eq!(err.message, "missing");
}

// ---- Logging in ----

fn login(mfa_token: Option<String>) -> LoginRequest {
    LoginRequest {
        username: "alice".to_string(),
        password: "pass".to_string(),
        mfa_token,
    }
}

#[test]
fn login_succeeds_when_auth_backend_returns_success() {
    let call = login_call(login(None));
    assert_eq!(call.username, "alice");
    assert_eq!(call.password, "pass");
    assert_eq!(call.mfa_token, "");
    let reply = login_reply(Ok(AuthenticateReply {
        success: true,
        session_token: "mock-token".to_string(),
        error: String::new(),
    }));
    assert_eq!(reply.unwrap().token, "mock-token");
}

#[test]
fn login_returns_unauthorized_when_credentials_denied() {
    let reply = login_reply(Ok(AuthenticateReply {
        success: false,
        session_token: String::new(),
        error: "bad creds".to_string(),
    }));
    let err = reply.unwrap_err();
    assert_eq!(err.status, 401);
    assert_eq!(err.message, "bad creds");
}

#[test]
fn login_maps_unauthenticated_grpc_error_to_401() {
    let reply = login_reply(Err(Status::new(Code::Unauthenticated, "mock error")));
    assert_eq!(reply.unwrap_err().status, 401);
}

#[test]
fn login_maps_invalid_argument_grpc_error_to_400() {
    assert_eq!(login_call(login(Some(String::new()))).mfa_token, "");
    let reply = login_reply(Err(Status::new(Code::InvalidArgument, "mock error")));
    assert_eq!(reply.unwrap_err().status, 400);
}

#[test]
fn login_maps_other_grpc_error_to_500() {
    let reply = login_reply(Err(Status::new(Code::Internal, "mock error")));
    assert_eq!(reply.unwrap_err().status, 500);
}

#[test]
fn login_returns_service_error_when_backend_is_unreachable() {
    assert!(login_reply(Err(Status::new(Code::Unavailable, "down"))).is_err());
}

#[test]
fn a_second_factor_is_handed_on() {
    assert_eq!(login_call(login(Some("123".to_string()))).mfa_token, "123");
}

// ---- Users ----

fn alice() -> ProtoUser {
    ProtoUser {
        id: "id-1".to_string(),
        username: "alice".to_string(),
        email: "a@example.com".to_string(),
        display_name: "Alice".to_string(),
        role: 0,
        active: true,
        created_at: 123,
    }
}

#[test]
fn create_user_returns_created_on_backend_success() {
    let call = create_user_call(CreateUserRequest {
        username: "new-user".to_string(),
        password: "pass".to_string(),
        email: "u@example.com".to_string(),
        display_name: "User".to_string(),
        role: 0,
    });
    assert_eq!(call.username, "new-user");
    assert_eq!(call.email, "u@example.com");
    assert_eq!(create_user_reply(Ok(())).unwrap(), 201);
}

#[test]
fn create_user_returns_service_error_when_backend_is_unreachable() {
    assert!(create_user_reply(Err(Status::new(Code::Unavailable, "down"))).is_err());
}

#[test]
fn list_users_returns_users_from_backend() {
    let params = ListUsersParams {
        page: Some(0),
        page_size: Some(50),
    };
    assert_eq!(list_users_call(&params), (0, 50));
    let answer = list_users_reply(Ok(UserPage {
        users: vec![alice()],
        total_count: 1,
    }))
    .unwrap();
    assert_eq!(answer.total_count, 1);
    assert_eq!(answer.users[0].username, "alice");
    assert_eq!(answer.users[0].created_at, 123);
}

#[test]
fn get_user_returns_user_on_backend_success() {
    let user = user_reply(Ok(Some(alice()))).unwrap();
    assert_eq!(user.id, "id-1");
    assert_eq!(user.display_name, "Alice");
}

#[test]
fn update_user_returns_user_on_backend_success() {
    let call = update_user_call(
        "id-1".to_string(),
        UpdateUserRequest {
            email: Some("new@example.com".to_string()),
            display_name: None,
            role: Some(1),
            active: Some(false),
            password: None,
        },
    );
    assert_eq!(call.id, "id-1");
    assert_eq!(call.email.as_deref(), Some("new@example.com"));
    assert_eq!(call.role, Some(1));
    assert_eq!(call.active, Some(false));
    assert!(user_reply(Ok(Some(alice()))).is_ok());
}

#[test]
fn delete_user_returns_no_content_on_backend_success() {
    assert_eq!(delete_user_reply(Ok(())).unwrap(), 204);
}

#[test]
fn user_management_handlers_error_when_backend_unreachable() {
    let down = || Status::new(Code::Unavailable, "down");
    let params = ListUsersParams {
        page: None,
        page_size: None,
    };
    assert_eq!(list_users_call(&params), (0, 0));
    assert!(list_users_reply(Err(down())).is_err());
    assert!(user_reply(Err(down())).is_err());
    assert!(delete_user_reply(Err(down())).is_err());
}

#[test]
fn an_answer_without_a_user_is_not_found() {
    let err = user_reply(Ok(None)).unwrap_err();
    assert_eq!(err.status, 404);
    assert_eq!(err.message, "user not found");
}

// ---- Tickets ----

#[test]
fn map_ticket_maps_expected_fields() {
    let source = TicketMessage {
        ticket_id: 42,
        title: "Demo".to_string(),
        project: "InfoVulcan".to_string(),
        priority: 3,
        status: 1,
        ..Default::default()
    };

    let mapped = ApiTicket::from(source);
    assert_eq!(mapped.ticket_id, 42);
    assert_eq!(mapped.title, "Demo");
    assert_eq!(mapped.project, "InfoVulcan");
    assert_eq!(mapped.priority, 3);
    assert_eq!(mapped.status, 1);
}

#[test]
fn to_proto_next_action_maps_each_variant() {
    assert!(to_proto_next_action(ApiNextActionInput::NoAction)
        .kind
        .is_none());

    let follow = to_proto_next_action(ApiNextActionInput::FollowUp { at: 42 }).kind;
    assert!(matches!(follow, Some(NextActionKind::FollowUp(ts)) if ts.seconds == 42));

    let appt = to_proto_next_action(ApiNextActionInput::Appointment { at: 99 }).kind;
    assert!(matches!(appt, Some(NextActionKind::Appointment(ts)) if ts.seconds == 99));

    let ac = to_proto_next_action(ApiNextActionInput::AutoClose {
        schedule: "hours_48".to_string(),
    })
    .kind;
    assert!(matches!(ac, Some(NextActionKind::AutoClose(v)) if v == SCHEDULE_HOURS_48));

    // Unknown schedule falls back to end-of-day.
    let eod = to_proto_next_action(ApiNextActionInput::AutoClose {
        schedule: "bogus".to_string(),
    })
    .kind;
    assert!(matches!(eod, Some(NextActionKind::AutoClose(v)) if v == SCHEDULE_END_OF_DAY));
}

#[test]
fn next_actions_are_shown() {
    let ts = Timestamp {
        seconds: 5,
        nanos: 7,
    };
    assert!(map_next_action(NextActionMessage { kind: None }).is_none());
    assert!(matches!(
        map_next_action(NextActionMessage {
            kind: Some(NextActionKind::FollowUp(ts))
        }),
        Some(ApiNextAction::FollowUp { at: 5 })
    ));
    assert!(matches!(
        map_next_action(NextActionMessage {
            kind: Some(NextActionKind::Appointment(ts))
        }),
        Some(ApiNextAction::Appointment { at: 5 })
    ));
    let names = [
        (SCHEDULE_END_OF_DAY, "end_of_day"),
        (SCHEDULE_HOURS_24, "hours_24"),
        (SCHEDULE_HOURS_48, "hours_48"),
        (SCHEDULE_HOURS_72, "hours_72"),
        (99, "end_of_day"),
    ];
    for (number, name) in names {
        let shown = map_next_action(NextActionMessage {
            kind: Some(NextActionKind::AutoClose(number)),
        });
        assert!(matches!(shown, Some(ApiNextAction::AutoClose { schedule }) if schedule == name));
        let written = to_proto_next_action(ApiNextActionInput::AutoClose {
            schedule: name.to_string(),
        });
        let back = map_next_action(written);
        assert!(matches!(back, Some(ApiNextAction::AutoClose { schedule }) if schedule == name));
    }
}

#[test]
fn create_ticket_returns_created_on_backend_success() {
    let call = create_ticket_call(
        CreateTicketRequest {
            title: "Test".to_string(),
            project: "InfoVulcan".to_string(),
            account_uuid: "00000000-0000-0000-0000-000000000001".to_string(),
            symptom: 0,
            priority: 0,
        },
        "00000000-0000-0000-0000-000000000042".to_string(),
    );
    assert_eq!(call.title, "Test");
    assert_eq!(call.created_by_uuid, "00000000-0000-0000-0000-000000000042");
    assert_eq!(call.tracking_url, None);
    let (http, ticket) = create_ticket_reply(Ok(TicketMessage {
        ticket_id: 1,
        title: call.title,
        ..Default::default()
    }))
    .unwrap();
    assert_eq!(http, 201);
    assert_eq!(ticket.title, "Test");
}

#[test]
fn get_ticket_returns_ticket_on_backend_success() {
    let ticket = get_ticket_reply(Ok(TicketMessage {
        ticket_id: 7,
        title: "Test Ticket".to_string(),
        ..Default::default()
    }));
    assert_eq!(ticket.unwrap().ticket_id, 7);
}

#[test]
fn update_ticket_returns_ticket_on_backend_success() {
    let call = update_ticket_call(
        7,
        UpdateTicketRequest {
            title: Some("Updated".to_string()),
            project: None,
            priority: None,
            status: None,
            next_action: Some(ApiNextActionInput::FollowUp { at: 1_700_000_000 }),
        },
        "00000000-0000-0000-0000-000000000042".to_string(),
    );
    assert_eq!(call.ticket_id, 7);
    assert!(matches!(
        call.next_action,
        Some(NextActionMessage { kind: Some(NextActionKind::FollowUp(ts)) })
            if ts.seconds == 1_700_000_000
    ));
    assert_eq!(
        call.updated_by_uuid.as_deref(),
        Some("00000000-0000-0000-0000-000000000042")
    );
    assert!(update_ticket_reply(Ok(TicketMessage::default())).is_ok());
}

#[test]
fn list_tickets_returns_tickets_from_backend() {
    let query = list_tickets_call(ListTicketsParams {
        status: Some(1),
        assignee: None,
        account: None,
        project: None,
        include_deleted: None,
        limit: None,
    });
    assert_eq!(query.status, Some(1));
    assert!(!query.include_deleted);
    assert_eq!(query.limit, 0);
    let tickets = list_tickets_reply(Ok(vec![
        TicketMessage {
            ticket_id: 1,
            title: "First".to_string(),
            status: 1,
            ..Default::default()
        },
        TicketMessage {
            ticket_id: 2,
            title: "Second".to_string(),
            status: 1,
            ..Default::default()
        },
    ]))
    .unwrap();
    assert_eq!(tickets.len(), 2);
    assert_eq!(tickets[0].title, "First");
    assert_eq!(tickets[1].ticket_id, 2);
}

#[test]
fn create_ticket_route_executes_and_returns_error_without_backend() {
    let err = create_ticket_reply(Err("unreachable".to_string())).unwrap_err();
    assert_eq!(err.status, 500);
    assert_eq!(err.message, "unreachable");
    assert_eq!(
        list_tickets_reply(Err("unreachable".to_string()))
            .unwrap_err()
            .status,
        500
    );
}

#[test]
fn get_ticket_route_executes_and_maps_error() {
    let err = get_ticket_reply(Err("unreachable".to_string())).unwrap_err();
    assert_eq!(err.status, 404);
}

#[test]
fn update_ticket_route_executes_and_returns_error_without_backend() {
    let err = update_ticket_reply(Err("unreachable".to_string())).unwrap_err();
    assert_eq!(err.status, 500);
}

// ---- Health ----

#[test]
fn health_reports_ok_when_auth_and_custodian_reachable() {
    let (http, answer) = health(true, true);
    assert_eq!(http, 200);
    assert_eq!(answer.status, "ok");
    assert_eq!(
        answer.services,
        vec![("auth".to_string(), "up"), ("custodian".to_string(), "up")]
    );
}

#[test]
fn health_reports_degraded_when_auth_down_but_custodian_up() {
    let (http, answer) = health(false, true);
    assert_eq!(http, 503);
    assert_eq!(answer.status, "degraded");
    assert_eq!(answer.services[0].1, "down");
    assert_eq!(answer.services[1].1, "up");
}

#[test]
fn health_reports_degraded_when_all_backends_unreachable() {
    assert_eq!(health(false, false).0, 503);
}

// ---- Settings ----

#[test]
fn settings_have_defaults() {
    assert_eq!(listen_address(None), "0.0.0.0:8080");
    assert_eq!(listen_address(Some("[::1]:1".to_string())), "[::1]:1");
    assert_eq!(env_or_default(Some("a".to_string()), "b"), "a");
    assert_eq!(env_or_default(None, "b"), "b");
    assert_eq!(jwt_secret_from_env(None), b"secret".to_vec());
    assert_eq!(jwt_secret_from_env(Some("é".to_string())), "é".as_bytes());
    assert_eq!(
        resolve_backend_addrs(None, Some("http://b:2".to_string()), None),
        (
            "http://auth:8082".to_string(),
            "http://b:2".to_string(),
            "http://custodian-leader:8081".to_string()
        )
    );
    assert_eq!(reload_secs(None), 30);
    assert_eq!(reload_secs(Some("5".to_string())), 5);
    assert_eq!(reload_secs(Some(" 5".to_string())), 30);
    assert_eq!(rate_per_second(Some("x".to_string())), 10);
    assert_eq!(rate_burst(Some("4294967295".to_string())), u32::MAX);
    assert_eq!(rate_burst(Some("4294967296".to_string())), 30);
}

#[test]
fn origins_are_split_at_commas() {
    assert_eq!(cors_origins(None), None);
    assert_eq!(cors_origins(Some(" ".to_string())), None);
    assert_eq!(
        cors_origins(Some("http://a , http://b,,".to_string())),
        Some(vec![
            "http://a".to_string(),
            "http://b".to_string(),
            String::new(),
            String::new()
        ])
    );
}
