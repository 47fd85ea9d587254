//! User administration.

use argon2::{Argon2, PasswordHash, PasswordVerifier};
use infovulcan::admin::{
    auth_key, auth_to_write, auth_write, create_user, create_user_reply, decrypt_user, delete_user,
    found_user, get_user_reply, hash_password, hash_with, intrusion_key, intrusion_write, list_users,
    map_proto_role, map_role, new_user, password_to_set, prior_auth, profile_key, profile_write,
    push_metrics, update_password, update_user, user_key, user_to_proto, with_password, AuthMethod,
    CreateUserCall, ProfileError, Role, SealError, UpdateUserCall, User, UserAuth,
};
use infovulcan::status::Code;
use infovulcan::time::Moment;

fn now() -> Moment {
    Moment {
        secs: 1_700_000_000,
        nanos: 0,
    }
}

fn call(username: &str, role: i32) -> CreateUserCall {
    CreateUserCall {
        username: username.to_string(),
        password: "secret123".to_string(),
        email: format!("{username}@example.com"),
        display_name: username.to_string(),
        role,
    }
}

fn user(username: &str, role: i32) -> User {
    let id = uuid::Uuid::new_v4().as_u128();
    new_user(&call(username, role), id, "hash".to_string(), now()).0
}

#[test]
fn map_role_covers_all_variants() {
    assert_eq!(map_role(0), Role::Admin);
    assert_eq!(map_role(1), Role::Manager);
    assert_eq!(map_role(2), Role::Supervisor);
    assert_eq!(map_role(3), Role::Technician);
    assert_eq!(map_role(4), Role::EbondPartner);
    assert_eq!(map_role(99), Role::ReadOnly);
}

#[test]
fn map_proto_role_covers_all_variants() {
    assert_eq!(map_proto_role(Role::Admin), 0);
    assert_eq!(map_proto_role(Role::Manager), 1);
    assert_eq!(map_proto_role(Role::Supervisor), 2);
    assert_eq!(map_proto_role(Role::Technician), 3);
    assert_eq!(map_proto_role(Role::EbondPartner), 4);
    assert_eq!(map_proto_role(Role::ReadOnly), 5);
}

#[test]
fn push_metrics_returns_ok() {
    assert!(push_metrics());
}

#[test]
fn record_intrusion_persists_to_audit_log() {
    assert_eq!(
        intrusion_key(1_700_000_000, "203.0.113.7", "/wallet/balance"),
        b"intrusion:1700000000:203.0.113.7:/wallet/balance".to_vec()
    );
    let call = intrusion_write(-1, "::1", "/x", vec![9]);
    assert_eq!(call.collection, "audit");
    assert_eq!(call.key, b"intrusion:-1:::1:/x".to_vec());
    assert_eq!(call.value, vec![9]);
}

#[test]
fn list_users_returns_created_users_with_pagination() {
    let rows = vec![
        Ok(user("bob", 3)),
        Ok(user("carol", 5)),
        Ok(user("alice", 0)),
    ];
    let all = list_users(&rows, 0, 0);
    assert_eq!(all.total_count, 3);
    assert_eq!(all.users.len(), 3);
    // Sorted by username.
    assert_eq!(all.users[0].username, "alice");

    // Page 2 with size 2 -> only the third user.
    let page2 = list_users(&rows, 2, 2);
    assert_eq!(page2.total_count, 3);
    assert_eq!(page2.users.len(), 1);
    assert_eq!(page2.users[0].username, "carol");
}

#[test]
fn pages_share_out_every_user() {
    let rows: Vec<Result<User, ProfileError>> =
        (0..7).map(|i| Ok(user(&format!("user{i}"), 0))).collect();
    let mut seen: Vec<String> = Vec::new();
    for page in 1..=3 {
        for shown in list_users(&rows, page, 3).users {
            seen.push(shown.username);
        }
    }
    let all: Vec<String> = (0..7).map(|i| format!("user{i}")).collect();
    assert_eq!(seen, all);
    assert!(list_users(&rows, u32::MAX, u32::MAX).users.is_empty());
}

#[test]
fn a_profile_that_cannot_be_opened_does_not_spoil_the_listing() {
    let rows = vec![
        Ok(user("bob", 3)),
        Err(ProfileError::Decryption("bad".to_string())),
    ];
    let page = list_users(&rows, 1, 10);
    assert_eq!(page.total_count, 1);
    assert_eq!(page.users[0].username, "bob");
}

#[test]
fn update_user_changes_profile_fields() {
    let later = Moment {
        secs: 1_700_000_100,
        nanos: 0,
    };
    let dave = user("dave", 3);
    let updated = update_user(
        dave.clone(),
        UpdateUserCall {
            id: "id".to_string(),
            email: Some("dave2@example.com".to_string()),
            display_name: Some("Dave Two".to_string()),
            role: Some(1),
            active: Some(true),
            password: Some("newpass456".to_string()),
        },
        later,
    );
    let shown = user_to_proto(&updated);
    assert_eq!(shown.email, "dave2@example.com");
    assert_eq!(shown.display_name, "Dave Two");
    assert_eq!(shown.role, 1);
    assert_eq!(updated.updated_at, later);
    assert_eq!(updated.created_at, dave.created_at);

    // Re-reading reflects the change.
    let fetched = get_user_reply(Some(Ok(updated))).unwrap();
    assert_eq!(fetched.email, "dave2@example.com");
}

#[test]
fn update_user_not_found_returns_not_found() {
    let err = found_user(None).expect_err("missing user");
    assert_eq!(err.code, Code::NotFound);
}

#[test]
fn delete_user_soft_deletes() {
    let erin = delete_user(user("erin", 3), now());
    let fetched = get_user_reply(Some(Ok(erin))).unwrap();
    assert!(!fetched.active);
    assert_eq!(fetched.username, "erin");
}

#[test]
fn create_user_succeeds_with_real_db() {
    let req = CreateUserCall {
        username: "testuser".to_string(),
        password: "secret123".to_string(),
        email: "test@example.com".to_string(),
        display_name: "Test User".to_string(),
        role: 3, // Technician
    };
    let (profile, auth) = create_user(&req, now()).expect("create_user should succeed");
    let created = create_user_reply(&profile, req.role);
    assert_eq!(created.username, "testuser");
    assert_eq!(created.role, 3);
    assert!(!created.id.is_empty());
    assert_eq!(created.created_at, 1_700_000_000);
    assert_eq!(auth.user_id, profile.user_id);
    assert!(matches!(auth.mfa_method, Some(AuthMethod::Password)));
    let hash = PasswordHash::new(&auth.password_hash).unwrap();
    assert!(Argon2::default()
        .verify_password(b"secret123", &hash)
        .is_ok());
}

#[test]
fn create_user_exercises_all_role_values_via_db_failure() {
    for role in [1_i32, 2, 3, 4, 99] {
        let req = CreateUserCall {
            username: format!("user_{role}"),
            password: "pass".to_string(),
            email: format!("u{role}@example.com"),
            display_name: "User".to_string(),
            role,
        };
        let (profile, _) = create_user(&req, now()).unwrap();
        assert_eq!(profile.username, format!("user_{role}"));
        assert_eq!(profile.role, map_role(role));
        // The reply carries the number that was asked for.
        assert_eq!(create_user_reply(&profile, role).role, role);
    }
}

#[test]
fn two_users_get_two_ids() {
    let (a, _) = create_user(&call("a", 0), now()).unwrap();
    let (b, _) = create_user(&call("a", 0), now()).unwrap();
    assert_ne!(a.user_id, b.user_id);
    let id = uuid::Uuid::from_u128(a.user_id);
    assert_eq!(id.get_version_num(), 4);
    assert_eq!(id.get_variant(), uuid::Variant::RFC4122);
}

#[test]
fn get_user_returns_user_when_present_in_db() {
    let id = uuid::Uuid::new_v4();
    let seeded = User {
        user_id: id.as_u128(),
        username: "seeded".to_string(),
        email: "seeded@example.com".to_string(),
        display_name: "Seeded User".to_string(),
        role: Role::Technician,
        is_active: true,
        mfa_enabled: false,
        created_at: now(),
        updated_at: now(),
        last_login: None,
    };
    assert_eq!(user_key(&id.to_string()).unwrap(), id.as_bytes().to_vec());
    let fetched = get_user_reply(Some(Ok(seeded))).unwrap();
    assert_eq!(fetched.id, id.to_string());
    assert_eq!(fetched.username, "seeded");
    assert_eq!(fetched.email, "seeded@example.com");
}

#[test]
fn get_user_returns_not_found_for_missing_id() {
    let err = get_user_reply(None).expect_err("non-existent user should return not_found");
    assert_eq!(err.code, Code::NotFound);
    assert_eq!(err.message, "User not found");
}

#[test]
fn profiles_that_cannot_be_opened_are_internal_errors() {
    let text = |e: ProfileError| {
        let err = decrypt_user(Err(e)).unwrap_err();
        assert_eq!(err.code, Code::Internal);
        err.message
    };
    assert_eq!(
        text(ProfileError::Sealed("x".to_string())),
        "Failed to decode encrypted data: x"
    );
    assert_eq!(
        text(ProfileError::Decryption("x".to_string())),
        "Decryption failed: x"
    );
    assert_eq!(
        text(ProfileError::Content("x".to_string())),
        "Failed to decode User: x"
    );
}

#[test]
fn keys_of_users() {
    assert_eq!(profile_key(1), uuid::Uuid::from_u128(1).as_bytes().to_vec());
    let err = user_key("nobody").unwrap_err();
    assert_eq!(err.code, Code::InvalidArgument);
    assert_eq!(err.message, "invalid user id");
    assert_eq!(auth_key("ann"), b"auth:username:ann".to_vec());
}

#[test]
fn passwords_are_hashed_under_a_salt() {
    let salt = "c29tZXNhbHRzb21lc2FsdA";
    let first = hash_with("hunter2", salt).unwrap();
    assert_eq!(first, hash_with("hunter2", salt).unwrap());
    assert_ne!(first, hash_with("hunter3", salt).unwrap());
    assert!(first.starts_with("$argon2id$v=19$m=19456,t=2,p=1$c29tZXNhbHRzb21lc2FsdA$"));
    let err = hash_with("hunter2", "!").unwrap_err();
    assert_eq!(err.code, Code::Internal);
    assert!(err.message.starts_with("Failed to hash password: "));
    // Each time a fresh salt is drawn.
    assert_ne!(
        hash_password("hunter2").unwrap(),
        hash_password("hunter2").unwrap()
    );
}

#[test]
fn a_change_of_password_keeps_what_was_enrolled() {
    let prior = UserAuth {
        user_id: 7,
        password_hash: "old".to_string(),
        mfa_secret: Some("seed".to_string()),
        mfa_method: Some(AuthMethod::Other("totp".to_string())),
    };
    let auth = update_password(Some(Ok(prior)), 7, "newpass456").unwrap();
    assert_eq!(auth.mfa_secret.as_deref(), Some("seed"));
    assert!(matches!(auth.mfa_method, Some(AuthMethod::Other(name)) if name == "totp"));
    let hash = PasswordHash::new(&auth.password_hash).unwrap();
    assert!(Argon2::default()
        .verify_password(b"newpass456", &hash)
        .is_ok());
    let fresh = with_password(None, 7, "h".to_string());
    assert_eq!(fresh.password_hash, "h");
    assert!(matches!(fresh.mfa_method, Some(AuthMethod::Password)));
}

#[test]
fn credentials_that_cannot_be_opened_are_internal_errors() {
    let text = |e: ProfileError| {
        let err = prior_auth(Some(Err(e))).unwrap_err();
        assert_eq!(err.code, Code::Internal);
        err.message
    };
    assert_eq!(
        text(ProfileError::Sealed("x".to_string())),
        "Failed to decode auth: x"
    );
    assert_eq!(
        text(ProfileError::Decryption("x".to_string())),
        "Decryption failed: x"
    );
    assert_eq!(
        text(ProfileError::Content("x".to_string())),
        "Failed to decode UserAuth: x"
    );
    assert!(prior_auth(None).unwrap().is_none());
    let row = Some(Err(ProfileError::Content("x".to_string())));
    assert!(update_password(row, 7, "pw").is_err());
}

#[test]
fn users_are_kept_by_id_and_credentials_by_name() {
    let call = profile_write(1, Ok(vec![7])).unwrap();
    assert_eq!(call.collection, "users");
    assert_eq!(call.key, profile_key(1));
    assert_eq!(call.value, vec![7]);
    let call = auth_write("ann", Ok(vec![8])).unwrap();
    assert_eq!(call.collection, "auth");
    assert_eq!(call.key, auth_key("ann"));
    let err = profile_write(1, Err(SealError::Serialization("x".to_string()))).unwrap_err();
    assert_eq!(err.message, "Serialization error: x");
    let err = auth_write("ann", Err(SealError::Encryption("x".to_string()))).unwrap_err();
    assert_eq!(err.code, Code::Internal);
    assert_eq!(err.message, "Encryption error: x");
}

#[test]
fn credentials_are_written_anew_exactly_with_a_password() {
    let call = |password: Option<&str>| UpdateUserCall {
        id: "id".to_string(),
        email: None,
        display_name: None,
        role: None,
        active: None,
        password: password.map(|p| p.to_string()),
    };
    assert_eq!(password_to_set(&call(None)), None);
    assert_eq!(password_to_set(&call(Some("pw"))), Some("pw"));
    let broken = || Some(Err(ProfileError::Content("x".to_string())));
    assert!(auth_to_write(&call(None), broken(), 7).unwrap().is_none());
    assert!(auth_to_write(&call(Some("pw")), broken(), 7).is_err());
    let auth = auth_to_write(&call(Some("pw")), None, 7).unwrap().unwrap();
    assert_eq!(auth.user_id, 7);
}

#[test]
fn a_salt_of_sixteen_bytes_hashes_every_password() {
    for salt in ["AAAAAAAAAAAAAAAAAAAAAA", "+/azAZ09bcdefghijklmnQ", "////////////////////+w"] {
        for password in ["", "secret", "Gr\u{fc}n"] {
            let hash = hash_with(password, salt).unwrap();
            assert!(hash.starts_with("$argon2id$v=19$m=19456,t=2,p=1$"));
            assert!(hash.contains(salt));
        }
    }
    // The last digit may stand for two bits only, and there must be enough of them.
    assert!(hash_with("secret", "AAAAAAAAAAAAAAAAAAAAAB").is_err());
    assert!(hash_with("secret", "AAAA").is_err());
}

#[test]
fn a_fresh_salt_encodes_sixteen_bytes() {
    let hash = hash_password("secret").unwrap();
    let salt = hash.split('$').nth(4).unwrap();
    assert_eq!(salt.len(), 22);
    assert!(salt.chars().all(|c| c.is_ascii_alphanumeric() || c == '+' || c == '/'));
    assert!(salt.ends_with(['A', 'Q', 'g', 'w']));
}

#[test]
fn a_password_is_changed_wherever_the_row_is_readable() {
    let prior = UserAuth {
        user_id: 1,
        password_hash: "old".to_string(),
        mfa_secret: Some("secret".to_string()),
        mfa_method: Some(AuthMethod::Other("totp".to_string())),
    };
    let kept = update_password(Some(Ok(prior)), 2, "new").unwrap();
    assert_eq!(kept.user_id, 2);
    assert_eq!(kept.mfa_secret.as_deref(), Some("secret"));
    assert!(matches!(kept.mfa_method, Some(AuthMethod::Other(m)) if m == "totp"));
    let fresh = update_password(None, 2, "new").unwrap();
    assert!(fresh.mfa_secret.is_none());
    assert!(matches!(fresh.mfa_method, Some(AuthMethod::Password)));
    let parsed = PasswordHash::new(&fresh.password_hash).unwrap();
    assert!(Argon2::default().verify_password(b"new", &parsed).is_ok());
    let broken = Some(Err(ProfileError::Content("eof".to_string())));
    let failed = update_password(broken, 2, "new").unwrap_err();
    assert_eq!(failed.message, "Failed to decode UserAuth: eof");
}
