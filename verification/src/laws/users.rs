//! Users: what a request says is what the profile says, and a listing shows everybody once.

use vstd::prelude::*;
use vstd::utf8::encode_utf8;

use crate::admin::{
    auth_key, auth_to_write, auth_write, by_name, create_user, create_user_reply, decrypt_user,
    delete_user, encrypt_user, found_user, get_user_reply, hash_password, hash_with, intrusion_key,
    intrusion_write, is_salt, is_stable_sort, key_of_id, list_users, map_proto_role, map_role,
    named, new_user, page_of, password_to_set, prior_auth, profile_key, profile_write, push_metrics,
    readable, sort_by_name, update_password, update_user, user_key, user_to_proto, users_of,
    with_password, AuthMethod, CreateUserCall, ProfileError, ProtoUser, ProtoUserView, PutCall,
    Role, SealError, UpdateUserCall, User, UserAuth, UserPage,
};
use crate::bytes::{lex_lt_irreflexive, lex_lt_total};
use crate::ids::{uuid_parsed, uuid_text};
use crate::status::{Code, Status};
use crate::text::{dec_int, text_lt, utf8_injective};
use crate::time::Moment;

verus! {

/// A role and its number are two names for one thing; a number that is no role's is the least of
/// them.
pub proof fn roles_are_their_numbers(r: Role, n: i32, k: i32, read: Role, number: i32)
    requires
        call_ensures(map_proto_role, (r,), n),
        call_ensures(map_role, (k,), read),
        call_ensures(map_proto_role, (read,), number),
    ensures
        0 <= n <= 5,
        k == n ==> read == r,
        0 <= k <= 5 ==> number == k,
        !(0 <= k <= 5) ==> read == Role::ReadOnly,
        n == 0 <==> r == Role::Admin,
        n == 1 <==> r == Role::Manager,
        n == 2 <==> r == Role::Supervisor,
        n == 3 <==> r == Role::Technician,
        n == 4 <==> r == Role::EbondPartner,
        n == 5 <==> r == Role::ReadOnly,
{
}

/// What is shown of a user is what the profile says.
pub proof fn a_user_is_shown_as_they_are(user: User, m: ProtoUser, role: i32)
    requires
        call_ensures(user_to_proto, (&user,), m),
        call_ensures(map_proto_role, (user.role,), role),
    ensures
        m.id@ == uuid_text(user.user_id),
        m.username@ == user.username@,
        m.email@ == user.email@,
        m.display_name@ == user.display_name@,
        m.role == role,
        m.active == user.is_active,
        m.created_at == (if user.created_at.secs < 0 {
            0
        } else {
            user.created_at.secs as int
        }),
{
}

// ---- Creating ----

/// A new user has what the request says, is active, and is shown under the role's number that was
/// asked for; the credentials belong to the same user and need a password only.
pub proof fn a_created_user_is_as_asked(
    req: CreateUserCall,
    now: Moment,
    user: User,
    auth: UserAuth,
    m: ProtoUser,
    role: Role,
)
    requires
        call_ensures(create_user, (&req, now), Ok::<(User, UserAuth), Status>((user, auth))),
        call_ensures(create_user_reply, (&user, req.role), m),
        call_ensures(map_role, (req.role,), role),
    ensures
        user.username@ == req.username@,
        user.email@ == req.email@,
        user.display_name@ == req.display_name@,
        user.role == role,
        user.is_active,
        !user.mfa_enabled,
        user.created_at == now,
        user.updated_at == now,
        user.last_login is None,
        auth.user_id == user.user_id,
        auth.mfa_secret is None,
        auth.mfa_method == Some(AuthMethod::Password),
        exists|salt: Seq<char>|
            is_salt(salt) && #[trigger] crate::admin::argon2_hash(encode_utf8(req.password@), salt)
                == Some(auth.password_hash@),
        m.id@ == uuid_text(user.user_id),
        m.username@ == req.username@,
        m.email@ == req.email@,
        m.display_name@ == req.display_name@,
        m.role == req.role,
        m.active,
        m.created_at == (if now.secs < 0 {
            0
        } else {
            now.secs as int
        }),
{
}

/// A user is created whatever the request says, unless the password is too long to be hashed.
pub proof fn users_can_be_created(
    req: CreateUserCall,
    now: Moment,
    out: Result<(User, UserAuth), Status>,
)
    requires
        call_ensures(create_user, (&req, now), out),
    ensures
        out is Ok <==> encode_utf8(req.password@).len() < 0x1_0000_0000,
        out matches Err(e) ==> e.code == Code::Internal,
{
}

/// The profile and the credentials of a new user share the id and say what the request says.
pub proof fn a_new_user_has_one_id(
    req: CreateUserCall,
    user_id: u128,
    hash: String,
    now: Moment,
    out: (User, UserAuth),
)
    requires
        call_ensures(new_user, (&req, user_id, hash, now), out),
    ensures
        out.0.user_id == user_id && out.1.user_id == user_id,
        out.0.username@ == req.username@,
        out.0.email@ == req.email@,
        out.0.display_name@ == req.display_name@,
        out.0.is_active && !out.0.mfa_enabled && out.0.last_login is None,
        out.1.password_hash@ == hash@,
        out.1.mfa_secret is None && out.1.mfa_method == Some(AuthMethod::Password),
{
}

/// Under one salt a password has one hash.
pub proof fn hashing_is_repeatable(
    password: &str,
    salt: &str,
    a: Result<String, Status>,
    b: Result<String, Status>,
)
    requires
        call_ensures(hash_with, (password, salt), a),
        call_ensures(hash_with, (password, salt), b),
    ensures
        a is Ok <==> b is Ok,
        a matches Ok(hash) ==> hash@ == (b->Ok_0)@,
{
}

// ---- Changing ----

/// After an update each field that the request names has the value that it gives, and each other
/// field is as it was.
pub proof fn an_update_does_what_it_names(
    user: User,
    req: UpdateUserCall,
    now: Moment,
    after: User,
    m: ProtoUser,
)
    requires
        call_ensures(update_user, (user, req, now), after),
        call_ensures(user_to_proto, (&after,), m),
    ensures
        match req.email {
            Some(email) => after.email@ == email@ && m.email@ == email@,
            None => after.email == user.email,
        },
        match req.display_name {
            Some(name) => after.display_name@ == name@ && m.display_name@ == name@,
            None => after.display_name == user.display_name,
        },
        match req.role {
            Some(n) => (0 <= n <= 5 ==> m.role == n) && (!(0 <= n <= 5) ==> after.role
                == Role::ReadOnly),
            None => after.role == user.role,
        },
        match req.active {
            Some(active) => after.is_active == active && m.active == active,
            None => after.is_active == user.is_active && m.active == user.is_active,
        },
        after.user_id == user.user_id,
        after.username == user.username,
        after.mfa_enabled == user.mfa_enabled,
        after.created_at == user.created_at,
        after.last_login == user.last_login,
        after.updated_at == now,
{
}

/// A deactivated user is shown as inactive and keeps everything else; deactivating is an update
/// that names only that.
pub proof fn deactivating_only_deactivates(
    user: User,
    now: Moment,
    after: User,
    req: UpdateUserCall,
    updated: User,
)
    requires
        call_ensures(delete_user, (user, now), after),
        call_ensures(update_user, (user, req, now), updated),
        req.email is None && req.display_name is None && req.role is None && req.active == Some(
            false,
        ),
    ensures
        !after.is_active,
        after == updated,
        after.user_id == user.user_id,
        after.username == user.username,
        after.email == user.email,
        after.display_name == user.display_name,
        after.role == user.role,
        after.mfa_enabled == user.mfa_enabled,
        after.created_at == user.created_at,
        after.last_login == user.last_login,
        after.updated_at == now,
{
}

/// A change of password keeps what was enrolled beside it, gives the credentials to the user, and
/// fails only where the password is too long or what was kept cannot be read.
pub proof fn a_new_password_keeps_the_rest(
    row: Option<Result<UserAuth, ProfileError>>,
    user_id: u128,
    password: &str,
    out: Result<UserAuth, Status>,
)
    requires
        call_ensures(update_password, (row, user_id, password), out),
    ensures
        out is Ok <==> encode_utf8(password@).len() < 0x1_0000_0000 && !(row matches Some(Err(_))),
        out matches Ok(auth) ==> {
            &&& auth.user_id == user_id
            &&& exists|salt: Seq<char>|
                is_salt(salt) && #[trigger] crate::admin::argon2_hash(encode_utf8(password@), salt)
                    == Some(auth.password_hash@)
            &&& row matches Some(Ok(prior)) ==> auth.mfa_secret == prior.mfa_secret
                && auth.mfa_method == prior.mfa_method
            &&& row is None ==> auth.mfa_secret is None && auth.mfa_method == Some(
                AuthMethod::Password,
            )
        },
        out matches Err(e) ==> e.code == Code::Internal,
        encode_utf8(password@).len() < 0x1_0000_0000 ==> (row matches Some(Err(failure)) ==> (
        out->Err_0).message@ == (match failure {
            ProfileError::Sealed(text) => "Failed to decode auth: "@ + text@,
            ProfileError::Decryption(text) => "Decryption failed: "@ + text@,
            ProfileError::Content(text) => "Failed to decode UserAuth: "@ + text@,
        })),
{
}

/// Credentials are written anew exactly where an update names a password.
pub proof fn credentials_change_with_the_password(
    req: UpdateUserCall,
    row: Option<Result<UserAuth, ProfileError>>,
    user_id: u128,
    out: Result<Option<UserAuth>, Status>,
    set: Option<&str>,
)
    requires
        call_ensures(auth_to_write, (&req, row, user_id), out),
        call_ensures(password_to_set, (&req,), set),
    ensures
        set is Some <==> req.password is Some,
        set matches Some(text) ==> (req.password matches Some(password) && text@ == password@),
        req.password is None ==> out == Ok::<Option<UserAuth>, Status>(None),
        out matches Ok(Some(auth)) ==> auth.user_id == user_id,
        out matches Ok(written) ==> (written is Some <==> req.password is Some),
        req.password matches Some(password) ==> (out is Ok <==> encode_utf8(password@).len()
            < 0x1_0000_0000 && !(row matches Some(Err(_)))),
        out matches Ok(Some(auth)) ==> (row matches Some(Ok(prior)) ==> auth.mfa_secret
            == prior.mfa_secret && auth.mfa_method == prior.mfa_method),
{
}

/// New credentials hold the new hash for the user and what the prior ones had enrolled.
pub proof fn a_new_hash_keeps_the_rest(
    prior: Option<UserAuth>,
    user_id: u128,
    hash: String,
    out: UserAuth,
)
    requires
        call_ensures(with_password, (prior, user_id, hash), out),
    ensures
        out.user_id == user_id,
        out.password_hash == hash,
        prior matches Some(p) ==> out.mfa_secret == p.mfa_secret && out.mfa_method == p.mfa_method,
        prior is None ==> out.mfa_secret is None && out.mfa_method == Some(AuthMethod::Password),
{
}

/// Credentials that are kept are had as they were opened; that there are none is no failure.
pub proof fn kept_credentials_are_had(
    row: Option<Result<UserAuth, ProfileError>>,
    out: Result<Option<UserAuth>, Status>,
)
    requires
        call_ensures(prior_auth, (row,), out),
    ensures
        out is Err <==> (row matches Some(Err(_))),
        out matches Ok(auth) ==> match row {
            Some(Ok(kept)) => auth == Some(kept),
            _ => auth is None,
        },
{
}

// ---- Finding ----

/// A profile is had as it was opened; one that is not there is not found, and one that cannot be
/// opened is told with what went wrong.
pub proof fn a_profile_is_had_as_it_is(
    row: Option<Result<User, ProfileError>>,
    found: Result<User, Status>,
    shown: Result<ProtoUser, Status>,
    m: ProtoUser,
)
    requires
        call_ensures(found_user, (row,), found),
        call_ensures(get_user_reply, (row,), shown),
        row matches Some(Ok(user)) ==> call_ensures(user_to_proto, (&user,), m),
    ensures
        match row {
            Some(Ok(user)) => found == Ok::<User, Status>(user) && (shown matches Ok(s) && s@ == m@),
            None => found matches Err(e) && e.code == Code::NotFound && e.message@
                == "User not found"@,
            Some(Err(failure)) => found matches Err(e) && e.code == Code::Internal && e.message@ == (
            match failure {
                ProfileError::Sealed(text) => "Failed to decode encrypted data: "@ + text@,
                ProfileError::Decryption(text) => "Decryption failed: "@ + text@,
                ProfileError::Content(text) => "Failed to decode User: "@ + text@,
            }),
        },
        found matches Err(e) ==> (shown matches Err(s) && s@ == e@),
{
}

/// To open a profile is to find the one that is there.
pub proof fn opening_is_finding(
    body: Result<User, ProfileError>,
    opened: Result<User, Status>,
    found: Result<User, Status>,
)
    requires
        call_ensures(decrypt_user, (body,), opened),
        call_ensures(found_user, (Some(body),), found),
    ensures
        opened is Ok <==> body is Ok,
        opened matches Ok(user) ==> body == Ok::<User, ProfileError>(user) && found == Ok::<
            User,
            Status,
        >(user),
        opened matches Err(e) ==> (found matches Err(f) && f@ == e@),
{
}

// ---- Keeping ----

/// A profile is kept where it is looked for: under the sixteen bytes of its id.
pub proof fn a_profile_is_kept_where_it_is_looked_for(
    id: &str,
    user_id: u128,
    key: Result<Vec<u8>, Status>,
    of_id: Result<Vec<u8>, Status>,
    write: Result<PutCall, Status>,
    value: Vec<u8>,
    other: u128,
    other_key: Vec<u8>,
)
    requires
        uuid_parsed(id@) == Some(user_id),
        call_ensures(user_key, (id,), key),
        call_ensures(key_of_id, (Some(user_id),), of_id),
        call_ensures(profile_write, (user_id, Ok::<Vec<u8>, SealError>(value)), write),
        call_ensures(profile_key, (other,), other_key),
    ensures
        key matches Ok(k) && (write matches Ok(call) && call.key@ == k@ && call.collection@
            == "users"@ && call.value@ == value@) && k@.len() == 16,
        of_id matches Ok(k) && k@ == (key->Ok_0)@,
        other_key@ == (key->Ok_0)@ <==> other == user_id,
{
    crate::bytes::be8_round_trip(crate::custodian::locks::high_half(user_id));
    crate::bytes::be8_round_trip(crate::custodian::locks::low_half(user_id));
    if other_key@ == (key->Ok_0)@ {
        crate::admin::profile_keys_apart(other, user_id);
    }
}

/// An id that is none has no key.
pub proof fn what_is_no_id_has_no_key(id: &str, key: Result<Vec<u8>, Status>, none: Result<Vec<u8>, Status>)
    requires
        uuid_parsed(id@) is None,
        call_ensures(user_key, (id,), key),
        call_ensures(key_of_id, (None::<u128>,), none),
    ensures
        key matches Err(e) && e.code == Code::InvalidArgument && e.message@ == "invalid user id"@,
        none matches Err(e) && e@ == (key->Err_0)@,
{
}

/// Credentials are kept where they are looked for: by the name, apart from everybody else's.
pub proof fn credentials_are_kept_by_name(
    username: &str,
    key: Vec<u8>,
    value: Vec<u8>,
    write: Result<PutCall, Status>,
    other: &str,
    other_key: Vec<u8>,
)
    requires
        call_ensures(auth_key, (username,), key),
        call_ensures(auth_write, (username, Ok::<Vec<u8>, SealError>(value)), write),
        call_ensures(auth_key, (other,), other_key),
    ensures
        key@ == encode_utf8("auth:username:"@ + username@),
        write matches Ok(call) && call.key@ == key@ && call.collection@ == "auth"@ && call.value@
            == value@,
        other_key@ == key@ <==> other@ == username@,
{
    if other_key@ == key@ {
        let a = "auth:username:"@ + other@;
        let b = "auth:username:"@ + username@;
        utf8_injective(a, b);
        assert(other@ =~= a.skip("auth:username:"@.len() as int));
        assert(username@ =~= b.skip("auth:username:"@.len() as int));
    }
}

/// What could not be sealed is not kept, and what went wrong is told.
pub proof fn the_unsealed_is_not_kept(
    user_id: u128,
    username: &str,
    e: SealError,
    sealed: Result<Vec<u8>, Status>,
    profile: Result<PutCall, Status>,
    auth: Result<PutCall, Status>,
)
    requires
        call_ensures(encrypt_user, (Err::<Vec<u8>, SealError>(e),), sealed),
        call_ensures(profile_write, (user_id, Err::<Vec<u8>, SealError>(e)), profile),
        call_ensures(auth_write, (username, Err::<Vec<u8>, SealError>(e)), auth),
    ensures
        sealed matches Err(s) && s.code == Code::Internal && s.message@ == (match e {
            SealError::Serialization(text) => "Serialization error: "@ + text@,
            SealError::Encryption(text) => "Encryption error: "@ + text@,
        }),
        profile matches Err(s) && s@ == (sealed->Err_0)@,
        auth matches Err(s) && s@ == (sealed->Err_0)@,
{
}

/// What was sealed is kept as it is.
pub proof fn the_sealed_is_kept(value: Vec<u8>, out: Result<Vec<u8>, Status>)
    requires
        call_ensures(encrypt_user, (Ok::<Vec<u8>, SealError>(value),), out),
    ensures
        out == Ok::<Vec<u8>, Status>(value),
{
}

/// An intrusion is logged under when, whence and where, as it was written; metrics are taken.
pub proof fn an_intrusion_is_logged(
    at: i64,
    source: &str,
    endpoint: &str,
    value: Vec<u8>,
    key: Vec<u8>,
    call: PutCall,
    taken: bool,
)
    requires
        call_ensures(intrusion_key, (at, source, endpoint), key),
        call_ensures(intrusion_write, (at, source, endpoint, value), call),
        call_ensures(push_metrics, (), taken),
    ensures
        call.collection@ == "audit"@,
        call.key@ == key@,
        call.value@ == value@,
        key@ == encode_utf8(
            "intrusion:"@ + dec_int(at as int) + ":"@ + source@ + ":"@ + endpoint@,
        ),
        taken,
{
}

// ---- Listing ----

/// The row holds a profile that can be shown as `shown`.
pub open spec fn row_shows(row: Result<User, ProfileError>, shown: ProtoUserView) -> bool {
    row matches Ok(u) && uuid_text(u.user_id) == shown.id && u.username@ == shown.username
        && u.email@ == shown.email && u.display_name@ == shown.display_name && u.is_active
        == shown.active
}

/// How many rows hold a profile.
pub open spec fn profiles_in(rows: Seq<Result<User, ProfileError>>) -> nat {
    rows.filter(|row: Result<User, ProfileError>| row is Ok).len()
}

/// One of the rows holds a profile that can be shown as `shown`.
pub open spec fn is_shown_from(rows: Seq<Result<User, ProfileError>>, shown: ProtoUserView) -> bool {
    exists|i: int| 0 <= i < rows.len() && row_shows(#[trigger] rows[i], shown)
}

/// One of the users shows the profile of the row.
pub open spec fn is_shown_among(row: Result<User, ProfileError>, users: Seq<ProtoUserView>) -> bool {
    exists|k: int| 0 <= k < users.len() && row_shows(row, #[trigger] users[k])
}

proof fn readable_are_the_profiles(rows: Seq<Result<User, ProfileError>>)
    ensures
        readable(rows).len() == profiles_in(rows),
        forall|k: int| 0 <= k < readable(rows).len() ==> is_shown_from(rows, #[trigger] readable(rows)[k]),
        forall|i: int|
            0 <= i < rows.len() && (#[trigger] rows[i]) is Ok ==> is_shown_among(
                rows[i],
                readable(rows),
            ),
    decreases rows.len(),
{
    reveal(Seq::filter);
    let users = readable(rows);
    if rows.len() > 0 {
        let fewer = rows.drop_last();
        let before = readable(fewer);
        readable_are_the_profiles(fewer);
        assert forall|k: int| 0 <= k < users.len() implies is_shown_from(rows, #[trigger] users[k]) by {
            if k < before.len() {
                assert(is_shown_from(fewer, before[k]));
                let i = choose|i: int| 0 <= i < fewer.len() && row_shows(#[trigger] fewer[i], before[k]);
                assert(row_shows(rows[i], users[k]));
            } else {
                assert(row_shows(rows[rows.len() - 1], users[k]));
            }
        }
        assert forall|i: int| 0 <= i < rows.len() && (#[trigger] rows[i]) is Ok implies is_shown_among(
            rows[i],
            users,
        ) by {
            if i < fewer.len() {
                assert(fewer[i] is Ok);
                let k = choose|k: int| 0 <= k < before.len() && row_shows(fewer[i], #[trigger] before[k]);
                assert(row_shows(rows[i], users[k]));
            } else {
                assert(row_shows(rows[i], users[users.len() - 1]));
            }
        }
    }
}

/// The users on a page are those from where it starts.
proof fn a_page_is_a_part(users: Seq<ProtoUserView>, page: u32, page_size: u32, start: int, size: int)
    requires
        start == crate::admin::start_of_page(page, page_size),
        size == crate::admin::size_of_page(page_size),
    ensures
        page_of(users, page, page_size).len() == (if start >= users.len() {
            0
        } else if users.len() - start < size {
            users.len() - start
        } else {
            size
        }),
        forall|k: int|
            0 <= k < page_of(users, page, page_size).len() ==> #[trigger] page_of(
                users,
                page,
                page_size,
            )[k] == users[start + k],
{
    let before = if page == 0 {
        0int
    } else {
        page - 1
    };
    assert(before * size >= 0) by (nonlinear_arith)
        requires
            before >= 0,
            size >= 0,
    ;
}

/// Two sorted lists with the same users of each name are one list.
proof fn sorting_has_one_outcome(a: Seq<ProtoUserView>, b: Seq<ProtoUserView>)
    requires
        by_name(a),
        by_name(b),
        a.len() == b.len(),
        forall|name: Seq<char>| #[trigger] a.filter(named(name)) == b.filter(named(name)),
    ensures
        a == b,
    decreases a.len(),
{
    reveal(Seq::filter);
    if a.len() == 0 {
        assert(a =~= b);
    } else {
        let (x, y) = (a.last(), b.last());
        let (m, n) = (x.username, y.username);
        last_is_greatest(a, b);
        last_is_greatest(b, a);
        if m != n {
            lex_lt_total(encode_utf8(m), encode_utf8(n));
            utf8_names_apart(m, n);
        }
        assert(a.filter(named(m)).last() == x);
        assert(b.filter(named(m)).last() == y);
        assert forall|name: Seq<char>| #[trigger] a.drop_last().filter(named(name))
            == b.drop_last().filter(named(name)) by {
            assert(a.filter(named(name)) == b.filter(named(name)));
            if name == m {
                assert(a.filter(named(m)).drop_last() =~= a.drop_last().filter(named(m)));
                assert(b.filter(named(m)).drop_last() =~= b.drop_last().filter(named(m)));
            }
        }
        sorting_has_one_outcome(a.drop_last(), b.drop_last());
        assert(a =~= a.drop_last().push(x));
        assert(b =~= b.drop_last().push(y));
    }
}

/// Two names that neither comes before are one.
proof fn utf8_names_apart(m: Seq<char>, n: Seq<char>)
    requires
        m != n,
    ensures
        encode_utf8(m) != encode_utf8(n),
{
    if encode_utf8(m) == encode_utf8(n) {
        utf8_injective(m, n);
    }
}

/// No user of one list comes after the last of the other.
proof fn last_is_greatest(a: Seq<ProtoUserView>, b: Seq<ProtoUserView>)
    requires
        by_name(b),
        a.len() > 0,
        b.len() > 0,
        forall|name: Seq<char>| #[trigger] a.filter(named(name)) == b.filter(named(name)),
    ensures
        !text_lt(b.last().username, a.last().username),
{
    reveal(Seq::filter);
    let x = a.last();
    let part = b.filter(named(x.username));
    assert(a.filter(named(x.username)).last() == x);
    assert(part.len() > 0 && part.last() == x);
    filtered_is_there(b, x.username);
    let k = choose|k: int| 0 <= k < b.len() && (#[trigger] b[k]).username == x.username;
    if k < b.len() - 1 {
        assert(!text_lt(b[b.len() - 1].username, b[k].username));
    } else {
        lex_lt_irreflexive(encode_utf8(x.username));
    }
}

/// A name that a list has users of is the name of one of its users.
proof fn filtered_is_there(b: Seq<ProtoUserView>, name: Seq<char>)
    requires
        b.filter(named(name)).len() > 0,
    ensures
        exists|k: int| 0 <= k < b.len() && (#[trigger] b[k]).username == name,
    decreases b.len(),
{
    reveal(Seq::filter);
    if b.len() > 0 {
        if b.last().username == name {
            assert(b[b.len() - 1].username == name);
        } else {
            filtered_is_there(b.drop_last(), name);
            let k = choose|k: int|
                0 <= k < b.drop_last().len() && (#[trigger] b.drop_last()[k]).username == name;
            assert(b[k].username == name);
        }
    }
}

/// Who passes a filter is in what it keeps.
proof fn in_the_part(a: Seq<ProtoUserView>, keep: spec_fn(ProtoUserView) -> bool, k: int)
    requires
        0 <= k < a.len(),
        keep(a[k]),
    ensures
        exists|j: int| 0 <= j < a.filter(keep).len() && a.filter(keep)[j] == a[k],
    decreases a.len(),
{
    reveal(Seq::filter);
    let part = a.filter(keep);
    if k == a.len() - 1 {
        assert(part[part.len() - 1] == a[k]);
    } else {
        let fewer = a.drop_last();
        in_the_part(fewer, keep, k);
        let j = choose|j: int| 0 <= j < fewer.filter(keep).len() && fewer.filter(keep)[j] == fewer[k];
        assert(part[j] == a[k]);
    }
}

/// Who is kept by a filter was there.
proof fn in_the_whole(b: Seq<ProtoUserView>, keep: spec_fn(ProtoUserView) -> bool, j: int)
    requires
        0 <= j < b.filter(keep).len(),
    ensures
        b.contains(b.filter(keep)[j]),
    decreases b.len(),
{
    reveal(Seq::filter);
    if b.len() > 0 {
        let fewer = b.drop_last();
        let part = fewer.filter(keep);
        if j < part.len() {
            in_the_whole(fewer, keep, j);
            let k = choose|k: int| 0 <= k < fewer.len() && fewer[k] == part[j];
            assert(b[k] == b.filter(keep)[j]);
        } else {
            assert(b[b.len() - 1] == b.filter(keep)[j]);
        }
    }
}

/// A list and its sorted form hold the same users.
proof fn sorting_keeps_everybody(a: Seq<ProtoUserView>, b: Seq<ProtoUserView>, k: int)
    requires
        forall|name: Seq<char>| #[trigger] a.filter(named(name)) == b.filter(named(name)),
        0 <= k < a.len(),
    ensures
        b.contains(a[k]),
{
    let name = a[k].username;
    let part = a.filter(named(name));
    assert(named(name)(a[k]));
    assert(a.contains(a[k]));
    in_the_part(a, named(name), k);
    assert(part == b.filter(named(name)));
    let j = choose|j: int| 0 <= j < part.len() && part[j] == a[k];
    in_the_whole(b, named(name), j);
}

/// A listing counts every profile that can be read, shows only such profiles, in the order of their
/// names, and no more of them than a page holds: fifty where nothing is said.
pub proof fn a_listing_shows_the_profiles(
    rows: Vec<Result<User, ProfileError>>,
    page: u32,
    page_size: u32,
    out: UserPage,
)
    requires
        call_ensures(list_users, (&rows, page, page_size), out),
    ensures
        profiles_in(rows@) <= u32::MAX ==> out.total_count == profiles_in(rows@),
        out.users@.len() <= (if page_size == 0 {
            50
        } else {
            page_size as int
        }),
        forall|k: int|
            0 <= k < out.users@.len() ==> is_shown_from(rows@, (#[trigger] out.users@[k])@),
        forall|j: int, k: int|
            0 <= j < k < out.users@.len() ==> !text_lt(
                (#[trigger] out.users@[k]).username@,
                (#[trigger] out.users@[j]).username@,
            ),
{
    let sorted = choose|sorted: Seq<ProtoUserView>| #[trigger]
        is_stable_sort(readable(rows@), sorted) && users_of(out.users@) == page_of(
            sorted,
            page,
            page_size,
        );
    let users = readable(rows@);
    readable_are_the_profiles(rows@);
    let shown = users_of(out.users@);
    let start = crate::admin::start_of_page(page, page_size);
    a_page_is_a_part(
        sorted,
        page,
        page_size,
        start,
        crate::admin::size_of_page(page_size) as int,
    );
    assert(shown.len() == out.users@.len());
    assert forall|k: int| 0 <= k < out.users@.len() implies is_shown_from(
        rows@,
        (#[trigger] out.users@[k])@,
    ) by {
        assert(shown[k] == sorted[start + k]);
        sorting_keeps_everybody(sorted, users, start + k);
        let j = choose|j: int| 0 <= j < users.len() && users[j] == shown[k];
        assert(is_shown_from(rows@, users[j]));
    }
    assert forall|j: int, k: int| 0 <= j < k < out.users@.len() implies !text_lt(
        (#[trigger] out.users@[k]).username@,
        (#[trigger] out.users@[j]).username@,
    ) by {
        assert(shown[j] == sorted[start + j] && shown[k] == sorted[start + k]);
    }
}

/// One page that is large enough shows everybody, and every page is its part of that: nobody is
/// missing, and nobody is shown twice.
pub proof fn pages_are_parts_of_the_whole(
    rows: Vec<Result<User, ProfileError>>,
    size: u32,
    whole: UserPage,
    page: u32,
    page_size: u32,
    part: UserPage,
    i: int,
)
    requires
        size > 0,
        profiles_in(rows@) <= size,
        call_ensures(list_users, (&rows, 1u32, size), whole),
        page_size > 0,
        page >= 1,
        (page - 1) * page_size <= u32::MAX,
        call_ensures(list_users, (&rows, page, page_size), part),
        0 <= i,
    ensures
        whole.users@.len() == profiles_in(rows@),
        i < rows@.len() && rows@[i] is Ok ==> is_shown_among(rows@[i], users_of(whole.users@)),
        i < part.users@.len() <==> i < page_size && (page - 1) * page_size + i < whole.users@.len(),
        i < part.users@.len() ==> part.users@[i]@ == whole.users@[(page - 1) * page_size + i]@,
{
    let a = choose|sorted: Seq<ProtoUserView>| #[trigger]
        is_stable_sort(readable(rows@), sorted) && users_of(whole.users@) == page_of(
            sorted,
            1,
            size,
        );
    let b = choose|sorted: Seq<ProtoUserView>| #[trigger]
        is_stable_sort(readable(rows@), sorted) && users_of(part.users@) == page_of(
            sorted,
            page,
            page_size,
        );
    assert forall|name: Seq<char>| #[trigger] a.filter(named(name)) == b.filter(named(name)) by {
        assert(a.filter(named(name)) == readable(rows@).filter(named(name)));
    }
    sorting_has_one_outcome(a, b);
    readable_are_the_profiles(rows@);
    let shown = users_of(whole.users@);
    assert(shown.len() == whole.users@.len());
    assert(users_of(part.users@).len() == part.users@.len());
    let start = (page - 1) * page_size;
    assert(0 * size == 0) by (nonlinear_arith);
    assert(crate::admin::start_of_page(1, size) == 0);
    assert(crate::admin::start_of_page(page, page_size) == start);
    a_page_is_a_part(a, 1, size, 0, size as int);
    a_page_is_a_part(b, page, page_size, start, page_size as int);
    assert(shown =~= a);
    if i < rows@.len() && rows@[i] is Ok {
        let users = readable(rows@);
        assert(is_shown_among(rows@[i], users));
        let j = choose|j: int| 0 <= j < users.len() && row_shows(rows@[i], #[trigger] users[j]);
        assert forall|name: Seq<char>| #[trigger] users.filter(named(name)) == a.filter(
            named(name),
        ) by {
            assert(a.filter(named(name)) == users.filter(named(name)));
        }
        sorting_keeps_everybody(users, a, j);
        let k = choose|k: int| 0 <= k < a.len() && a[k] == users[j];
        assert(row_shows(rows@[i], shown[k]));
    }
    if i < part.users@.len() {
        assert(users_of(part.users@)[i] == part.users@[i]@);
        assert(shown[start + i] == whole.users@[start + i]@);
    }
}

/// Sorting keeps everybody, puts no name after a greater one, and leaves users of one name in the
/// order they had.
pub proof fn sorting_is_by_name(users: Vec<ProtoUser>, out: Vec<ProtoUser>, k: int)
    requires
        call_ensures(sort_by_name, (&users,), out),
        0 <= k < users@.len(),
    ensures
        out@.len() == users@.len(),
        exists|j: int| 0 <= j < out@.len() && (#[trigger] out@[j])@ == users@[k]@,
        forall|i: int, j: int|
            0 <= i < j < out@.len() ==> !text_lt(
                (#[trigger] out@[j]).username@,
                (#[trigger] out@[i]).username@,
            ),
        forall|name: Seq<char>|
            #![trigger users_of(out@).filter(named(name))]
            users_of(out@).filter(named(name)) == users_of(users@).filter(named(name)),
{
    let (a, b) = (users_of(users@), users_of(out@));
    assert(a.len() == users@.len() && b.len() == out@.len());
    assert forall|name: Seq<char>| #[trigger] a.filter(named(name)) == b.filter(named(name)) by {
        assert(b.filter(named(name)) == a.filter(named(name)));
    }
    sorting_keeps_everybody(a, b, k);
    let j = choose|j: int| 0 <= j < b.len() && b[j] == a[k];
    assert(out@[j]@ == users@[k]@);
    assert forall|i: int, j: int| 0 <= i < j < out@.len() implies !text_lt(
        (#[trigger] out@[j]).username@,
        (#[trigger] out@[i]).username@,
    ) by {
        assert(!text_lt(b[j].username, b[i].username));
    }
}

/// A copy shows the same.
pub proof fn a_copy_shows_the_same(u: ProtoUser, out: ProtoUser)
    requires
        call_ensures(ProtoUser::copy, (&u,), out),
    ensures
        out.id@ == u.id@ && out.username@ == u.username@ && out.email@ == u.email@
            && out.display_name@ == u.display_name@,
        out.role == u.role && out.active == u.active && out.created_at == u.created_at,
{
}

/// A password is hashed with some salt, as it would be with that salt given; one that could be hashed
/// once can be hashed again.
pub proof fn a_password_is_hashed_with_a_salt(
    password: &str,
    hash: String,
    again: Result<String, Status>,
) -> (salt: Seq<char>)
    requires
        call_ensures(hash_password, (password,), Ok::<String, Status>(hash)),
        call_ensures(hash_password, (password,), again),
    ensures
        crate::admin::argon2_hash(encode_utf8(password@), salt) == Some(hash@),
        again is Ok,
{
    choose|salt: Seq<char>|
        crate::admin::is_salt(salt) && #[trigger] crate::admin::argon2_hash(
            encode_utf8(password@),
            salt,
        ) == Some(hash@)
}

/// Two messages show the same user.
pub open spec fn shows_the_same(a: ProtoUser, b: ProtoUser) -> bool {
    &&& a.id@ == b.id@
    &&& a.username@ == b.username@
    &&& a.email@ == b.email@
    &&& a.display_name@ == b.display_name@
    &&& a.role == b.role
    &&& a.active == b.active
    &&& a.created_at == b.created_at
}

/// Two listings of the same rows come from one order of them.
proof fn listings_have_one_order(before: Seq<ProtoUserView>, a: Seq<ProtoUserView>, b: Seq<ProtoUserView>)
    requires
        is_stable_sort(before, a),
        is_stable_sort(before, b),
    ensures
        a == b,
{
    assert forall|name: Seq<char>| #[trigger] a.filter(named(name)) == b.filter(named(name)) by {
        assert(a.filter(named(name)) == before.filter(named(name)));
    }
    sorting_has_one_outcome(a, b);
}

/// A listing shows a page of the one order of its rows.
proof fn a_listing_is_a_page(
    rows: Vec<Result<User, ProfileError>>,
    page: u32,
    page_size: u32,
    out: UserPage,
    order: Seq<ProtoUserView>,
)
    requires
        call_ensures(list_users, (&rows, page, page_size), out),
        is_stable_sort(readable(rows@), order),
    ensures
        users_of(out.users@) == page_of(order, page, page_size),
        out.users@.len() == page_of(order, page, page_size).len(),
        forall|i: int|
            0 <= i < out.users@.len() ==> (#[trigger] out.users@[i])@ == page_of(
                order,
                page,
                page_size,
            )[i],
{
    let sorted = choose|sorted: Seq<ProtoUserView>| #[trigger]
        is_stable_sort(readable(rows@), sorted) && users_of(out.users@) == page_of(
            sorted,
            page,
            page_size,
        );
    listings_have_one_order(readable(rows@), sorted, order);
    assert(users_of(out.users@).len() == out.users@.len());
    assert forall|i: int| 0 <= i < out.users@.len() implies (#[trigger] out.users@[i])@ == page_of(
        order,
        page,
        page_size,
    )[i] by {
        assert(users_of(out.users@)[i] == out.users@[i]@);
    }
}

/// Page nought is the first page, a page of no size is one of fifty, and a page past the end is
/// empty; each tells how many there are in all.
pub proof fn pages_that_are_not_named(
    rows: Vec<Result<User, ProfileError>>,
    page: u32,
    size: u32,
    nought: UserPage,
    first: UserPage,
    unsized_page: UserPage,
    fifty: UserPage,
    past: UserPage,
    i: int,
)
    requires
        call_ensures(list_users, (&rows, 0u32, size), nought),
        call_ensures(list_users, (&rows, 1u32, size), first),
        call_ensures(list_users, (&rows, page, 0u32), unsized_page),
        call_ensures(list_users, (&rows, page, 50u32), fifty),
        call_ensures(list_users, (&rows, u32::MAX, u32::MAX), past),
        rows@.len() <= u32::MAX,
    ensures
        nought.users@.len() == first.users@.len() && nought.total_count == first.total_count,
        0 <= i < first.users@.len() ==> shows_the_same(nought.users@[i], first.users@[i]),
        unsized_page.users@.len() == fifty.users@.len() && unsized_page.total_count
            == fifty.total_count,
        0 <= i < fifty.users@.len() ==> shows_the_same(unsized_page.users@[i], fifty.users@[i]),
        past.users@.len() == 0 && past.total_count == first.total_count,
        fifty.users@.len() <= 50,
{
    let order = choose|sorted: Seq<ProtoUserView>| #[trigger]
        is_stable_sort(readable(rows@), sorted) && users_of(first.users@) == page_of(
            sorted,
            1,
            size,
        );
    a_listing_is_a_page(rows, 0, size, nought, order);
    a_listing_is_a_page(rows, 1, size, first, order);
    a_listing_is_a_page(rows, page, 0, unsized_page, order);
    a_listing_is_a_page(rows, page, 50, fifty, order);
    a_listing_is_a_page(rows, u32::MAX, u32::MAX, past, order);
    readable_are_the_profiles(rows@);
    a_page_is_a_part(order, page, 50, crate::admin::start_of_page(page, 50), 50);
    assert((u32::MAX - 1) * u32::MAX > u32::MAX) by (nonlinear_arith);
    assert(crate::admin::start_of_page(u32::MAX, u32::MAX) == u32::MAX);
    assert(order.len() <= u32::MAX);
    a_page_is_a_part(order, u32::MAX, u32::MAX, u32::MAX as int, u32::MAX as int);
}

} // verus!
