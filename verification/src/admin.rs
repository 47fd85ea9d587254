//! User administration: profiles, credentials, listings and the intrusion log.
//!
//! Profiles and credentials are encrypted before they go to the database. The functions here take
//! a profile as it was opened, or why it could not be.

use argon2::password_hash::rand_core::OsRng;
use argon2::password_hash::{PasswordHasher, SaltString};
use argon2::Argon2;

use vstd::prelude::*;
use vstd::string::*;
use vstd::utf8::encode_utf8;

use crate::bytes::{be8, lex_lt_irreflexive, lex_lt_total, lex_lt_transitive, to_be8};
use crate::custodian::locks::{high_half, low_half, split_id};
use crate::ids::{parse_uuid, show_uuid, uuid_parsed, uuid_text};
use crate::status::{says, status, Code, Status, StatusView};
use crate::text::{
    concat2, dec_int, decimal_signed, str_of, text_before, text_lt, text_of, utf8_injective,
};
use crate::time::Moment;

verus! {

// ---- Roles ----

/// What a user may do.
#[derive(Debug, Clone, Copy, PartialEq, Eq, Structural)]
pub enum Role {
    Admin,
    Manager,
    Supervisor,
    Technician,
    EbondPartner,
    ReadOnly,
}

/// The role with the given number; any other number may only read.
pub open spec fn role_of(n: i32) -> Role {
    if n == 0 {
        Role::Admin
    } else if n == 1 {
        Role::Manager
    } else if n == 2 {
        Role::Supervisor
    } else if n == 3 {
        Role::Technician
    } else if n == 4 {
        Role::EbondPartner
    } else {
        Role::ReadOnly
    }
}

/// The number of a role.
pub open spec fn role_number(r: Role) -> i32 {
    match r {
        Role::Admin => 0,
        Role::Manager => 1,
        Role::Supervisor => 2,
        Role::Technician => 3,
        Role::EbondPartner => 4,
        Role::ReadOnly => 5,
    }
}

/// The role with the given number.
pub fn map_role(role: i32) -> (out: Role)
    ensures
        out == role_of(role),
{
    match role {
        0 => Role::Admin,
        1 => Role::Manager,
        2 => Role::Supervisor,
        3 => Role::Technician,
        4 => Role::EbondPartner,
        _ => Role::ReadOnly,
    }
}

/// The number of a role.
pub fn map_proto_role(role: Role) -> (out: i32)
    ensures
        out == role_number(role),
{
    match role {
        Role::Admin => 0,
        Role::Manager => 1,
        Role::Supervisor => 2,
        Role::Technician => 3,
        Role::EbondPartner => 4,
        Role::ReadOnly => 5,
    }
}

/// A role can be read back from its number.
pub proof fn role_round_trip(r: Role)
    ensures
        role_of(role_number(r)) == r,
{
}

// ---- Users ----

/// A user's profile.
#[derive(Debug, Clone)]
pub struct User {
    pub user_id: u128,
    pub username: String,
    pub email: String,
    pub display_name: String,
    pub role: Role,
    pub is_active: bool,
    pub mfa_enabled: bool,
    pub created_at: Moment,
    pub updated_at: Moment,
    pub last_login: Option<Moment>,
}

/// How a user proves who they are.
#[derive(Debug, Clone)]
pub enum AuthMethod {
    Password,
    /// Another method, by its name.
    Other(String),
}

/// A user's credentials.
#[derive(Debug, Clone)]
pub struct UserAuth {
    pub user_id: u128,
    pub password_hash: String,
    pub mfa_secret: Option<String>,
    pub mfa_method: Option<AuthMethod>,
}

/// A user on the wire.
#[derive(Debug, Clone)]
pub struct ProtoUser {
    pub id: String,
    pub username: String,
    pub email: String,
    pub display_name: String,
    pub role: i32,
    pub active: bool,
    pub created_at: u64,
}

/// What a user's message says.
#[verifier::ext_equal]
pub struct ProtoUserView {
    pub id: Seq<char>,
    pub username: Seq<char>,
    pub email: Seq<char>,
    pub display_name: Seq<char>,
    pub role: i32,
    pub active: bool,
    pub created_at: u64,
}

impl View for ProtoUser {
    type V = ProtoUserView;

    open spec fn view(&self) -> ProtoUserView {
        ProtoUserView {
            id: self.id@,
            username: self.username@,
            email: self.email@,
            display_name: self.display_name@,
            role: self.role,
            active: self.active,
            created_at: self.created_at,
        }
    }
}

/// The views of a list of users.
pub open spec fn users_of(v: Seq<ProtoUser>) -> Seq<ProtoUserView> {
    Seq::new(v.len(), |i: int| v[i]@)
}

/// A time as a count of seconds, or zero before 1970.
pub open spec fn seconds_or_zero(m: Moment) -> u64 {
    if m.secs >= 0 {
        m.secs as u64
    } else {
        0
    }
}

/// A user's message.
pub open spec fn user_message(user: User) -> ProtoUserView {
    ProtoUserView {
        id: uuid_text(user.user_id),
        username: user.username@,
        email: user.email@,
        display_name: user.display_name@,
        role: role_number(user.role),
        active: user.is_active,
        created_at: seconds_or_zero(user.created_at),
    }
}

/// Writes a user for the wire.
pub fn user_to_proto(user: &User) -> (out: ProtoUser)
    ensures
        out@ == user_message(*user),
{
    ProtoUser {
        id: show_uuid(user.user_id),
        username: user.username.clone(),
        email: user.email.clone(),
        display_name: user.display_name.clone(),
        role: map_proto_role(user.role),
        active: user.is_active,
        created_at: if user.created_at.secs >= 0 {
            user.created_at.secs as u64
        } else {
            0
        },
    }
}

impl ProtoUser {
    /// A copy of the message.
    pub fn copy(&self) -> (out: Self)
        ensures
            out@ == self@,
    {
        ProtoUser {
            id: self.id.clone(),
            username: self.username.clone(),
            email: self.email.clone(),
            display_name: self.display_name.clone(),
            role: self.role,
            active: self.active,
            created_at: self.created_at,
        }
    }
}

// ---- Keys ----

/// The sixteen bytes of an id, most significant first.
pub open spec fn id_bytes(id: u128) -> Seq<u8> {
    be8(high_half(id)) + be8(low_half(id))
}

/// The sixteen bytes of an id, most significant first.
pub fn profile_key(id: u128) -> (out: Vec<u8>)
    ensures
        out@ == id_bytes(id),
{
    let halves = split_id(id);
    let mut out: Vec<u8> = to_be8(halves.0);
    let mut low: Vec<u8> = to_be8(halves.1);
    out.append(&mut low);
    out
}

/// The key of a profile from the id that was read.
pub fn key_of_id(id: Option<u128>) -> (out: Result<Vec<u8>, Status>)
    ensures
        match id {
            Some(n) => out matches Ok(key) && key@ == id_bytes(n),
            None => out matches Err(e) && e@ == status(Code::InvalidArgument, "invalid user id"@),
        },
{
    match id {
        Some(n) => Ok(profile_key(n)),
        None => Err(Status::new(Code::InvalidArgument, "invalid user id")),
    }
}

/// The key that a profile is stored under: the sixteen bytes of the user's id.
pub fn user_key(id: &str) -> (out: Result<Vec<u8>, Status>)
    ensures
        match uuid_parsed(id@) {
            Some(n) => out matches Ok(key) && key@ == id_bytes(n),
            None => out matches Err(e) && e@ == status(Code::InvalidArgument, "invalid user id"@),
        },
{
    key_of_id(parse_uuid(id))
}

/// Distinct users have distinct keys.
pub proof fn profile_keys_apart(a: u128, b: u128)
    requires
        id_bytes(a) == id_bytes(b),
    ensures
        a == b,
{
    let (s, t) = (id_bytes(a), id_bytes(b));
    assert(s.take(8) =~= be8(high_half(a)) && t.take(8) =~= be8(high_half(b)));
    assert(s.skip(8) =~= be8(low_half(a)) && t.skip(8) =~= be8(low_half(b)));
    crate::bytes::be8_injective(high_half(a), high_half(b));
    crate::bytes::be8_injective(low_half(a), low_half(b));
    assert(a / 0x1_0000_0000_0000_0000 <= u64::MAX);
    assert(b / 0x1_0000_0000_0000_0000 <= u64::MAX);
}

/// The key that credentials are stored under: by the name that a user logs in with.
pub fn auth_key(username: &str) -> (out: Vec<u8>)
    ensures
        out@ == encode_utf8("auth:username:"@ + username@),
{
    let text: String = concat2("auth:username:", username);
    crate::text::copy_bytes(text.as_str().as_bytes())
}

/// The key that an intrusion is logged under.
pub fn intrusion_key(timestamp_unix: i64, source_ip: &str, endpoint: &str) -> (out: Vec<u8>)
    ensures
        out@ == encode_utf8(
            "intrusion:"@ + dec_int(timestamp_unix as int) + ":"@ + source_ip@ + ":"@ + endpoint@,
        ),
{
    let mut text: String = "intrusion:".to_owned();
    text.append(decimal_signed(timestamp_unix).as_str());
    text.append(":");
    text.append(source_ip);
    text.append(":");
    text.append(endpoint);
    crate::text::copy_bytes(text.as_str().as_bytes())
}

// ---- Passwords ----

#[verifier::external_type_specification]
#[verifier::external_body]
pub struct ExPasswordError(argon2::password_hash::Error);

/// The text that `argon2::Argon2::hash_password` makes of a password and a salt, if it can.
pub uninterp spec fn argon2_hash(password: Seq<u8>, salt: Seq<char>) -> Option<Seq<char>>;

/// A digit of the B64 encoding.
pub open spec fn is_b64_digit(c: char) -> bool {
    'A' <= c <= 'Z' || 'a' <= c <= 'z' || '0' <= c <= '9' || c == '+' || c == '/'
}

/// The B64 encoding of sixteen bytes: it has no padding, and the last digit stands for two bits.
pub open spec fn is_salt(salt: Seq<char>) -> bool {
    &&& salt.len() == 22
    &&& forall|i: int| 0 <= i < salt.len() ==> is_b64_digit(#[trigger] salt[i])
    &&& salt[21] == 'A' || salt[21] == 'Q' || salt[21] == 'g' || salt[21] == 'w'
}

/// The most bytes that a password can have.
pub const MAX_PASSWORD_LEN: u64 = 0xffff_ffff;

/// The password is short enough to be hashed.
pub open spec fn is_hashable(password: Seq<char>) -> bool {
    encode_utf8(password).len() <= MAX_PASSWORD_LEN
}

/// Calls `argon2::password_hash::SaltString::generate`, which encodes sixteen random bytes. Nothing
/// is said of which bytes they are.
#[verifier::external_body]
fn fresh_salt() -> (out: String)
    ensures
        is_salt(out@),
{
    SaltString::generate(&mut OsRng).as_str().to_string()
}

/// The id is marked as a random one: its version is four, and its variant the usual one.
pub open spec fn is_random_id(id: u128) -> bool {
    id / 0x1000_0000_0000_0000_0000 % 16 == 4 && id / 0x4000_0000_0000_0000 % 4 == 2
}

/// Calls `uuid::Uuid::new_v4`. The id is random but for the bits of its version and variant, so
/// nothing is said of the rest.
#[verifier::external_body]
fn fresh_id() -> (out: u128)
    ensures
        is_random_id(out),
{
    uuid::Uuid::new_v4().as_u128()
}

/// Calls `argon2::Argon2::hash_password` with its default parameters: the result is a function of
/// the password and the salt. It is a hash for the encoding of sixteen bytes and a password that is
/// not too long, and for no password that is. Nothing is said of other salts.
#[verifier::external_body]
fn salted_hash(password: &[u8], salt: &str) -> (out: Result<String, argon2::password_hash::Error>)
    ensures
        match out {
            Ok(hash) => argon2_hash(password@, salt@) == Some(hash@),
            Err(_) => argon2_hash(password@, salt@) is None,
        },
        is_salt(salt@) && password@.len() <= MAX_PASSWORD_LEN ==> out is Ok,
        password@.len() > MAX_PASSWORD_LEN ==> out is Err,
{
    let salt = SaltString::from_b64(salt)?;
    Ok(Argon2::default().hash_password(password, &salt)?.to_string())
}

/// Calls `to_string` on a `argon2::password_hash::Error`. Nothing is said of the text.
#[verifier::external_body]
fn password_error_text(error: &argon2::password_hash::Error) -> (out: String) {
    error.to_string()
}

/// The hash of a password under some salt of sixteen bytes.
pub open spec fn is_hash_of(hash: Seq<char>, password: Seq<char>) -> bool {
    exists|salt: Seq<char>|
        is_salt(salt) && #[trigger] argon2_hash(encode_utf8(password), salt) == Some(hash)
}

/// What is said of a password that could not be hashed.
pub open spec fn hashing_failed(e: Status) -> bool {
    says(e, Code::Internal, "Failed to hash password: "@)
}

/// Hashes a password under a given salt.
pub fn hash_with(password: &str, salt: &str) -> (out: Result<String, Status>)
    ensures
        match argon2_hash(encode_utf8(password@), salt@) {
            Some(hash) => out matches Ok(h) && h@ == hash,
            None => out matches Err(e) && hashing_failed(e),
        },
        is_salt(salt@) ==> (out is Ok <==> is_hashable(password@)),
{
    match salted_hash(password.as_bytes(), salt) {
        Ok(hash) => Ok(hash),
        Err(e) => Err(
            Status::with(
                Code::Internal,
                "Failed to hash password: ",
                password_error_text(&e).as_str(),
            ),
        ),
    }
}

/// Hashes a password under a fresh salt.
pub fn hash_password(password: &str) -> (out: Result<String, Status>)
    ensures
        if is_hashable(password@) {
            out matches Ok(hash) && is_hash_of(hash@, password@)
        } else {
            out matches Err(e) && hashing_failed(e)
        },
{
    let salt: String = fresh_salt();
    hash_with(password, salt.as_str())
}

// ---- Creating users ----

/// A request to create a user.
#[derive(Debug, Clone)]
pub struct CreateUserCall {
    pub username: String,
    pub password: String,
    pub email: String,
    pub display_name: String,
    pub role: i32,
}

/// The profile is that of a new user with the given id, made at `now`.
pub open spec fn is_new_profile(user: User, req: CreateUserCall, user_id: u128, now: Moment) -> bool {
    &&& user.user_id == user_id
    &&& user.username@ == req.username@
    &&& user.email@ == req.email@
    &&& user.display_name@ == req.display_name@
    &&& user.role == role_of(req.role)
    &&& user.is_active
    &&& !user.mfa_enabled
    &&& user.created_at == now
    &&& user.updated_at == now
    &&& user.last_login is None
}

/// The credentials are those of a user who logs in by password alone.
pub open spec fn is_new_auth(auth: UserAuth, user_id: u128) -> bool {
    &&& auth.user_id == user_id
    &&& auth.mfa_secret is None
    &&& auth.mfa_method == Some(AuthMethod::Password)
}

/// The profile and credentials of a new user, from the id and the hash of the password.
pub fn new_user(req: &CreateUserCall, user_id: u128, password_hash: String, now: Moment) -> (out: (
    User,
    UserAuth,
))
    ensures
        is_new_profile(out.0, *req, user_id, now),
        is_new_auth(out.1, user_id),
        out.1.password_hash == password_hash,
{
    (
        User {
            user_id,
            username: req.username.clone(),
            email: req.email.clone(),
            display_name: req.display_name.clone(),
            role: map_role(req.role),
            is_active: true,
            mfa_enabled: false,
            created_at: now,
            updated_at: now,
            last_login: None,
        },
        UserAuth {
            user_id,
            password_hash,
            mfa_secret: None,
            mfa_method: Some(AuthMethod::Password),
        },
    )
}

/// The profile and credentials of a new user, with a fresh id and a fresh salt.
pub fn create_user(req: &CreateUserCall, now: Moment) -> (out: Result<(User, UserAuth), Status>)
    ensures
        if is_hashable(req.password@) {
            out matches Ok((user, auth)) && {
                &&& is_random_id(user.user_id)
                &&& is_new_profile(user, *req, user.user_id, now)
                &&& is_new_auth(auth, user.user_id)
                &&& is_hash_of(auth.password_hash@, req.password@)
            }
        } else {
            out matches Err(e) && hashing_failed(e)
        },
{
    let user_id: u128 = fresh_id();
    match hash_password(req.password.as_str()) {
        Ok(hash) => Ok(new_user(req, user_id, hash, now)),
        Err(e) => Err(e),
    }
}

/// The reply to the creation of a user: it shows the role by the number that was asked for.
pub fn create_user_reply(user: &User, role: i32) -> (out: ProtoUser)
    ensures
        out@ == (ProtoUserView { role, ..user_message(*user) }),
{
    let mut out: ProtoUser = user_to_proto(user);
    out.role = role;
    out
}

// ---- Reading users ----

/// Why a profile could not be opened.
#[derive(Debug)]
pub enum ProfileError {
    /// It is no encrypted profile.
    Sealed(String),
    /// It cannot be decrypted.
    Decryption(String),
    /// It holds no profile.
    Content(String),
}

/// What is said of a profile that could not be opened.
pub open spec fn profile_status(e: ProfileError) -> StatusView {
    match e {
        ProfileError::Sealed(text) => status(
            Code::Internal,
            "Failed to decode encrypted data: "@ + text@,
        ),
        ProfileError::Decryption(text) => status(Code::Internal, "Decryption failed: "@ + text@),
        ProfileError::Content(text) => status(Code::Internal, "Failed to decode User: "@ + text@),
    }
}

/// The profile that was opened, or why it could not be.
pub fn decrypt_user(body: Result<User, ProfileError>) -> (out: Result<User, Status>)
    ensures
        match body {
            Ok(user) => out == Ok::<User, Status>(user),
            Err(e) => out matches Err(s) && s@ == profile_status(e),
        },
{
    match body {
        Ok(user) => Ok(user),
        Err(ProfileError::Sealed(text)) => Err(
            Status::with(Code::Internal, "Failed to decode encrypted data: ", text.as_str()),
        ),
        Err(ProfileError::Decryption(text)) => Err(
            Status::with(Code::Internal, "Decryption failed: ", text.as_str()),
        ),
        Err(ProfileError::Content(text)) => Err(
            Status::with(Code::Internal, "Failed to decode User: ", text.as_str()),
        ),
    }
}

/// The profile under a key: `None` where the database has none.
pub fn found_user(row: Option<Result<User, ProfileError>>) -> (out: Result<User, Status>)
    ensures
        match row {
            Some(Ok(user)) => out == Ok::<User, Status>(user),
            Some(Err(e)) => out matches Err(s) && s@ == profile_status(e),
            None => out matches Err(s) && s@ == status(Code::NotFound, "User not found"@),
        },
{
    match row {
        Some(body) => decrypt_user(body),
        None => Err(Status::new(Code::NotFound, "User not found")),
    }
}

/// The reply to a request for a user.
pub fn get_user_reply(row: Option<Result<User, ProfileError>>) -> (out: Result<ProtoUser, Status>)
    ensures
        match row {
            Some(Ok(user)) => out matches Ok(m) && m@ == user_message(user),
            Some(Err(e)) => out matches Err(s) && s@ == profile_status(e),
            None => out matches Err(s) && s@ == status(Code::NotFound, "User not found"@),
        },
{
    match found_user(row) {
        Ok(user) => Ok(user_to_proto(&user)),
        Err(e) => Err(e),
    }
}

// ---- Listing users ----

/// The messages of the profiles that could be opened, in order.
pub open spec fn readable(rows: Seq<Result<User, ProfileError>>) -> Seq<ProtoUserView>
    decreases rows.len(),
{
    if rows.len() == 0 {
        Seq::empty()
    } else {
        match rows.last() {
            Ok(user) => readable(rows.drop_last()).push(user_message(user)),
            Err(_) => readable(rows.drop_last()),
        }
    }
}

/// The user has the given name.
pub open spec fn named(name: Seq<char>) -> spec_fn(ProtoUserView) -> bool {
    |u: ProtoUserView| u.username == name
}

/// The users are in the order of their names.
pub open spec fn by_name(users: Seq<ProtoUserView>) -> bool {
    forall|i: int, j: int|
        0 <= i < j < users.len() ==> !text_lt((#[trigger] users[j]).username, (#[trigger] users[i]).username)
}

/// `after` holds the users of `before` in the order of their names; users of one name stay in the
/// order they had.
pub open spec fn is_stable_sort(before: Seq<ProtoUserView>, after: Seq<ProtoUserView>) -> bool {
    &&& by_name(after)
    &&& after.len() == before.len()
    &&& forall|name: Seq<char>| #[trigger] after.filter(named(name)) == before.filter(named(name))
}

/// The number of users on a page; zero asks for the usual number.
pub open spec fn size_of_page(page_size: u32) -> u32 {
    if page_size == 0 {
        50
    } else {
        page_size
    }
}

/// Where a page starts. Pages count from one, and page zero is the first one too.
pub open spec fn start_of_page(page: u32, page_size: u32) -> int {
    let before = (if page == 0 {
        0
    } else {
        page - 1
    }) * size_of_page(page_size);
    if before > u32::MAX {
        u32::MAX as int
    } else {
        before
    }
}

/// The users on a page of a listing.
pub open spec fn page_of(users: Seq<ProtoUserView>, page: u32, page_size: u32) -> Seq<
    ProtoUserView,
> {
    let start = start_of_page(page, page_size);
    let end = start + size_of_page(page_size);
    if start >= users.len() {
        Seq::empty()
    } else if end >= users.len() {
        users.skip(start)
    } else {
        users.subrange(start, end)
    }
}

/// A listing of users.
#[derive(Debug, Clone)]
pub struct UserPage {
    pub users: Vec<ProtoUser>,
    pub total_count: u32,
}

/// The order of names is total, transitive and strict.
proof fn names_ordered(a: Seq<char>, b: Seq<char>, c: Seq<char>)
    ensures
        !text_lt(a, a),
        text_lt(a, b) && text_lt(b, c) ==> text_lt(a, c),
        a == b || text_lt(a, b) || text_lt(b, a),
        text_lt(a, b) ==> !text_lt(b, a),
{
    lex_lt_irreflexive(encode_utf8(a));
    lex_lt_total(encode_utf8(a), encode_utf8(b));
    if text_lt(a, b) && text_lt(b, c) {
        lex_lt_transitive(encode_utf8(a), encode_utf8(b), encode_utf8(c));
    }
    if encode_utf8(a) == encode_utf8(b) {
        utf8_injective(a, b);
    }
    if text_lt(a, b) && text_lt(b, a) {
        lex_lt_transitive(encode_utf8(a), encode_utf8(b), encode_utf8(a));
    }
}

/// Putting a user behind all whose names do not come later keeps a sort stable.
proof fn inserting_keeps_order(
    before: Seq<ProtoUserView>,
    sorted: Seq<ProtoUserView>,
    user: ProtoUserView,
    at: int,
)
    requires
        is_stable_sort(before, sorted),
        0 <= at <= sorted.len(),
        forall|i: int| 0 <= i < at ==> !text_lt(user.username, (#[trigger] sorted[i]).username),
        forall|i: int| at <= i < sorted.len() ==> text_lt(user.username, (#[trigger] sorted[i]).username),
    ensures
        is_stable_sort(before.push(user), sorted.insert(at, user)),
{
    let after = sorted.insert(at, user);
    let left = sorted.take(at);
    let right = sorted.skip(at);
    assert(sorted =~= left + right);
    assert(after =~= left.push(user) + right);
    assert forall|i: int, j: int| 0 <= i < j < after.len() implies !text_lt(
        (#[trigger] after[j]).username,
        (#[trigger] after[i]).username,
    ) by {
        if j < at {
            assert(after[i] == sorted[i] && after[j] == sorted[j]);
        } else if j == at {
            assert(after[i] == sorted[i]);
        } else if i < at {
            assert(after[i] == sorted[i] && after[j] == sorted[j - 1]);
        } else if i == at {
            assert(after[j] == sorted[j - 1]);
            names_ordered(user.username, sorted[j - 1].username, user.username);
        } else {
            assert(after[i] == sorted[i - 1] && after[j] == sorted[j - 1]);
        }
    }
    assert forall|name: Seq<char>| #[trigger] after.filter(named(name)) == before.push(user).filter(
        named(name),
    ) by {
        let p = named(name);
        assert(sorted.filter(p) == before.filter(p));
        Seq::filter_distributes_over_add(left, right, p);
        Seq::filter_distributes_over_add(left.push(user), right, p);
        left.lemma_filter_push(user, p);
        before.lemma_filter_push(user, p);
        if p(user) {
            assert forall|i: int| 0 <= i < right.len() implies !p(#[trigger] right[i]) by {
                assert(right[i] == sorted[at + i]);
                names_ordered(user.username, right[i].username, right[i].username);
            }
            right.lemma_all_neg_filter_empty(p);
            assert(right.filter(p) =~= Seq::empty());
            assert(left.filter(p) + right.filter(p) =~= left.filter(p));
            assert(left.filter(p).push(user) + right.filter(p) =~= left.filter(p).push(user));
        }
    }
}

/// Sorts users by name; users of one name stay in the order they had.
pub fn sort_by_name(users: &Vec<ProtoUser>) -> (out: Vec<ProtoUser>)
    ensures
        is_stable_sort(users_of(users@), users_of(out@)),
{
    let mut sorted: Vec<ProtoUser> = Vec::new();
    let ghost all = users_of(users@);
    let mut n: usize = 0;
    assert(all.take(0) =~= Seq::empty());
    assert(users_of(sorted@) =~= Seq::empty());
    while n < users.len()
        invariant
            n <= users@.len(),
            all == users_of(users@),
            is_stable_sort(all.take(n as int), users_of(sorted@)),
        decreases users@.len() - n,
    {
        let user: ProtoUser = users[n].copy();
        let ghost before = users_of(sorted@);
        let mut at: usize = sorted.len();
        while at > 0 && text_before(user.username.as_str(), sorted[at - 1].username.as_str())
            invariant
                at <= sorted@.len(),
                before == users_of(sorted@),
                forall|i: int|
                    at <= i < before.len() ==> text_lt(user.username@, (#[trigger] before[i]).username),
            decreases at,
        {
            at = at - 1;
            assert(before[at as int].username == sorted@[at as int].username@);
        }
        proof {
            assert forall|i: int| 0 <= i < at implies !text_lt(
                user.username@,
                (#[trigger] before[i]).username,
            ) by {
                let last = before[at - 1];
                assert(last.username == sorted@[at - 1].username@);
                if i < at - 1 {
                    assert(!text_lt(last.username, before[i].username));
                    names_ordered(user.username@, before[i].username, last.username);
                    names_ordered(before[i].username, last.username, last.username);
                }
            }
            inserting_keeps_order(all.take(n as int), before, user@, at as int);
            assert(all.take(n + 1) =~= all.take(n as int).push(user@));
        }
        let ghost view = user@;
        sorted.insert(at, user);
        assert(users_of(sorted@) =~= before.insert(at as int, view));
        n = n + 1;
    }
    assert(all.take(n as int) =~= all);
    sorted
}

/// The users on a page of a listing, and how many users there are in all. Profiles that cannot be
/// opened are left out, so that one of them does not spoil the listing.
pub fn list_users(rows: &Vec<Result<User, ProfileError>>, page: u32, page_size: u32) -> (out:
    UserPage)
    ensures
        out.total_count == (if readable(rows@).len() <= u32::MAX {
            readable(rows@).len() as u32
        } else {
            u32::MAX
        }),
        exists|sorted: Seq<ProtoUserView>| #[trigger]
            is_stable_sort(readable(rows@), sorted) && users_of(out.users@) == page_of(
                sorted,
                page,
                page_size,
            ),
{
    let mut users: Vec<ProtoUser> = Vec::new();
    let mut i: usize = 0;
    assert(rows@.take(0) =~= Seq::empty());
    assert(users_of(users@) =~= Seq::empty());
    while i < rows.len()
        invariant
            i <= rows@.len(),
            users_of(users@) == readable(rows@.take(i as int)),
        decreases rows@.len() - i,
    {
        assert(rows@.take(i + 1).drop_last() =~= rows@.take(i as int));
        let ghost before = users_of(users@);
        match &rows[i] {
            Ok(user) => {
                let message: ProtoUser = user_to_proto(user);
                let ghost view = message@;
                users.push(message);
                assert(users_of(users@) =~= before.push(view));
            },
            Err(_) => {},
        }
        i = i + 1;
    }
    assert(rows@.take(i as int) =~= rows@);
    assert(users_of(users@).len() == users@.len());
    let sorted: Vec<ProtoUser> = sort_by_name(&users);
    let ghost all = users_of(sorted@);
    assert(all.len() == sorted@.len());
    let total: u64 = sorted.len() as u64;
    let total_count: u32 = if total <= 0xffff_ffff {
        total as u32
    } else {
        u32::MAX
    };
    let size: u32 = if page_size == 0 {
        50
    } else {
        page_size
    };
    let earlier: u64 = if page == 0 {
        0
    } else {
        (page - 1) as u64
    };
    assert(0 <= earlier * (size as u64) <= 0xffff_ffff * 0xffff_ffff) by (nonlinear_arith)
        requires
            earlier <= 0xffff_ffff,
            size <= 0xffff_ffff,
    ;
    let skipped: u64 = earlier * (size as u64);
    let start: u64 = if skipped > 0xffff_ffff {
        0xffff_ffff
    } else {
        skipped
    };
    assert(start == start_of_page(page, page_size));
    let end: u64 = start + size as u64;
    let mut paged: Vec<ProtoUser> = Vec::new();
    let mut k: u64 = start;
    let stop: u64 = if end < total {
        end
    } else {
        total
    };
    while k < stop
        invariant
            start <= end,
            all == users_of(sorted@),
            total == sorted@.len(),
            stop <= total,
            start < total ==> start <= k <= stop,
            start >= total ==> k == start && stop == total,
            paged@.len() == k - start,
            forall|j: int| 0 <= j < paged@.len() ==> (#[trigger] paged@[j])@ == all[start + j],
        decreases stop - k,
    {
        paged.push(sorted[k as usize].copy());
        k = k + 1;
    }
    assert(users_of(paged@) =~= page_of(all, page, page_size));
    UserPage { users: paged, total_count }
}

/// Every user is on exactly one page: the one that its place in the listing falls on.
pub proof fn pages_share_out_the_users(
    users: Seq<ProtoUserView>,
    page: u32,
    page_size: u32,
    i: int,
)
    requires
        0 <= i < users.len(),
        page >= 1,
        (page - 1) * size_of_page(page_size) <= u32::MAX,
    ensures
        ({
            let start = start_of_page(page, page_size);
            &&& start == (page - 1) * size_of_page(page_size)
            &&& start <= i < start + size_of_page(page_size) <==> i / (size_of_page(
                page_size,
            ) as int) == page - 1
            &&& start <= i < start + size_of_page(page_size) ==> page_of(users, page, page_size).len()
                > i - start && page_of(users, page, page_size)[i - start] == users[i]
        }),
{
    let size = size_of_page(page_size) as int;
    let p = page - 1;
    assert(p * size <= i < p * size + size <==> i / size == p) by (nonlinear_arith)
        requires
            size > 0,
            i >= 0,
            p >= 0,
    ;
}

// ---- Changing users ----

/// A request to update a user; what is not given stays.
#[derive(Debug, Clone)]
pub struct UpdateUserCall {
    pub id: String,
    pub email: Option<String>,
    pub display_name: Option<String>,
    pub role: Option<i32>,
    pub active: Option<bool>,
    pub password: Option<String>,
}

/// The profile after an update.
pub open spec fn updated_user(user: User, req: UpdateUserCall, now: Moment) -> User {
    User {
        email: match req.email {
            Some(email) => email,
            None => user.email,
        },
        display_name: match req.display_name {
            Some(display_name) => display_name,
            None => user.display_name,
        },
        role: match req.role {
            Some(n) => role_of(n),
            None => user.role,
        },
        is_active: match req.active {
            Some(active) => active,
            None => user.is_active,
        },
        updated_at: now,
        ..user
    }
}

/// Updates a profile as a request asks.
pub fn update_user(user: User, req: UpdateUserCall, now: Moment) -> (out: User)
    ensures
        out == updated_user(user, req, now),
{
    let mut user: User = user;
    if let Some(email) = req.email {
        user.email = email;
    }
    if let Some(display_name) = req.display_name {
        user.display_name = display_name;
    }
    if let Some(n) = req.role {
        user.role = map_role(n);
    }
    if let Some(active) = req.active {
        user.is_active = active;
    }
    user.updated_at = now;
    user
}

/// Deactivates a user. The profile stays.
pub fn delete_user(user: User, now: Moment) -> (out: User)
    ensures
        out == (User { is_active: false, updated_at: now, ..user }),
{
    let mut user: User = user;
    user.is_active = false;
    user.updated_at = now;
    user
}

/// The credentials after a change of password: what was enrolled beside the password stays.
pub open spec fn rehashed(prior: Option<UserAuth>, user_id: u128, password_hash: String) -> UserAuth {
    match prior {
        Some(auth) => UserAuth { user_id, password_hash, ..auth },
        None => UserAuth {
            user_id,
            password_hash,
            mfa_secret: None,
            mfa_method: Some(AuthMethod::Password),
        },
    }
}

/// The credentials after a change of password, from the hash.
pub fn with_password(prior: Option<UserAuth>, user_id: u128, password_hash: String) -> (out: UserAuth)
    ensures
        out == rehashed(prior, user_id, password_hash),
{
    match prior {
        Some(auth) => UserAuth {
            user_id,
            password_hash,
            mfa_secret: auth.mfa_secret,
            mfa_method: auth.mfa_method,
        },
        None => UserAuth {
            user_id,
            password_hash,
            mfa_secret: None,
            mfa_method: Some(AuthMethod::Password),
        },
    }
}

/// What is said of credentials that could not be opened.
pub open spec fn auth_status(e: ProfileError) -> StatusView {
    match e {
        ProfileError::Sealed(text) => status(Code::Internal, "Failed to decode auth: "@ + text@),
        ProfileError::Decryption(text) => status(Code::Internal, "Decryption failed: "@ + text@),
        ProfileError::Content(text) => status(
            Code::Internal,
            "Failed to decode UserAuth: "@ + text@,
        ),
    }
}

/// The credentials that are kept, as they were opened, if there are any.
pub fn prior_auth(row: Option<Result<UserAuth, ProfileError>>) -> (out: Result<
    Option<UserAuth>,
    Status,
>)
    ensures
        match row {
            None => out == Ok::<Option<UserAuth>, Status>(None),
            Some(Ok(auth)) => out == Ok::<Option<UserAuth>, Status>(Some(auth)),
            Some(Err(e)) => out matches Err(s) && s@ == auth_status(e),
        },
{
    match row {
        None => Ok(None),
        Some(Ok(auth)) => Ok(Some(auth)),
        Some(Err(ProfileError::Sealed(text))) => Err(
            Status::with(Code::Internal, "Failed to decode auth: ", text.as_str()),
        ),
        Some(Err(ProfileError::Decryption(text))) => Err(
            Status::with(Code::Internal, "Decryption failed: ", text.as_str()),
        ),
        Some(Err(ProfileError::Content(text))) => Err(
            Status::with(Code::Internal, "Failed to decode UserAuth: ", text.as_str()),
        ),
    }
}

/// The credentials hold the password, and of the prior ones what a change of password keeps.
pub open spec fn is_rehashed(
    auth: UserAuth,
    prior: Option<UserAuth>,
    user_id: u128,
    password: Seq<char>,
) -> bool {
    &&& is_hash_of(auth.password_hash@, password)
    &&& auth == rehashed(prior, user_id, auth.password_hash)
}

/// The credentials after a change of password, under a fresh salt. `row` is what is kept of them,
/// as it was opened.
pub fn update_password(
    row: Option<Result<UserAuth, ProfileError>>,
    user_id: u128,
    password: &str,
) -> (out: Result<UserAuth, Status>)
    ensures
        match row {
            _ if !is_hashable(password@) => out matches Err(e) && hashing_failed(e),
            None => out matches Ok(auth) && is_rehashed(auth, None, user_id, password@),
            Some(Ok(prior)) => out matches Ok(auth) && is_rehashed(
                auth,
                Some(prior),
                user_id,
                password@,
            ),
            Some(Err(failure)) => out matches Err(e) && e@ == auth_status(failure),
        },
{
    let hash: String = match hash_password(password) {
        Ok(hash) => hash,
        Err(e) => {
            return Err(e);
        },
    };
    match prior_auth(row) {
        Ok(prior) => Ok(with_password(prior, user_id, hash)),
        Err(e) => Err(e),
    }
}

/// The password that an update sets; without one the credentials stay as they are kept.
pub fn password_to_set(req: &UpdateUserCall) -> (out: Option<&str>)
    ensures
        str_of(out) == text_of(req.password),
{
    match &req.password {
        Some(password) => Some(password.as_str()),
        None => None,
    }
}

/// The credentials that an update writes anew: some exactly where it sets a password. `row` is what
/// is kept of them, as it was opened, and is looked at only then.
pub fn auth_to_write(
    req: &UpdateUserCall,
    row: Option<Result<UserAuth, ProfileError>>,
    user_id: u128,
) -> (out: Result<Option<UserAuth>, Status>)
    ensures
        match req.password {
            None => out == Ok::<Option<UserAuth>, Status>(None),
            Some(password) => match row {
                _ if !is_hashable(password@) => out matches Err(e) && hashing_failed(e),
                None => out matches Ok(Some(auth)) && is_rehashed(auth, None, user_id, password@),
                Some(Ok(prior)) => out matches Ok(Some(auth)) && is_rehashed(
                    auth,
                    Some(prior),
                    user_id,
                    password@,
                ),
                Some(Err(failure)) => out matches Err(e) && e@ == auth_status(failure),
            },
        },
{
    match password_to_set(req) {
        Some(password) => match update_password(row, user_id, password) {
            Ok(auth) => Ok(Some(auth)),
            Err(e) => Err(e),
        },
        None => Ok(None),
    }
}

// ---- Keeping users ----

/// Why a profile or credentials could not be sealed.
#[derive(Debug)]
pub enum SealError {
    /// They cannot be written.
    Serialization(String),
    /// They cannot be encrypted.
    Encryption(String),
}

/// What is said of what could not be sealed.
pub open spec fn seal_status(e: SealError) -> StatusView {
    match e {
        SealError::Serialization(text) => status(Code::Internal, "Serialization error: "@ + text@),
        SealError::Encryption(text) => status(Code::Internal, "Encryption error: "@ + text@),
    }
}

/// A request to the database to keep a value.
#[derive(Debug, Clone)]
pub struct PutCall {
    pub collection: String,
    pub key: Vec<u8>,
    pub value: Vec<u8>,
}

/// The bytes of what was sealed.
pub fn encrypt_user(sealed: Result<Vec<u8>, SealError>) -> (out: Result<Vec<u8>, Status>)
    ensures
        match sealed {
            Ok(value) => out == Ok::<Vec<u8>, Status>(value),
            Err(e) => out matches Err(s) && s@ == seal_status(e),
        },
{
    match sealed {
        Ok(value) => Ok(value),
        Err(SealError::Serialization(text)) => Err(
            Status::with(Code::Internal, "Serialization error: ", text.as_str()),
        ),
        Err(SealError::Encryption(text)) => Err(
            Status::with(Code::Internal, "Encryption error: ", text.as_str()),
        ),
    }
}

/// The request that keeps a profile, with the profile as it was sealed.
pub fn profile_write(user_id: u128, sealed: Result<Vec<u8>, SealError>) -> (out: Result<
    PutCall,
    Status,
>)
    ensures
        match sealed {
            Ok(value) => out matches Ok(call) && call.collection@ == "users"@ && call.key@
                == id_bytes(user_id) && call.value == value,
            Err(e) => out matches Err(s) && s@ == seal_status(e),
        },
{
    match encrypt_user(sealed) {
        Ok(value) => Ok(
            PutCall { collection: "users".to_owned(), key: profile_key(user_id), value },
        ),
        Err(e) => Err(e),
    }
}

/// The request that keeps credentials, which are found by the user's name.
pub fn auth_write(username: &str, sealed: Result<Vec<u8>, SealError>) -> (out: Result<
    PutCall,
    Status,
>)
    ensures
        match sealed {
            Ok(value) => out matches Ok(call) && call.collection@ == "auth"@ && call.key@
                == encode_utf8("auth:username:"@ + username@) && call.value == value,
            Err(e) => out matches Err(s) && s@ == seal_status(e),
        },
{
    match encrypt_user(sealed) {
        Ok(value) => Ok(
            PutCall { collection: "auth".to_owned(), key: auth_key(username), value },
        ),
        Err(e) => Err(e),
    }
}

/// The request that logs an intrusion, with the event as it was written.
pub fn intrusion_write(timestamp_unix: i64, source_ip: &str, endpoint: &str, value: Vec<u8>) -> (out:
    PutCall)
    ensures
        out.collection@ == "audit"@,
        out.key@ == encode_utf8(
            "intrusion:"@ + dec_int(timestamp_unix as int) + ":"@ + source_ip@ + ":"@ + endpoint@,
        ),
        out.value == value,
{
    PutCall {
        collection: "audit".to_owned(),
        key: intrusion_key(timestamp_unix, source_ip, endpoint),
        value,
    }
}

/// The answer to a report of metrics.
pub fn push_metrics() -> (out: bool)
    ensures
        out,
{
    true
}

} // verus!
