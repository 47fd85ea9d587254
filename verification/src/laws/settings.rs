//! Settings: where services are reached, what is written of them, and how they talk.

use vstd::prelude::*;
use vstd::utf8::encode_utf8;

use crate::discovery::{
    apply_changes, ascending, endpoint_in, moved, reload_once, text_pairs, BackendAddrs,
    InfoVulcanError, Moves, ServiceRegistry,
};
use crate::gateway::error::ApiError;
use crate::gateway::settings::{
    comma_parts, cors_origins, env_or_default, jwt_secret_from_env, listen_address, rate_burst,
    rate_per_second, reload_secs, resolve_backend_addrs, trimmed_parts,
};
use crate::pqc::{KyberCodec, KyberDecoder, KyberEncoder, Opened};
use crate::status::{Code, Status};
use crate::text::{blank, read_unsigned, texts_of, trim};
use crate::tls::{dial_address, settings, to_https, TlsSettings};

verus! {

// ---- Where services are reached ----

/// A name that no entry has is not found.
proof fn unknown_is_not_found(services: Seq<(Seq<char>, Seq<char>)>, service: Seq<char>)
    requires
        forall|i: int| 0 <= i < services.len() ==> (#[trigger] services[i]).0 != service,
    ensures
        endpoint_in(services, service) is None,
    decreases services.len(),
{
    if services.len() > 0 {
        let rest = services.drop_first();
        assert forall|i: int| 0 <= i < rest.len() implies (#[trigger] rest[i]).0 != service by {
            assert(rest[i] == services[i + 1]);
        }
        assert(services[0].0 != service);
        unknown_is_not_found(rest, service);
    }
}

/// A registry finds each service of its table at its endpoint, and no other service.
pub proof fn a_registry_is_its_table(
    table: Vec<(String, String)>,
    reg: ServiceRegistry,
    i: int,
    service: &str,
    out: Option<&str>,
    n: usize,
    empty: bool,
)
    requires
        ascending(text_pairs(table@)),
        call_ensures(ServiceRegistry::of_table, (Some(table),), reg),
        call_ensures(ServiceRegistry::get, (&reg, service), out),
        call_ensures(ServiceRegistry::len, (&reg,), n),
        call_ensures(ServiceRegistry::is_empty, (&reg,), empty),
    ensures
        n == table@.len(),
        empty <==> n == 0,
        0 <= i < table@.len() && service@ == table@[i].0@ ==> (out matches Some(e) && e@
            == table@[i].1@),
        (forall|j: int| 0 <= j < table@.len() ==> (#[trigger] table@[j]).0@ != service@)
            ==> out is None,
{
    let all = text_pairs(table@);
    assert(all.len() == table@.len());
    if 0 <= i < table@.len() {
        crate::discovery::entries_are_found(all, i);
    }
    if forall|j: int| 0 <= j < table@.len() ==> (#[trigger] table@[j]).0@ != service@ {
        assert forall|j: int| 0 <= j < all.len() implies (#[trigger] all[j]).0 != service@ by {
            assert(table@[j].0@ != service@);
        }
        unknown_is_not_found(all, service@);
    }
}

/// A registry without a table finds nothing.
pub proof fn an_empty_registry_finds_nothing(
    a: ServiceRegistry,
    b: ServiceRegistry,
    service: &str,
    x: Option<&str>,
    y: Option<&str>,
)
    requires
        call_ensures(ServiceRegistry::empty, (), a),
        call_ensures(ServiceRegistry::of_table, (None::<Vec<(String, String)>>,), b),
        call_ensures(ServiceRegistry::get, (&a, service), x),
        call_ensures(ServiceRegistry::get, (&b, service), y),
    ensures
        x is None && y is None,
{
}

/// An override counts where it is not blank; else the registry, and where that does not know the
/// service, the default.
pub proof fn an_override_comes_first(
    reg: ServiceRegistry,
    value: &str,
    service: &str,
    default: &str,
    empty: bool,
    found: Option<&str>,
    with: String,
    without: String,
)
    requires
        call_ensures(blank, (value,), empty),
        call_ensures(ServiceRegistry::get, (&reg, service), found),
        call_ensures(ServiceRegistry::resolve_with, (&reg, Some(value), service, default), with),
        call_ensures(
            ServiceRegistry::resolve_with,
            (&reg, None::<&str>, service, default),
            without,
        ),
    ensures
        !empty ==> with@ == value@,
        empty ==> with@ == without@,
        found matches Some(endpoint) ==> without@ == endpoint@,
        found is None ==> without@ == default@,
{
}

/// A file that is not there is told with its path; a file that is there is read as its text is.
pub proof fn a_file_is_read_or_told(
    path: &str,
    text: String,
    source: String,
    words: &str,
    missing: Result<ServiceRegistry, InfoVulcanError>,
    there: Result<ServiceRegistry, InfoVulcanError>,
    read: Result<ServiceRegistry, InfoVulcanError>,
)
    requires
        call_ensures(ServiceRegistry::of_file, (path, Err::<String, String>(text)), missing),
        call_ensures(ServiceRegistry::of_file, (path, Ok::<String, String>(source)), there),
        words@ == source@,
        call_ensures(ServiceRegistry::from_toml_str, (words,), read),
    ensures
        missing matches Err(InfoVulcanError::NotFound(said)) && said@ == "services.toml at "@ + path@
            + ": "@ + text@,
        there is Ok <==> read is Ok,
        there matches Ok(a) ==> (read matches Ok(b) && a@ =~= b@),
        there matches Err(e) ==> (e matches InfoVulcanError::ValidationError(said)
            && "invalid services.toml: "@.is_prefix_of(said@)),
{
    if there is Ok && read is Ok {
        assert(there->Ok_0@.len() == 0 && read->Ok_0@.len() == 0 || there->Ok_0@ == read->Ok_0@);
    }
}

/// The gateway's backends are the services of their names, each with its own override and its own
/// default.
pub proof fn backends_are_services(
    reg: ServiceRegistry,
    auth: Option<&str>,
    admin: Option<&str>,
    custodian: Option<&str>,
    out: BackendAddrs,
    a: String,
    b: String,
    c: String,
)
    requires
        call_ensures(BackendAddrs::from_registry, (&reg, auth, admin, custodian), out),
        call_ensures(ServiceRegistry::resolve_with, (&reg, auth, "auth", "http://auth:8082"), a),
        call_ensures(ServiceRegistry::resolve_with, (&reg, admin, "admin", "http://admin:8083"), b),
        call_ensures(
            ServiceRegistry::resolve_with,
            (&reg, custodian, "custodian", "http://custodian-leader:8081"),
            c,
        ),
    ensures
        out.auth@ == a@ && out.admin@ == b@ && out.custodian@ == c@,
{
}

/// A backend moved where its address is another, and only those that moved and could be connected
/// are redirected, in their order.
pub proof fn what_moved_is_redirected(
    current: BackendAddrs,
    next: BackendAddrs,
    done: Moves,
    moves: Moves,
    out: Vec<&'static str>,
    same: bool,
)
    requires
        call_ensures(moved, (&current, &next), moves),
        call_ensures(apply_changes, (&current, &next, done), out),
        call_ensures(BackendAddrs::same_as, (&current, &next), same),
    ensures
        moves.auth <==> current.auth@ != next.auth@,
        moves.admin <==> current.admin@ != next.admin@,
        moves.custodian <==> current.custodian@ != next.custodian@,
        same <==> !moves.auth && !moves.admin && !moves.custodian,
        out@.len() == (if moves.auth && done.auth {
            1int
        } else {
            0
        }) + (if moves.admin && done.admin {
            1int
        } else {
            0
        }) + (if moves.custodian && done.custodian {
            1int
        } else {
            0
        }),
        moves.auth && done.auth ==> out@[0]@ == "auth"@,
        moves.custodian && done.custodian ==> out@.last()@ == "custodian"@,
        moves.admin && done.admin ==> out@[if moves.auth && done.auth {
            1int
        } else {
            0
        }]@ == "admin"@,
{
    let names = crate::discovery::names_of(out@);
    assert(names.len() == out@.len());
    if out@.len() > 0 {
        assert(names[0] == out@[0]@);
        assert(names.last() == out@.last()@);
    }
    if out@.len() > 1 {
        assert(names[1] == out@[1]@);
    }
}

/// After a look at the file the backends are those of the registry, but one that moved and could
/// not be connected stays where it was. A file that cannot be read changes nothing.
pub proof fn a_reload_moves_what_can_be_reached(
    current: BackendAddrs,
    reg: ServiceRegistry,
    e: InfoVulcanError,
    auth: Option<&str>,
    admin: Option<&str>,
    custodian: Option<&str>,
    done: Moves,
    next: BackendAddrs,
    out: BackendAddrs,
    kept: BackendAddrs,
)
    requires
        call_ensures(BackendAddrs::from_registry, (&reg, auth, admin, custodian), next),
        call_ensures(
            reload_once,
            (
                current,
                Ok::<ServiceRegistry, InfoVulcanError>(reg),
                auth,
                admin,
                custodian,
                done,
            ),
            out,
        ),
        call_ensures(
            reload_once,
            (
                current,
                Err::<ServiceRegistry, InfoVulcanError>(e),
                auth,
                admin,
                custodian,
                done,
            ),
            kept,
        ),
    ensures
        done.auth ==> out.auth@ == next.auth@,
        !done.auth ==> out.auth@ == current.auth@,
        done.admin ==> out.admin@ == next.admin@,
        !done.admin ==> out.admin@ == current.admin@,
        done.custodian ==> out.custodian@ == next.custodian@,
        !done.custodian ==> out.custodian@ == current.custodian@,
        kept.auth@ == current.auth@ && kept.admin@ == current.admin@ && kept.custodian@
            == current.custodian@,
{
}

/// Two registries are the same where they say the same.
pub proof fn registries_are_compared(a: ServiceRegistry, b: ServiceRegistry, out: bool, service: &str, x: Option<&str>, y: Option<&str>)
    requires
        call_ensures(ServiceRegistry::same_as, (&a, &b), out),
        call_ensures(ServiceRegistry::get, (&a, service), x),
        call_ensures(ServiceRegistry::get, (&b, service), y),
    ensures
        out <==> a@ == b@,
        out ==> (x is Some <==> y is Some),
        out && x is Some ==> x->0@ == y->0@,
{
}

// ---- Written settings ----

/// A text that is set is taken, and where none is set the default.
pub proof fn a_set_text_is_taken(
    text: String,
    default: &str,
    a: String,
    b: String,
    c: String,
    d: String,
    e: Vec<u8>,
    f: Vec<u8>,
)
    requires
        call_ensures(env_or_default, (Some(text), default), a),
        call_ensures(env_or_default, (None::<String>, default), b),
        call_ensures(listen_address, (Some(text),), c),
        call_ensures(listen_address, (None::<String>,), d),
        call_ensures(jwt_secret_from_env, (Some(text),), e),
        call_ensures(jwt_secret_from_env, (None::<String>,), f),
    ensures
        a@ == text@ && b@ == default@,
        c@ == text@ && d@ == "0.0.0.0:8080"@,
        e@ == encode_utf8(text@) && f@ == encode_utf8("secret"@),
{
}

/// The backends are where they are set to be, and each by itself where nothing is set.
pub proof fn backends_are_where_they_are_set(
    a: String,
    b: String,
    c: String,
    set: (String, String, String),
    usual: (String, String, String),
)
    requires
        call_ensures(resolve_backend_addrs, (Some(a), Some(b), Some(c)), set),
        call_ensures(
            resolve_backend_addrs,
            (None::<String>, None::<String>, None::<String>),
            usual,
        ),
    ensures
        set.0@ == a@ && set.1@ == b@ && set.2@ == c@,
        usual.0@ == "http://auth:8082"@ && usual.1@ == "http://admin:8083"@ && usual.2@
            == "http://custodian-leader:8081"@,
{
}

/// A number that is set is taken, and where none is set, or no number, or too large a one, the
/// default: a look every thirty seconds, ten requests a second, thirty at once.
pub proof fn a_set_number_is_taken(
    text: String,
    words: &str,
    n: Option<u64>,
    m: Option<u64>,
    a: u64,
    b: u64,
    c: u32,
    x: u64,
    y: u64,
    z: u32,
)
    requires
        words@ == text@,
        call_ensures(read_unsigned, (words, u64::MAX), n),
        call_ensures(read_unsigned, (words, u32::MAX as u64), m),
        call_ensures(reload_secs, (Some(text),), a),
        call_ensures(rate_per_second, (Some(text),), b),
        call_ensures(rate_burst, (Some(text),), c),
        call_ensures(reload_secs, (None::<String>,), x),
        call_ensures(rate_per_second, (None::<String>,), y),
        call_ensures(rate_burst, (None::<String>,), z),
    ensures
        x == 30 && y == 10 && z == 30,
        n matches Some(k) ==> a == k && b == k,
        n is None ==> a == 30 && b == 10,
        m matches Some(k) ==> c == k,
        m is None ==> c == 30,
{
}

proof fn parts_come_together(a: Seq<char>, b: Seq<char>)
    ensures
        comma_parts(a + seq![','] + b) == comma_parts(a) + comma_parts(b),
        comma_parts(b).len() > 0,
    decreases b.len(),
{
    let whole = a + seq![','] + b;
    if b.len() == 0 {
        assert(whole.drop_last() =~= a);
        assert(whole.last() == ',');
        assert(comma_parts(a).push(Seq::empty()) =~= comma_parts(a) + comma_parts(b));
    } else {
        parts_come_together(a, b.drop_last());
        assert(whole.drop_last() =~= a + seq![','] + b.drop_last());
        assert(whole.last() == b.last());
        let before = comma_parts(b.drop_last());
        let joined = comma_parts(a) + before;
        if b.last() == ',' {
            assert(joined.push(Seq::empty()) =~= comma_parts(a) + before.push(Seq::empty()));
        } else {
            assert(joined.last() == before.last());
            assert(joined.drop_last() =~= comma_parts(a) + before.drop_last());
            assert(joined.drop_last().push(joined.last().push(b.last())) =~= comma_parts(a)
                + before.drop_last().push(before.last().push(b.last())));
        }
    }
}

proof fn no_comma_is_one_part(s: Seq<char>)
    requires
        forall|i: int| 0 <= i < s.len() ==> #[trigger] s[i] != ',',
    ensures
        comma_parts(s) == seq![s],
    decreases s.len(),
{
    if s.len() > 0 {
        let rest = s.drop_last();
        assert forall|i: int| 0 <= i < rest.len() implies #[trigger] rest[i] != ',' by {
            assert(rest[i] == s[i]);
        }
        no_comma_is_one_part(rest);
        assert(s[s.len() - 1] != ',');
        assert(rest.push(s.last()) =~= s);
        assert(comma_parts(s) =~= seq![s]);
    } else {
        assert(s =~= Seq::empty());
        assert(comma_parts(s) =~= seq![s]);
    }
}

/// Origins are what stands between commas: those of two lists with a comma between are those of the
/// first and then those of the second.
pub proof fn origins_stand_between_commas(
    a: String,
    b: String,
    both: String,
    x: Vec<String>,
    y: Vec<String>,
    out: Option<Vec<String>>,
    i: int,
)
    requires
        both@ == a@ + seq![','] + b@,
        call_ensures(cors_origins, (Some(a),), Some(x)),
        call_ensures(cors_origins, (Some(b),), Some(y)),
        call_ensures(cors_origins, (Some(both),), out),
    ensures
        out matches Some(z) && z@.len() == x@.len() + y@.len() && (0 <= i < x@.len() ==> z@[i]@
            == x@[i]@) && (0 <= i < y@.len() ==> z@[x@.len() + i]@ == y@[i]@),
{
    parts_come_together(a@, b@);
    if crate::text::is_blank(both@) {
        let front = crate::laws::plain::space_goes_in_front(both@);
        let back = crate::laws::plain::space_goes_behind(crate::text::trim_start(both@));
        assert(both@[a@.len() as int] == ',');
        if a@.len() < front.len() {
            assert(front[a@.len() as int] == ',');
        } else {
            assert(back[a@.len() - front.len()] == ',');
        }
    }
    let z = out->0;
    let (p, q, r) = (texts_of(x@), texts_of(y@), texts_of(z@));
    assert(p.len() == x@.len() && q.len() == y@.len() && r.len() == z@.len());
    assert(r == trimmed_parts(both@));
    assert(p == trimmed_parts(a@) && q == trimmed_parts(b@));
    if 0 <= i < x@.len() {
        assert(r[i] == p[i]);
    }
    if 0 <= i < y@.len() {
        assert(r[x@.len() + i] == q[i]);
    }
}

/// A text without a comma is one origin, without the white space round it; a blank one allows any.
pub proof fn one_origin_is_trimmed(
    text: String,
    words: &str,
    empty: bool,
    one: &str,
    out: Option<Vec<String>>,
    none: Option<Vec<String>>,
)
    requires
        words@ == text@,
        call_ensures(blank, (words,), empty),
        call_ensures(trim, (words,), one),
        call_ensures(cors_origins, (Some(text),), out),
        call_ensures(cors_origins, (None::<String>,), none),
    ensures
        none is None,
        out is None <==> empty,
        !empty && (forall|i: int| 0 <= i < text@.len() ==> #[trigger] text@[i] != ',') ==> out->0@.len()
            == 1 && out->0@[0]@ == one@,
{
    if !empty && (forall|i: int| 0 <= i < text@.len() ==> #[trigger] text@[i] != ',') {
        no_comma_is_one_part(text@);
        let shown = texts_of(out->0@);
        assert(shown.len() == out->0@.len());
        assert(shown[0] == out->0@[0]@);
    }
}

// ---- Encrypted channels ----

/// Encryption is set where all three paths are; the domain is this machine's where none is set.
pub proof fn encryption_needs_three_paths(
    ca: Option<String>,
    cert: Option<String>,
    key: Option<String>,
    domain: Option<String>,
    out: Option<TlsSettings>,
    on: bool,
)
    requires
        call_ensures(settings, (ca, cert, key, domain), out),
        call_ensures(crate::tls::enabled, (ca is Some, cert is Some, key is Some), on),
    ensures
        on <==> ca is Some && cert is Some && key is Some,
        out is Some <==> on,
        out matches Some(s) ==> s.ca_path@ == ca->0@ && s.cert_path@ == cert->0@ && s.key_path@
            == key->0@,
        out matches Some(s) ==> (domain matches Some(name) ==> s.domain@ == name@),
        out matches Some(s) ==> (domain is None ==> s.domain@ == "localhost"@),
{
}

/// An address is dialled as it is; with encryption on, the plain scheme is replaced by the encrypted
/// one, and an address without the plain scheme stays.
pub proof fn addresses_are_secured(
    addr: &str,
    rest: Seq<char>,
    plain: String,
    secure: String,
    https: String,
)
    requires
        call_ensures(dial_address, (addr, false), plain),
        call_ensures(dial_address, (addr, true), secure),
        call_ensures(to_https, (addr,), https),
    ensures
        plain@ == addr@,
        secure@ == https@,
        addr@ == "http://"@ + rest ==> https@ == "https://"@ + rest,
        !"http://"@.is_prefix_of(addr@) ==> https@ == addr@,
{
    if addr@ == "http://"@ + rest {
        assert(addr@.take("http://"@.len() as int) =~= "http://"@);
        assert(addr@.skip("http://"@.len() as int) =~= rest);
    }
}

// ---- Sealed bodies ----

/// A codec seals with the first key it is given and opens with the second.
pub proof fn a_codec_keeps_its_keys<E, D>(
    a: Vec<u8>,
    b: Vec<u8>,
    codec: KyberCodec<E, D>,
    encoder: KyberEncoder<E>,
    decoder: KyberDecoder<D>,
    seal: &Vec<u8>,
    open: &Vec<u8>,
    on: bool,
    x: bool,
    y: bool,
)
    requires
        call_ensures(KyberCodec::<E, D>::new, (a, b), codec),
        call_ensures(KyberCodec::<E, D>::encoder, (&codec,), encoder),
        call_ensures(KyberCodec::<E, D>::decoder, (&codec,), decoder),
        call_ensures(KyberEncoder::<E>::seal_to, (&encoder,), seal),
        call_ensures(KyberDecoder::<D>::open_with, (&decoder,), open),
        call_ensures(crate::pqc::enabled, (x, y), on),
    ensures
        seal@ == a@ && open@ == b@,
        on <==> x && y,
{
}

/// A sealed body is sent as it is, and one that is received is opened whole; what cannot be sealed,
/// opened or read is told as that.
pub proof fn bodies_are_handed_on<E, D>(
    encoder: KyberEncoder<E>,
    decoder: KyberDecoder<D>,
    bytes: Vec<u8>,
    text: String,
    received: &[u8],
    message: D,
    sent: Result<Vec<u8>, Status>,
    unsent: Result<Vec<u8>, Status>,
    frame: Option<Vec<u8>>,
    nothing: Result<Option<D>, Status>,
    read: Result<Option<D>, Status>,
    closed: Result<Option<D>, Status>,
    garbled: Result<Option<D>, Status>,
)
    requires
        call_ensures(KyberEncoder::<E>::encode, (&encoder, Ok::<Vec<u8>, String>(bytes)), sent),
        call_ensures(KyberEncoder::<E>::encode, (&encoder, Err::<Vec<u8>, String>(text)), unsent),
        call_ensures(KyberDecoder::<D>::frame, (&decoder, received), frame),
        call_ensures(KyberDecoder::<D>::decode, (&decoder, None::<Opened<D>>), nothing),
        call_ensures(
            KyberDecoder::<D>::decode,
            (&decoder, Some(Opened::<D>::Message(message))),
            read,
        ),
        call_ensures(KyberDecoder::<D>::decode, (&decoder, Some(Opened::<D>::Sealed(text))), closed),
        call_ensures(
            KyberDecoder::<D>::decode,
            (&decoder, Some(Opened::<D>::Unreadable(text))),
            garbled,
        ),
    ensures
        sent matches Ok(b) && b@ == bytes@,
        unsent matches Err(e) && e.code == Code::Internal && e.message@ == "pqc seal: "@ + text@,
        frame is None <==> received@.len() == 0,
        frame matches Some(b) ==> b@ == received@,
        nothing matches Ok(None),
        read == Ok::<Option<D>, Status>(Some(message)),
        closed matches Err(e) && e.code == Code::Internal && e.message@ == "pqc open: "@ + text@,
        garbled matches Err(e) && e.code == Code::Internal && e.message@ == "decode: "@ + text@,
{
}

// ---- Errors of the REST interface ----

/// A failed call becomes an error with its words, its own word for machines, and the HTTP status
/// for it; what has none of its own is an internal error.
pub proof fn failed_calls_become_errors(s: Status, out: ApiError)
    requires
        call_ensures(ApiError::from, (s,), out),
    ensures
        out.message@ == s.message@,
        s.code is Unauthenticated ==> out.status == 401 && out.code@ == "unauthenticated"@,
        s.code is PermissionDenied ==> out.status == 403 && out.code@ == "permission_denied"@,
        s.code is InvalidArgument ==> out.status == 400 && out.code@ == "invalid_argument"@,
        s.code is NotFound ==> out.status == 404 && out.code@ == "not_found"@,
        s.code is Unavailable ==> out.status == 503 && out.code@ == "unavailable"@,
        !(s.code is Unauthenticated || s.code is PermissionDenied || s.code is InvalidArgument
            || s.code is NotFound || s.code is Unavailable) ==> out.status == 500 && out.code@
            == "internal"@,
{
}

/// Errors of the gateway itself have the same words and statuses.
pub proof fn errors_of_the_gateway(
    message: &str,
    n: u16,
    word: &'static str,
    a: ApiError,
    b: ApiError,
    c: ApiError,
    d: ApiError,
)
    requires
        call_ensures(ApiError::unauthorized, (message,), a),
        call_ensures(ApiError::internal, (message,), b),
        call_ensures(ApiError::not_found, (message,), c),
        call_ensures(ApiError::new, (n, word, message), d),
    ensures
        a.status == 401 && a.code@ == "unauthenticated"@ && a.message@ == message@,
        b.status == 500 && b.code@ == "internal"@ && b.message@ == message@,
        c.status == 404 && c.code@ == "not_found"@ && c.message@ == message@,
        d.status == n && d.code@ == word@ && d.message@ == message@,
{
}

} // verus!
