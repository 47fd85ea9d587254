//! Service discovery by a file: which service is reached where, and what a reload of the file
//! changes.

use std::collections::BTreeMap;

use vstd::prelude::*;
use vstd::string::*;

use crate::text::{blank, concat2, is_blank, same, str_of, text_lt};

verus! {

/// Why a registry could not be had.
#[derive(Debug)]
pub enum InfoVulcanError {
    /// The file is not there.
    NotFound(String),
    /// The file does not hold what it should.
    ValidationError(String),
}

#[verifier::external_type_specification]
#[verifier::external_body]
pub struct ExTomlError(toml::de::Error);

#[verifier::external_type_specification]
#[verifier::external_body]
pub struct ExTomlValue<'i>(toml::de::ValueDeserializer<'i>);

/// The views of a list of pairs of texts.
pub open spec fn text_pairs(v: Seq<(String, String)>) -> Seq<(Seq<char>, Seq<char>)> {
    Seq::new(v.len(), |i: int| (v[i].0@, v[i].1@))
}

/// The keys are in strictly ascending order.
pub open spec fn ascending(v: Seq<(Seq<char>, Seq<char>)>) -> bool {
    forall|i: int, j: int| 0 <= i < j < v.len() ==> text_lt((#[trigger] v[i]).0, (#[trigger] v[j]).0)
}

/// What can be read from a value of a TOML document.
#[verifier::ext_equal]
pub struct TomlView {
    /// It can be passed over.
    pub ignorable: bool,
    /// Its entries in the order of their keys, where it is a table of texts.
    pub texts: Option<Seq<(Seq<char>, Seq<char>)>>,
}

/// What a TOML value holds: whether `serde::de::IgnoredAny` can be read from it, and the ordered map
/// of texts that can, if there is one.
pub uninterp spec fn toml_value(value: toml::de::ValueDeserializer<'_>) -> TomlView;

/// The entries of the document that `toml::de::DeTable::parse` reads from a text, if the text is
/// one.
pub uninterp spec fn toml_document(source: Seq<char>) -> Option<Seq<(Seq<char>, TomlView)>>;

/// The keys of a list of entries, and what their values hold.
pub open spec fn toml_entries(v: Seq<(String, toml::de::ValueDeserializer<'_>)>) -> Seq<
    (Seq<char>, TomlView),
> {
    Seq::new(v.len(), |i: int| (v[i].0@, toml_value(v[i].1)))
}

/// Calls `toml::de::DeTable::parse`, and hands out the entries of the table, each value ready to be
/// read: what they hold is a function of the text.
#[verifier::external_body]
fn parse_document(source: &str) -> (out: Result<
    Vec<(String, toml::de::ValueDeserializer<'_>)>,
    toml::de::Error,
>)
    ensures
        match out {
            Ok(entries) => toml_document(source@) == Some(toml_entries(entries@)),
            Err(_) => toml_document(source@) is None,
        },
{
    let table = toml::de::DeTable::parse(source)?.into_inner();
    Ok(table.into_iter().map(|(key, value)| (key.into_inner().into_owned(), value.into())).collect())
}

/// Calls `serde::Deserialize::deserialize` for an ordered map of texts.
#[verifier::external_body]
fn read_texts(value: toml::de::ValueDeserializer<'_>) -> (out: Result<
    Vec<(String, String)>,
    toml::de::Error,
>)
    ensures
        match out {
            Ok(table) => toml_value(value).texts == Some(text_pairs(table@)) && ascending(
                text_pairs(table@),
            ),
            Err(_) => toml_value(value).texts is None,
        },
{
    let table = <BTreeMap<String, String> as serde::Deserialize>::deserialize(value)?;
    Ok(table.into_iter().collect())
}

/// Calls `serde::Deserialize::deserialize` for `serde::de::IgnoredAny`, which takes every value that
/// can be read at all.
#[verifier::external_body]
fn pass_over(value: toml::de::ValueDeserializer<'_>) -> (out: Result<(), toml::de::Error>)
    ensures
        out is Ok == toml_value(value).ignorable,
{
    <serde::de::IgnoredAny as serde::Deserialize>::deserialize(value).map(|_| ())
}

/// The `services` table among the entries of a document: `None` where it is no table of texts or
/// another entry cannot be passed over, `Some(None)` where there is no such table.
pub open spec fn services_among(entries: Seq<(Seq<char>, TomlView)>) -> Option<
    Option<Seq<(Seq<char>, Seq<char>)>>,
>
    decreases entries.len(),
{
    if entries.len() == 0 {
        Some(None)
    } else {
        let (key, value) = entries.last();
        match services_among(entries.drop_last()) {
            None => None,
            Some(_) if key == "services"@ => match value.texts {
                Some(table) => Some(Some(table)),
                None => None,
            },
            Some(found) => if value.ignorable {
                Some(found)
            } else {
                None
            },
        }
    }
}

/// The `services` table of a TOML document: `None` where the text is no document that can be read,
/// `Some(None)` where there is no such table.
pub open spec fn services_in(source: Seq<char>) -> Option<Option<Seq<(Seq<char>, Seq<char>)>>> {
    match toml_document(source) {
        Some(entries) => services_among(entries),
        None => None,
    }
}

/// What cannot be read before an entry cannot be read after it.
proof fn unread_stays_unread(entries: Seq<(Seq<char>, TomlView)>, n: int)
    requires
        0 <= n <= entries.len(),
        services_among(entries.take(n)) is None,
    ensures
        services_among(entries) is None,
    decreases entries.len() - n,
{
    if n < entries.len() {
        assert(entries.take(n + 1).drop_last() =~= entries.take(n));
        unread_stays_unread(entries, n + 1);
    } else {
        assert(entries.take(n) =~= entries);
    }
}

/// Calls `to_string` on a `toml::de::Error`. Nothing is said of the text.
#[verifier::external_body]
fn toml_error_text(error: &toml::de::Error) -> (out: String) {
    error.to_string()
}

fn invalid(error: &toml::de::Error) -> (out: InfoVulcanError)
    ensures
        out matches InfoVulcanError::ValidationError(text) && "invalid services.toml: "@.is_prefix_of(
            text@,
        ),
{
    let message: String = toml_error_text(error);
    let text: String = concat2("invalid services.toml: ", message.as_str());
    assert(text@.take("invalid services.toml: "@.len() as int) =~= "invalid services.toml: "@);
    InfoVulcanError::ValidationError(text)
}

/// The views of the pairs of a table, if there is one.
pub open spec fn opt_table(table: Option<Vec<(String, String)>>) -> Option<
    Seq<(Seq<char>, Seq<char>)>,
> {
    match table {
        Some(t) => Some(text_pairs(t@)),
        None => None,
    }
}

/// The endpoint of a service in a list of them.
pub open spec fn endpoint_in(services: Seq<(Seq<char>, Seq<char>)>, service: Seq<char>) -> Option<
    Seq<char>,
>
    decreases services.len(),
{
    if services.len() == 0 {
        None
    } else if services[0].0 == service {
        Some(services[0].1)
    } else {
        endpoint_in(services.drop_first(), service)
    }
}

/// Logical service names and the endpoints they are reached at.
#[derive(Clone, Debug, PartialEq, Eq)]
pub struct ServiceRegistry {
    services: Vec<(String, String)>,
}

impl View for ServiceRegistry {
    type V = Seq<(Seq<char>, Seq<char>)>;

    /// The services in the order of their names.
    closed spec fn view(&self) -> Seq<(Seq<char>, Seq<char>)> {
        text_pairs(self.services@)
    }
}

impl ServiceRegistry {
    /// The names are in strictly ascending order, so none occurs twice.
    pub open spec fn wf(&self) -> bool {
        ascending(self@)
    }

    /// A registry of nothing.
    pub fn empty() -> (out: Self)
        ensures
            out.wf(),
            out@.len() == 0,
    {
        ServiceRegistry { services: Vec::new() }
    }

    /// The registry with the table that was read, if there was one.
    pub fn of_table(table: Option<Vec<(String, String)>>) -> (out: Self)
        requires
            table matches Some(t) ==> ascending(text_pairs(t@)),
        ensures
            out.wf(),
            out@ == (match table {
                Some(t) => text_pairs(t@),
                None => Seq::empty(),
            }),
    {
        match table {
            Some(services) => ServiceRegistry { services },
            None => {
                let out = ServiceRegistry { services: Vec::new() };
                assert(out@ =~= Seq::empty());
                out
            },
        }
    }

    /// Reads a registry from the text of a TOML document: its `services` table, which may be
    /// missing.
    pub fn from_toml_str(source: &str) -> (out: Result<Self, InfoVulcanError>)
        ensures
            match services_in(source@) {
                Some(Some(table)) => out matches Ok(reg) && reg.wf() && reg@ == table,
                Some(None) => out matches Ok(reg) && reg.wf() && reg@.len() == 0,
                None => out matches Err(InfoVulcanError::ValidationError(text))
                    && "invalid services.toml: "@.is_prefix_of(text@),
            },
    {
        let mut entries: Vec<(String, toml::de::ValueDeserializer<'_>)> = match parse_document(
            source,
        ) {
            Ok(entries) => entries,
            Err(e) => {
                return Err(invalid(&e));
            },
        };
        let ghost all = toml_entries(entries@);
        let mut table: Option<Vec<(String, String)>> = None;
        let ghost mut i: int = 0;
        assert(all.skip(0) =~= all);
        while entries.len() > 0
            invariant
                0 <= i <= all.len(),
                toml_document(source@) == Some(all),
                toml_entries(entries@) == all.skip(i),
                services_among(all.take(i)) == Some(opt_table(table)),
                table matches Some(t) ==> ascending(text_pairs(t@)),
            decreases entries@.len(),
        {
            let ghost held = entries@;
            let (key, value) = entries.remove(0);
            proof {
                assert(toml_entries(held).len() == entries@.len() + 1);
                assert(all[i] == toml_entries(held)[0]);
                assert(all.take(i + 1).drop_last() =~= all.take(i));
                assert forall|j: int| 0 <= j < entries@.len() implies toml_entries(entries@)[j]
                    == #[trigger] all.skip(i + 1)[j] by {
                    assert(toml_entries(held)[j + 1] == all.skip(i)[j + 1]);
                    assert(entries@[j] == held[j + 1]);
                }
                assert(toml_entries(entries@) =~= all.skip(i + 1));
            }
            let read: Result<Option<Vec<(String, String)>>, toml::de::Error> = if same(
                key.as_str(),
                "services",
            ) {
                match read_texts(value) {
                    Ok(texts) => Ok(Some(texts)),
                    Err(e) => Err(e),
                }
            } else {
                match pass_over(value) {
                    Ok(()) => Ok(table),
                    Err(e) => Err(e),
                }
            };
            table = match read {
                Ok(found) => found,
                Err(e) => {
                    proof {
                        unread_stays_unread(all, i + 1);
                    }
                    return Err(invalid(&e));
                },
            };
            proof {
                i = i + 1;
            }
        }
        assert(all.take(i) =~= all);
        Ok(ServiceRegistry::of_table(table))
    }

    /// The registry of a file that was read, or why it could not be.
    pub fn of_file(path: &str, contents: Result<String, String>) -> (out: Result<
        Self,
        InfoVulcanError,
    >)
        ensures
            match contents {
                Err(e) => out matches Err(InfoVulcanError::NotFound(text)) && text@
                    == "services.toml at "@ + path@ + ": "@ + e@,
                Ok(source) => match services_in(source@) {
                    Some(Some(table)) => out matches Ok(reg) && reg.wf() && reg@ == table,
                    Some(None) => out matches Ok(reg) && reg.wf() && reg@.len() == 0,
                    None => out matches Err(InfoVulcanError::ValidationError(text))
                        && "invalid services.toml: "@.is_prefix_of(text@),
                },
            },
    {
        match contents {
            Ok(source) => ServiceRegistry::from_toml_str(source.as_str()),
            Err(e) => {
                let mut text: String = concat2("services.toml at ", path);
                text.append(": ");
                text.append(e.as_str());
                Err(InfoVulcanError::NotFound(text))
            },
        }
    }

    /// The endpoint of a service, if there is one.
    pub fn get(&self, service: &str) -> (out: Option<&str>)
        ensures
            str_of(out) == endpoint_in(self@, service@),
    {
        let ghost all = self@;
        let mut i: usize = 0;
        assert(all.skip(0) =~= all);
        while i < self.services.len()
            invariant
                i <= self.services@.len(),
                all == text_pairs(self.services@),
                endpoint_in(all, service@) == endpoint_in(all.skip(i as int), service@),
            decreases self.services@.len() - i,
        {
            assert(all.skip(i as int)[0] == all[i as int]);
            if same(self.services[i].0.as_str(), service) {
                return Some(self.services[i].1.as_str());
            }
            assert(all.skip(i as int).drop_first() =~= all.skip(i + 1));
            i = i + 1;
        }
        None
    }

    /// How many services there are.
    pub fn len(&self) -> (out: usize)
        ensures
            out == self@.len(),
    {
        self.services.len()
    }

    /// Whether there are no services.
    pub fn is_empty(&self) -> (out: bool)
        ensures
            out == (self@.len() == 0),
    {
        self.services.is_empty()
    }

    /// The endpoint of a service: the override where it is not blank, else the registry's, else
    /// the default.
    pub fn resolve_with(&self, override_value: Option<&str>, service: &str, default: &str) -> (out:
        String)
        ensures
            out@ == resolved(self@, str_of(override_value), service@, default@),
    {
        if let Some(value) = override_value {
            if !blank(value) {
                return value.to_owned();
            }
        }
        match self.get(service) {
            Some(endpoint) => endpoint.to_owned(),
            None => default.to_owned(),
        }
    }

    /// Whether another registry says the same.
    pub fn same_as(&self, other: &ServiceRegistry) -> (out: bool)
        ensures
            out == (self@ == other@),
    {
        if self.services.len() != other.services.len() {
            assert(self@.len() != other@.len());
            return false;
        }
        let mut i: usize = 0;
        while i < self.services.len()
            invariant
                i <= self.services@.len(),
                self.services@.len() == other.services@.len(),
                forall|j: int| 0 <= j < i ==> self@[j] == other@[j],
            decreases self.services@.len() - i,
        {
            if !same(self.services[i].0.as_str(), other.services[i].0.as_str()) || !same(
                self.services[i].1.as_str(),
                other.services[i].1.as_str(),
            ) {
                assert(self@[i as int] != other@[i as int]);
                return false;
            }
            i = i + 1;
        }
        assert(self@ =~= other@);
        true
    }
}

impl Default for ServiceRegistry {
    fn default() -> (out: Self)
        ensures
            out.wf(),
            out@.len() == 0,
    {
        ServiceRegistry::empty()
    }
}

/// The endpoint of a service: the override where it is not blank, else the registry's, else the
/// default.
pub open spec fn resolved(
    services: Seq<(Seq<char>, Seq<char>)>,
    override_value: Option<Seq<char>>,
    service: Seq<char>,
    default: Seq<char>,
) -> Seq<char> {
    match override_value {
        Some(value) if !is_blank(value) => value,
        _ => match endpoint_in(services, service) {
            Some(endpoint) => endpoint,
            None => default,
        },
    }
}

/// Of a well-formed registry every entry can be found by its name.
pub proof fn entries_are_found(services: Seq<(Seq<char>, Seq<char>)>, i: int)
    requires
        ascending(services),
        0 <= i < services.len(),
    ensures
        endpoint_in(services, services[i].0) == Some(services[i].1),
    decreases services.len(),
{
    if i > 0 {
        let rest = services.drop_first();
        assert(ascending(rest)) by {
            assert forall|a: int, b: int| 0 <= a < b < rest.len() implies text_lt(
                (#[trigger] rest[a]).0,
                (#[trigger] rest[b]).0,
            ) by {
                assert(rest[a] == services[a + 1] && rest[b] == services[b + 1]);
            }
        }
        assert(rest[i - 1] == services[i]);
        assert(text_lt(services[0].0, services[i].0));
        crate::bytes::lex_lt_irreflexive(vstd::utf8::encode_utf8(services[0].0));
        entries_are_found(rest, i - 1);
    }
}

/// An override that is not blank wins over everything, and without one the registry wins over the
/// default.
pub proof fn precedence_of_endpoints(
    services: Seq<(Seq<char>, Seq<char>)>,
    value: Seq<char>,
    service: Seq<char>,
    default: Seq<char>,
)
    ensures
        !is_blank(value) ==> resolved(services, Some(value), service, default) == value,
        is_blank(value) ==> resolved(services, Some(value), service, default) == resolved(
            services,
            None,
            service,
            default,
        ),
        endpoint_in(services, service) matches Some(endpoint) ==> resolved(
            services,
            None,
            service,
            default,
        ) == endpoint,
        endpoint_in(services, service) is None ==> resolved(services, None, service, default)
            == default,
{
}

// ---- The gateway's backends ----

/// Where the gateway reaches its three backends.
#[derive(Clone, Debug, PartialEq, Eq)]
pub struct BackendAddrs {
    pub auth: String,
    pub admin: String,
    pub custodian: String,
}

/// Where the gateway reaches its three backends, as text.
#[verifier::ext_equal]
pub struct BackendView {
    pub auth: Seq<char>,
    pub admin: Seq<char>,
    pub custodian: Seq<char>,
}

impl View for BackendAddrs {
    type V = BackendView;

    open spec fn view(&self) -> BackendView {
        BackendView { auth: self.auth@, admin: self.admin@, custodian: self.custodian@ }
    }
}

/// The backends by a registry and overrides.
pub open spec fn backends_of(
    services: Seq<(Seq<char>, Seq<char>)>,
    auth: Option<Seq<char>>,
    admin: Option<Seq<char>>,
    custodian: Option<Seq<char>>,
) -> BackendView {
    BackendView {
        auth: resolved(services, auth, "auth"@, BackendAddrs::DEFAULT_AUTH@),
        admin: resolved(services, admin, "admin"@, BackendAddrs::DEFAULT_ADMIN@),
        custodian: resolved(services, custodian, "custodian"@, BackendAddrs::DEFAULT_CUSTODIAN@),
    }
}

impl BackendAddrs {
    /// Where the authentication service is by itself.
    pub const DEFAULT_AUTH: &'static str = "http://auth:8082";

    /// Where the administration service is by itself.
    pub const DEFAULT_ADMIN: &'static str = "http://admin:8083";

    /// Where the custodian is by itself.
    pub const DEFAULT_CUSTODIAN: &'static str = "http://custodian-leader:8081";

    /// The backends by a registry, each with its override.
    pub fn from_registry(
        reg: &ServiceRegistry,
        auth_override: Option<&str>,
        admin_override: Option<&str>,
        custodian_override: Option<&str>,
    ) -> (out: Self)
        ensures
            out@ == backends_of(
                reg@,
                str_of(auth_override),
                str_of(admin_override),
                str_of(custodian_override),
            ),
    {
        BackendAddrs {
            auth: reg.resolve_with(auth_override, "auth", BackendAddrs::DEFAULT_AUTH),
            admin: reg.resolve_with(admin_override, "admin", BackendAddrs::DEFAULT_ADMIN),
            custodian: reg.resolve_with(custodian_override, "custodian", BackendAddrs::DEFAULT_CUSTODIAN),
        }
    }

    /// Whether other addresses are the same.
    pub fn same_as(&self, other: &BackendAddrs) -> (out: bool)
        ensures
            out == (self@ == other@),
    {
        let out: bool = same(self.auth.as_str(), other.auth.as_str()) && same(
            self.admin.as_str(),
            other.admin.as_str(),
        ) && same(self.custodian.as_str(), other.custodian.as_str());
        assert(out ==> self@ =~= other@);
        out
    }
}

/// Which of the three backends moved.
#[derive(Debug, Clone, Copy, PartialEq, Eq, Structural)]
pub struct Moves {
    pub auth: bool,
    pub admin: bool,
    pub custodian: bool,
}

/// Which of the three backends moved.
pub open spec fn moves_between(current: BackendView, next: BackendView) -> Moves {
    Moves {
        auth: current.auth != next.auth,
        admin: current.admin != next.admin,
        custodian: current.custodian != next.custodian,
    }
}

/// Which of the three backends moved; only those are to be connected anew.
pub fn moved(current: &BackendAddrs, next: &BackendAddrs) -> (out: Moves)
    ensures
        out == moves_between(current@, next@),
{
    Moves {
        auth: !same(current.auth.as_str(), next.auth.as_str()),
        admin: !same(current.admin.as_str(), next.admin.as_str()),
        custodian: !same(current.custodian.as_str(), next.custodian.as_str()),
    }
}

/// The names of the backends that moved and could be connected anew.
pub open spec fn redirected(moves: Moves, done: Moves) -> Seq<Seq<char>> {
    (if moves.auth && done.auth {
        seq!["auth"@]
    } else {
        Seq::empty()
    }) + (if moves.admin && done.admin {
        seq!["admin"@]
    } else {
        Seq::empty()
    }) + (if moves.custodian && done.custodian {
        seq!["custodian"@]
    } else {
        Seq::empty()
    })
}

/// The views of a list of names.
pub open spec fn names_of(v: Seq<&'static str>) -> Seq<Seq<char>> {
    Seq::new(v.len(), |i: int| v[i]@)
}

/// The names of the backends that were redirected: those that moved and, as `done` says, could be
/// connected anew. One that could not keeps its old connection.
pub fn apply_changes(current: &BackendAddrs, next: &BackendAddrs, done: Moves) -> (out: Vec<
    &'static str,
>)
    ensures
        names_of(out@) == redirected(moves_between(current@, next@), done),
{
    let moves: Moves = moved(current, next);
    let mut changed: Vec<&'static str> = Vec::new();
    if moves.auth && done.auth {
        changed.push("auth");
    }
    if moves.admin && done.admin {
        changed.push("admin");
    }
    if moves.custodian && done.custodian {
        changed.push("custodian");
    }
    assert(names_of(changed@) =~= redirected(moves, done));
    changed
}

/// The backends in effect after an attempt to redirect: one that moved and could not be connected
/// anew keeps its old endpoint.
pub open spec fn in_effect(current: BackendView, next: BackendView, done: Moves) -> BackendView {
    let moves = moves_between(current, next);
    BackendView {
        auth: if moves.auth && !done.auth {
            current.auth
        } else {
            next.auth
        },
        admin: if moves.admin && !done.admin {
            current.admin
        } else {
            next.admin
        },
        custodian: if moves.custodian && !done.custodian {
            current.custodian
        } else {
            next.custodian
        },
    }
}

/// The backends in effect after a look at the file: those of the registry that was read, but for
/// one that moved and, as `done` says, could not be connected anew; the current ones where the
/// registry could not be read.
pub fn reload_once(
    current: BackendAddrs,
    loaded: Result<ServiceRegistry, InfoVulcanError>,
    auth_override: Option<&str>,
    admin_override: Option<&str>,
    custodian_override: Option<&str>,
    done: Moves,
) -> (out: BackendAddrs)
    ensures
        out@ == (match loaded {
            Ok(reg) => in_effect(
                current@,
                backends_of(
                    reg@,
                    str_of(auth_override),
                    str_of(admin_override),
                    str_of(custodian_override),
                ),
                done,
            ),
            Err(_) => current@,
        }),
{
    match loaded {
        Ok(reg) => {
            let next: BackendAddrs = BackendAddrs::from_registry(
                &reg,
                auth_override,
                admin_override,
                custodian_override,
            );
            let moves: Moves = moved(&current, &next);
            let out = BackendAddrs {
                auth: if moves.auth && !done.auth {
                    current.auth
                } else {
                    next.auth
                },
                admin: if moves.admin && !done.admin {
                    current.admin
                } else {
                    next.admin
                },
                custodian: if moves.custodian && !done.custodian {
                    current.custodian
                } else {
                    next.custodian
                },
            };
            assert(out@ =~= in_effect(current@, next@, done));
            out
        },
        Err(_) => current,
    }
}

/// A backend that could not be redirected is tried again: at the next look at the same file it has
/// still moved, and once it can be reached it is redirected.
pub proof fn failed_redirects_are_tried_again(current: BackendView, next: BackendView, done: Moves)
    ensures
        ({
            let now = in_effect(current, next, done);
            let moves = moves_between(current, next);
            let again = moves_between(now, next);
            &&& again.auth == (moves.auth && !done.auth)
            &&& again.admin == (moves.admin && !done.admin)
            &&& again.custodian == (moves.custodian && !done.custodian)
        }),
        in_effect(current, next, Moves { auth: true, admin: true, custodian: true }) == next,
{
    assert(in_effect(current, next, Moves { auth: true, admin: true, custodian: true }) =~= next);
}

/// A reload that changes nothing redirects nothing.
pub proof fn unchanged_backends_stay(current: BackendView, done: Moves)
    ensures
        redirected(moves_between(current, current), done) == Seq::<Seq<char>>::empty(),
{
    assert(redirected(moves_between(current, current), done) =~= Seq::<Seq<char>>::empty());
}

} // verus!
