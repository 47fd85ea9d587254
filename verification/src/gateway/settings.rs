//! The gateway's settings, from their written form.

use vstd::prelude::*;
use vstd::string::*;

use crate::text::{blank, is_blank, parse_unsigned, read_unsigned, text_of, texts_of, trim, trimmed};

verus! {

/// A setting, or a text in its place.
pub open spec fn setting_or(raw: Option<String>, usual: Seq<char>) -> Seq<char> {
    match raw {
        Some(text) => text@,
        None => usual,
    }
}

/// The address to listen on.
pub fn listen_address(raw: Option<String>) -> (out: String)
    ensures
        out@ == setting_or(raw, "0.0.0.0:8080"@),
{
    env_or_default(raw, "0.0.0.0:8080")
}

/// A setting, or its default.
pub fn env_or_default(raw: Option<String>, default_value: &str) -> (out: String)
    ensures
        out@ == setting_or(raw, default_value@),
{
    match raw {
        Some(text) => text,
        None => default_value.to_owned(),
    }
}

/// The secret that tokens are signed with.
pub fn jwt_secret_from_env(raw: Option<String>) -> (out: Vec<u8>)
    ensures
        out@ == vstd::utf8::encode_utf8(setting_or(raw, "secret"@)),
{
    let text: String = env_or_default(raw, "secret");
    crate::text::copy_bytes(text.as_str().as_bytes())
}

/// Where the authentication service, the administration service and the custodian are, where no
/// file says so.
pub fn resolve_backend_addrs(
    auth_raw: Option<String>,
    admin_raw: Option<String>,
    custodian_raw: Option<String>,
) -> (out: (String, String, String))
    ensures
        out.0@ == setting_or(auth_raw, "http://auth:8082"@),
        out.1@ == setting_or(admin_raw, "http://admin:8083"@),
        out.2@ == setting_or(custodian_raw, "http://custodian-leader:8081"@),
{
    (
        env_or_default(auth_raw, "http://auth:8082"),
        env_or_default(admin_raw, "http://admin:8083"),
        env_or_default(custodian_raw, "http://custodian-leader:8081"),
    )
}

/// A number that a setting writes, or a number in its place.
pub open spec fn number_setting(raw: Option<Seq<char>>, max: nat, usual: u64) -> nat {
    match raw {
        Some(text) => match parse_unsigned(text, max) {
            Some(n) => n,
            None => usual as nat,
        },
        None => usual as nat,
    }
}

fn number_or(raw: Option<String>, max: u64, usual: u64) -> (out: u64)
    requires
        usual <= max,
    ensures
        out == number_setting(text_of(raw), max as nat, usual),
        out <= max,
{
    match raw {
        Some(text) => match read_unsigned(text.as_str(), max) {
            Some(n) => n,
            None => usual,
        },
        None => usual,
    }
}

/// How often the file of services is read again, in seconds.
pub fn reload_secs(raw: Option<String>) -> (out: u64)
    ensures
        out == number_setting(text_of(raw), u64::MAX as nat, 30),
{
    number_or(raw, u64::MAX, 30)
}

/// How many requests a client may make in a second.
pub fn rate_per_second(raw: Option<String>) -> (out: u64)
    ensures
        out == number_setting(text_of(raw), u64::MAX as nat, 10),
{
    number_or(raw, u64::MAX, 10)
}

/// How many requests a client may make at once.
pub fn rate_burst(raw: Option<String>) -> (out: u32)
    ensures
        out == number_setting(text_of(raw), u32::MAX as nat, 30),
{
    number_or(raw, 0xffff_ffff, 30) as u32
}

/// The parts of a list between commas.
pub open spec fn comma_parts(s: Seq<char>) -> Seq<Seq<char>>
    decreases s.len(),
{
    if s.len() == 0 {
        seq![Seq::empty()]
    } else {
        let before = comma_parts(s.drop_last());
        if s.last() == ',' {
            before.push(Seq::empty())
        } else {
            before.drop_last().push(before.last().push(s.last()))
        }
    }
}

/// The parts of a list between commas, without the white space around them.
pub open spec fn trimmed_parts(s: Seq<char>) -> Seq<Seq<char>> {
    Seq::new(comma_parts(s).len(), |i: int| trimmed(comma_parts(s)[i]))
}

/// There is a part before the first comma.
proof fn parts_exist(s: Seq<char>)
    ensures
        comma_parts(s).len() > 0,
    decreases s.len(),
{
    if s.len() > 0 {
        parts_exist(s.drop_last());
    }
}

/// The origins that the browser may call from; nothing where the setting is blank, which allows
/// any.
pub fn cors_origins(raw: Option<String>) -> (out: Option<Vec<String>>)
    ensures
        match out {
            Some(origins) => raw matches Some(text) && !is_blank(text@) && texts_of(origins@)
                == trimmed_parts(text@),
            None => raw matches Some(text) ==> is_blank(text@),
        },
{
    let text: String = match raw {
        Some(text) => text,
        None => {
            return None;
        },
    };
    if blank(text.as_str()) {
        return None;
    }
    let s: &str = text.as_str();
    let n: usize = s.unicode_len();
    let mut origins: Vec<String> = Vec::new();
    let mut start: usize = 0;
    let mut i: usize = 0;
    assert(s@.take(0) =~= Seq::empty());
    assert(comma_parts(s@.take(0)).drop_last() =~= Seq::empty());
    assert(s@.subrange(0, 0) =~= Seq::empty());
    while i < n
        invariant
            n == s@.len(),
            start <= i <= n,
            comma_parts(s@.take(i as int)).len() == origins@.len() + 1,
            forall|j: int|
                0 <= j < origins@.len() ==> (#[trigger] origins@[j])@ == trimmed(
                    comma_parts(s@.take(i as int))[j],
                ),
            comma_parts(s@.take(i as int)).last() == s@.subrange(start as int, i as int),
        decreases n - i,
    {
        let ghost before = comma_parts(s@.take(i as int));
        let ghost after = comma_parts(s@.take(i + 1));
        assert(s@.take(i + 1).drop_last() =~= s@.take(i as int));
        assert(s@.take(i + 1).last() == s@[i as int]);
        if s.get_char(i) == ',' {
            let part: &str = trim(s.substring_char(start, i));
            let ghost shorter = origins@;
            origins.push(part.to_owned());
            start = i + 1;
            proof {
                assert(after == before.push(Seq::empty()));
                assert forall|j: int| 0 <= j < origins@.len() implies (#[trigger] origins@[j])@
                    == trimmed(after[j]) by {
                    if j < shorter.len() {
                        assert(origins@[j] == shorter[j]);
                        assert(after[j] == before[j]);
                    } else {
                        assert(after[j] == before.last());
                    }
                }
                assert(s@.subrange(start as int, i + 1) =~= Seq::empty());
            }
        } else {
            proof {
                assert(after == before.drop_last().push(before.last().push(s@[i as int])));
                assert(s@.subrange(start as int, i + 1) =~= s@.subrange(
                    start as int,
                    i as int,
                ).push(s@[i as int]));
                assert forall|j: int| 0 <= j < origins@.len() implies (#[trigger] origins@[j])@
                    == trimmed(after[j]) by {
                    assert(after[j] == before[j]);
                }
            }
        }
        i = i + 1;
    }
    assert(s@.take(n as int) =~= s@);
    let last: &str = trim(s.substring_char(start, n));
    let ghost shorter = origins@;
    origins.push(last.to_owned());
    assert(texts_of(origins@) =~= trimmed_parts(s@)) by {
        assert forall|j: int| 0 <= j < origins@.len() implies texts_of(origins@)[j] == trimmed_parts(
            s@,
        )[j] by {
            if j < shorter.len() {
                assert(origins@[j] == shorter[j]);
                assert(shorter[j]@ == trimmed(comma_parts(s@)[j]));
            }
        }
    }
    Some(origins)
}

} // verus!
