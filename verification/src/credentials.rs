use vstd::prelude::*;
use vstd::string::StringExecFns;

use crate::models::{integration_name, Integration};
use crate::text::push_char;

verus! {

broadcast use vstd::string::group_string_axioms;

/// The service name credentials are stored under in the system keyring.
pub open spec fn keyring_service() -> Seq<char> {
    "cosmic-ext-time-tracker"@
}

/// A character of a display name as it appears in a keyring entry name:
/// spaces become dashes, ASCII capitals become small letters.
pub open spec fn entry_name_char(c: char) -> char {
    if c == ' ' {
        '-'
    } else if 'A' <= c <= 'Z' {
        ((c as u32) + 32) as char
    } else {
        c
    }
}

/// A display name as it appears in a keyring entry name. For the ASCII
/// names of the integrations this is `name.replace(" ", "-").to_lowercase()`.
pub open spec fn entry_name_stem(name: Seq<char>) -> Seq<char> {
    name.map_values(|c: char| entry_name_char(c))
}

/// The keyring entry name of an integration's API key.
pub open spec fn api_key_entry(tracker: Integration) -> Seq<char> {
    entry_name_stem(integration_name(tracker)) + "-api-key"@
}

/// The keyring entry name of an integration's server URL.
pub open spec fn integration_url_entry(tracker: Integration) -> Seq<char> {
    entry_name_stem(integration_name(tracker)) + "-url"@
}

/// An ASCII capital as its small letter; every other character unchanged
/// (what `char::to_ascii_lowercase` does).
fn ascii_lowercase(c: char) -> (r: char)
    ensures
        r == (if 'A' <= c <= 'Z' { ((c as u32) + 32) as char } else { c }),
{
    if 'A' <= c && c <= 'Z' {
        let code: u32 = c as u32;
        ((code as u8) + 32) as char
    } else {
        c
    }
}

/// The service name credentials are stored under in the system keyring.
pub fn keyring_service_name() -> (s: String)
    ensures
        s@ == keyring_service(),
{
    String::from_str("cosmic-ext-time-tracker")
}

fn entry_name(tracker: &Integration, suffix: &str) -> (s: String)
    ensures
        s@ == entry_name_stem(integration_name(*tracker)) + suffix@,
{
    let name = tracker.to_string();
    let ghost chars = name@;
    let mut s = String::new();
    for c in it: name.as_str().chars()
        invariant
            it.seq() == chars,
            chars == integration_name(*tracker),
            s@ == entry_name_stem(chars.take(it.index() as int)),
    {
        let mapped = if c == ' ' { '-' } else { ascii_lowercase(c) };
        proof {
            assert(mapped == entry_name_char(c));
            assert(chars.take(it.index() + 1) == chars.take(it.index() as int).push(c));
        }
        push_char(&mut s, mapped);
        proof {
            assert(s@ =~= entry_name_stem(chars.take(it.index() + 1)));
        }
    }
    proof {
        assert(chars.take(chars.len() as int) == chars);
    }
    s.append(suffix);
    s
}

/// The keyring entry name of an integration's API key
/// ("toggl-track-api-key", "kimai-api-key").
pub fn api_key_entry_name(tracker: &Integration) -> (s: String)
    ensures
        s@ == api_key_entry(*tracker),
{
    entry_name(tracker, "-api-key")
}

/// The keyring entry name of an integration's server URL
/// ("toggl-track-url", "kimai-url").
pub fn integration_url_entry_name(tracker: &Integration) -> (s: String)
    ensures
        s@ == integration_url_entry(*tracker),
{
    entry_name(tracker, "-url")
}

/// Each integration keeps its API key and its URL in keyring entries of
/// their own: no two of the four entry names are the same.
pub proof fn credential_entries_are_distinct(a: Integration, b: Integration)
    ensures
        api_key_entry(a) == api_key_entry(b) ==> a == b,
        integration_url_entry(a) == integration_url_entry(b) ==> a == b,
        api_key_entry(a) != integration_url_entry(b),
{
    reveal_strlit("Toggl Track");
    reveal_strlit("Kimai");
    reveal_strlit("-api-key");
    reveal_strlit("-url");
    assert(api_key_entry(Integration::TogglIntegration).len() == 19);
    assert(api_key_entry(Integration::KimaiIntegration).len() == 13);
    assert(integration_url_entry(Integration::TogglIntegration).len() == 15);
    assert(integration_url_entry(Integration::KimaiIntegration).len() == 9);
}

} // verus!
