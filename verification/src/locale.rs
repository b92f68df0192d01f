use vstd::prelude::*;
use vstd::string::{StrSliceExecFns, StringExecFns};

use crate::models::opt_text_view;
use crate::text::push_char;

verus! {

broadcast use vstd::string::group_string_axioms;

/// The text of the locale ICU reads from `text` (as the locale writes
/// itself), if `text` is a well-formed locale.
pub uninterp spec fn parsed_locale(text: Seq<char>) -> Option<Seq<char>>;

/// `Locale::try_from_str(text)` (icu_locale_core, re-exported as
/// `icu::locale::Locale`), giving the parsed locale's text. The contract
/// names the result; it states of the syntax only that `en-US` is a locale,
/// as ICU's examples show.
#[verifier::external_body]
fn parse_locale(text: &str) -> (r: Option<String>)
    ensures
        r is Some <==> parsed_locale(text@) is Some,
        r matches Some(l) ==> l@ == parsed_locale(text@).unwrap(),
        text@ == "en-US"@ ==> r is Some,
{
    icu_locale_core::Locale::try_from_str(text).ok().map(|l| l.to_string())
}

/// The part of `s` before the first `stop` (all of `s` when it has none).
pub open spec fn prefix_before(s: Seq<char>, stop: char) -> Seq<char>
    decreases s.len(),
{
    if s.len() == 0 {
        s
    } else if s[0] == stop {
        Seq::empty()
    } else {
        seq![s[0]] + prefix_before(s.drop_first(), stop)
    }
}

/// `_` becomes `-`; every other character stays.
pub open spec fn dash_for_underscore(c: char) -> char {
    if c == '_' { '-' } else { c }
}

/// An environment value made into a locale candidate: the part before the
/// first `.` (the encoding goes), with `_` written `-`.
pub open spec fn locale_candidate(value: Seq<char>) -> Seq<char> {
    prefix_before(value, '.').map_values(|c: char| dash_for_underscore(c))
}

/// The locale an environment value names: the candidate if it parses, else
/// its language (the part before the first `-`) if that parses.
pub open spec fn locale_of_value(value: Seq<char>) -> Option<Seq<char>> {
    let candidate = locale_candidate(value);
    match parsed_locale(candidate) {
        Some(l) => Some(l),
        None => parsed_locale(prefix_before(candidate, '-')),
    }
}

/// The locale of the first environment value (in order `LC_TIME`, `LC_ALL`,
/// `LANG`) that names one; `en-US` when none does.
pub open spec fn locale_from_values(values: Seq<Option<Seq<char>>>) -> Seq<char>
    decreases values.len(),
{
    if values.len() == 0 {
        parsed_locale("en-US"@).unwrap()
    } else {
        match values[0] {
            Some(v) if locale_of_value(v) is Some => locale_of_value(v).unwrap(),
            _ => locale_from_values(values.drop_first()),
        }
    }
}

proof fn lemma_prefix_before(s: Seq<char>, stop: char, k: int)
    requires
        0 <= k <= s.len(),
        forall|j: int| 0 <= j < k ==> s[j] != stop,
        k == s.len() || s[k] == stop,
    ensures
        prefix_before(s, stop) == s.take(k),
    decreases k,
{
    if k == 0 {
        assert(s.take(0) =~= Seq::<char>::empty());
        if s.len() == 0 {
            assert(s =~= Seq::<char>::empty());
        }
    } else {
        lemma_prefix_before(s.drop_first(), stop, k - 1);
        assert(s.take(k) =~= seq![s[0]] + s.drop_first().take(k - 1));
    }
}

/// The part of `s` before the first `stop`, each character passed through `map_dash`.
fn prefix_text(s: &str, stop: char, map_dash: bool) -> (r: String)
    ensures
        map_dash ==> r@ == prefix_before(s@, stop).map_values(|c: char| dash_for_underscore(c)),
        !map_dash ==> r@ == prefix_before(s@, stop),
{
    let n = s.unicode_len();
    let mut i: usize = 0;
    let mut out = String::new();
    while i < n && s.get_char(i) != stop
        invariant
            n == s@.len(),
            i <= n,
            forall|j: int| 0 <= j < i ==> s@[j] != stop,
            map_dash ==> out@ == s@.take(i as int).map_values(|c: char| dash_for_underscore(c)),
            !map_dash ==> out@ == s@.take(i as int),
        decreases n - i,
    {
        let c = s.get_char(i);
        let mapped = if map_dash && c == '_' { '-' } else { c };
        push_char(&mut out, mapped);
        proof {
            assert(s@.take(i + 1) =~= s@.take(i as int).push(c));
            assert(s@.take(i + 1).map_values(|c: char| dash_for_underscore(c))
                =~= s@.take(i as int).map_values(|c: char| dash_for_underscore(c)).push(dash_for_underscore(c)));
        }
        i = i + 1;
    }
    proof {
        lemma_prefix_before(s@, stop, i as int);
    }
    out
}

/// The locale text an environment value is read as: the part before the
/// first `.`, with `_` written `-` (`de_DE.UTF-8` gives `de-DE`).
pub fn locale_candidate_text(value: &str) -> (r: String)
    ensures
        r@ == locale_candidate(value@),
{
    prefix_text(value, '.', true)
}

/// The language of a locale text: the part before the first `-`.
pub fn language_text(candidate: &str) -> (r: String)
    ensures
        r@ == prefix_before(candidate@, '-'),
{
    prefix_text(candidate, '-', false)
}

/// The locale an environment value names, if any.
fn locale_of(value: &str) -> (r: Option<String>)
    ensures
        r is Some <==> locale_of_value(value@) is Some,
        r matches Some(l) ==> l@ == locale_of_value(value@).unwrap(),
{
    let candidate = locale_candidate_text(value);
    match parse_locale(candidate.as_str()) {
        Some(l) => Some(l),
        None => {
            let language = language_text(candidate.as_str());
            parse_locale(language.as_str())
        },
    }
}

/// The user's locale, from the values of `LC_TIME`, `LC_ALL` and `LANG`
/// (`None` where a variable is unset): the first that names a locale, the
/// encoding after `.` dropped and `_` read as `-`, falling back to the bare
/// language; `en-US` when none names one.
pub fn get_system_locale(lc_time: Option<String>, lc_all: Option<String>, lang: Option<String>) -> (l: String)
    ensures
        l@ == locale_from_values(seq![
            opt_text_view(&lc_time),
            opt_text_view(&lc_all),
            opt_text_view(&lang),
        ]),
{
    let ghost values = seq![
        opt_text_view(&lc_time),
        opt_text_view(&lc_all),
        opt_text_view(&lang),
    ];
    let ghost rest1 = values.drop_first();
    let ghost rest2 = rest1.drop_first();
    assert(rest2.drop_first() =~= Seq::<Option<Seq<char>>>::empty());
    proof {
        reveal_with_fuel(locale_from_values, 4);
        assert(rest1[0] == opt_text_view(&lc_all));
        assert(rest2[0] == opt_text_view(&lang));
    }
    if let Some(v) = &lc_time {
        if let Some(l) = locale_of(v.as_str()) {
            return l;
        }
    }
    if let Some(v) = &lc_all {
        if let Some(l) = locale_of(v.as_str()) {
            return l;
        }
    }
    if let Some(v) = &lang {
        if let Some(l) = locale_of(v.as_str()) {
            return l;
        }
    }
    match parse_locale("en-US") {
        Some(l) => l,
        None => String::from_str("en-US"),
    }
}

} // verus!
