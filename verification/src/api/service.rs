//! How a stored service is named on the screen, and how it is found again by that
//! name.
//!
//! The name is derived from the service's URL and is not stored with it, so two URLs
//! may share a name; a search by name therefore settles for the first entry that fits.

use crate::api::client::{ApiClient, SavedPassword};
use crate::text::{
    chars_of, finds, holds, lemma_until_is_longest_clean_prefix, occurs_at, same_text, string_of,
    strip, take_until, until, without,
};
use vstd::prelude::*;

verus! {

/// The host part of a service's URL: the URL without any `https://`, `http://` and
/// `www.`, up to its first `/`.
pub open spec fn service_domain(url: Seq<char>) -> Seq<char> {
    until(without(without(without(url, "https://"@), "http://"@), "www."@), '/')
}

/// The name under which a service is shown: the first two labels of its domain, or
/// the domain itself where it has no dot.
pub open spec fn service_name(url: Seq<char>) -> Seq<char> {
    let domain = service_domain(url);
    let first = until(domain, '.');
    if first.len() == domain.len() {
        domain
    } else {
        first + seq!['.'] + until(domain.skip(first.len() as int + 1), '.')
    }
}

/// A service's name is its domain, cut before the domain's second dot: a prefix of
/// the domain that holds one dot at most, and that either is the whole domain or ends
/// just where a second dot follows.
pub proof fn law_service_name_cuts_the_domain(url: Seq<char>)
    ensures
        service_name(url).len() <= service_domain(url).len(),
        service_name(url) == service_domain(url).take(service_name(url).len() as int),
        forall|i: int, j: int|
            0 <= i < j < service_name(url).len() ==> !(service_name(url)[i] == '.'
                && service_name(url)[j] == '.'),
        service_name(url).len() < service_domain(url).len() ==> {
            &&& service_domain(url)[service_name(url).len() as int] == '.'
            &&& service_name(url).contains('.')
        },
{
    let domain = service_domain(url);
    let name = service_name(url);
    let first = until(domain, '.');
    lemma_until_is_longest_clean_prefix(domain, '.');
    if first.len() == domain.len() {
        assert(name =~= domain.take(name.len() as int));
    } else {
        lemma_until_is_longest_clean_prefix(domain.skip(first.len() as int + 1), '.');
        assert(name[first.len() as int] == '.');
    }
}

/// Two URLs that differ may share a name.
pub proof fn law_distinct_urls_may_share_a_name()
    ensures
        exists|a: Seq<char>, b: Seq<char>| a != b && service_name(a) == service_name(b),
{
    let a = seq!['/'];
    let b = seq!['/', '/'];
    reveal_strlit("https://");
    reveal_strlit("http://");
    reveal_strlit("www.");
    assert(service_name(a) == service_name(b));
}

/// The entry's name is the name looked for.
pub open spec fn is_exact(entry: (String, SavedPassword), display_name: Seq<char>) -> bool {
    entry.1.service_name@ == display_name
}

/// One of the entry's name and the name looked for stands in the other.
pub open spec fn is_partial(entry: (String, SavedPassword), display_name: Seq<char>) -> bool {
    holds(entry.1.service_name@, display_name) || holds(display_name, entry.1.service_name@)
}

/// The entry at `at` is the one that a search for `display_name` picks: the first
/// whose name is that name, or, where no entry has that name, the first that matches
/// it in part.
pub open spec fn is_picked(
    entries: Seq<(String, SavedPassword)>,
    display_name: Seq<char>,
    at: int,
) -> bool {
    &&& 0 <= at < entries.len()
    &&& {
        ||| {
            &&& is_exact(entries[at], display_name)
            &&& forall|j: int| 0 <= j < at ==> !is_exact(#[trigger] entries[j], display_name)
        }
        ||| {
            &&& forall|j: int|
                0 <= j < entries.len() ==> !is_exact(#[trigger] entries[j], display_name)
            &&& is_partial(entries[at], display_name)
            &&& forall|j: int| 0 <= j < at ==> !is_partial(#[trigger] entries[j], display_name)
        }
    }
}

/// The text of the error for a name that no entry matches.
pub open spec fn not_found_error(display_name: Seq<char>) -> Seq<char> {
    "Service '"@ + display_name + "' non trouvé"@
}

/// `found` is what a search for `display_name` in `entries` gives: the key of the
/// entry that is picked, or nothing where no entry matches even in part.
pub open spec fn is_found(
    entries: Seq<(String, SavedPassword)>,
    display_name: Seq<char>,
    found: Option<Seq<char>>,
) -> bool {
    match found {
        Some(url) => exists|at: int|
            is_picked(entries, display_name, at) && url == (#[trigger] entries[at]).0@,
        None => forall|j: int|
            0 <= j < entries.len() ==> !is_partial(#[trigger] entries[j], display_name),
    }
}

/// An entry whose name is the name looked for matches it in part too.
pub proof fn law_exact_match_is_partial(entry: (String, SavedPassword), display_name: Seq<char>)
    requires
        is_exact(entry, display_name),
    ensures
        is_partial(entry, display_name),
{
    assert(display_name.subrange(0, display_name.len() as int) =~= display_name);
    assert(occurs_at(display_name, display_name, 0));
}

/// A search has one result at most: whatever `is_found` holds of is the same key, or
/// is nothing both times.
pub proof fn law_search_has_one_result(
    entries: Seq<(String, SavedPassword)>,
    display_name: Seq<char>,
    a: Option<Seq<char>>,
    b: Option<Seq<char>>,
)
    requires
        is_found(entries, display_name, a),
        is_found(entries, display_name, b),
    ensures
        a == b,
{
    assert forall|j: int| 0 <= j < entries.len() && is_exact(entries[j], display_name) implies
        is_partial(entries[j], display_name) by {
        law_exact_match_is_partial(entries[j], display_name);
    }
}

impl ApiClient {
    /// The name under which the service at `url` is shown.
    pub fn extract_service_name(&self, url: &str) -> (name: String)
        ensures
            name@ == service_name(url@),
    {
        let chars = chars_of(url);
        let no_https = strip(&chars, &chars_of("https://"));
        let no_http = strip(&no_https, &chars_of("http://"));
        let bare = strip(&no_http, &chars_of("www."));
        assert(bare@.skip(0) =~= bare@);
        let domain = take_until(&bare, 0, '/');
        assert(domain@.skip(0) =~= domain@);
        let first = take_until(&domain, 0, '.');
        proof {
            lemma_until_is_longest_clean_prefix(domain@, '.');
        }
        if first.len() == domain.len() {
            string_of(&domain)
        } else {
            let second = take_until(&domain, first.len() + 1, '.');
            let mut name = first;
            name.push('.');
            let mut k: usize = 0;
            while k < second.len()
                invariant
                    k <= second.len(),
                    name@ == until(domain@, '.') + seq!['.'] + second@.take(k as int),
                decreases second.len() - k,
            {
                name.push(second[k]);
                k += 1;
            }
            string_of(&name)
        }
    }

    /// The entry of `entries` that a search for `display_name` picks, by its key.
    pub fn find_service_url(
        &self,
        entries: &Vec<(String, SavedPassword)>,
        display_name: &str,
    ) -> (found: Option<String>)
        ensures
            is_found(entries@, display_name@, found.deep_view()),
    {
        let wanted = chars_of(display_name);
        let mut i: usize = 0;
        while i < entries.len()
            invariant
                i <= entries.len(),
                forall|j: int| 0 <= j < i ==> !is_exact(#[trigger] entries@[j], display_name@),
            decreases entries.len() - i,
        {
            if same_text(entries[i].1.service_name.as_str(), display_name) {
                return Some(entries[i].0.clone());
            }
            i += 1;
        }
        let mut i: usize = 0;
        while i < entries.len()
            invariant
                i <= entries.len(),
                wanted@ == display_name@,
                forall|j: int|
                    0 <= j < entries.len() ==> !is_exact(#[trigger] entries@[j], display_name@),
                forall|j: int| 0 <= j < i ==> !is_partial(#[trigger] entries@[j], display_name@),
            decreases entries.len() - i,
        {
            let name = chars_of(entries[i].1.service_name.as_str());
            if finds(&name, &wanted) || finds(&wanted, &name) {
                return Some(entries[i].0.clone());
            }
            i += 1;
        }
        None
    }
}

} // verus!
