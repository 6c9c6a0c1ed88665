//! The request for a new feed: names that a reader rated low enough are
//! excluded from it.

use crate::models::Bubble;
use crate::ratings::{RatingMap, LOW_RATING_CUTOFF};
use vstd::prelude::*;

verus! {

/// The names, in entry order, whose rating is at or below the cutoff.
pub open spec fn low_names(entries: Seq<(Seq<char>, i32)>) -> Seq<Seq<char>>
    decreases entries.len(),
{
    if entries.len() == 0 {
        Seq::empty()
    } else {
        let rest = low_names(entries.drop_last());
        if entries.last().1 <= LOW_RATING_CUTOFF {
            rest.push(entries.last().0)
        } else {
            rest
        }
    }
}

/// `-a, -b, -c` for the names `a`, `b`, `c`.
pub open spec fn exclusion_list(names: Seq<Seq<char>>) -> Seq<char>
    decreases names.len(),
{
    if names.len() == 0 {
        Seq::empty()
    } else if names.len() == 1 {
        "-"@ + names[0]
    } else {
        exclusion_list(names.drop_last()) + ", -"@ + names.last()
    }
}

/// The query parameter `prefix` followed by the excluded names of `ratings`.
pub open spec fn exclusion_param(prefix: Seq<char>, ratings: Seq<(Seq<char>, i32)>) -> Seq<char> {
    prefix + exclusion_list(low_names(ratings))
}

/// The query parameter `prefix` followed by `-name` for every name of
/// `ratings` rated at or below the cutoff, separated by `, `.
pub fn exclusion_param_of(prefix: &str, ratings: &RatingMap) -> (r: String)
    ensures
        r@ == exclusion_param(prefix@, ratings.entries()),
{
    let mut out: String = prefix.to_owned();
    let mut added = false;
    let n = ratings.len();
    let mut i: usize = 0;
    while i < n
        invariant
            n == ratings.entries().len(),
            i <= n,
            out@ == prefix@ + exclusion_list(low_names(ratings.entries().take(i as int))),
            added == (low_names(ratings.entries().take(i as int)).len() > 0),
        decreases n - i,
    {
        let ghost before = ratings.entries().take(i as int);
        let ghost after = ratings.entries().take(i + 1);
        assert(after.drop_last() =~= before);
        assert(after.last() == ratings.entries()[i as int]);
        if ratings.rating_at(i) <= LOW_RATING_CUTOFF {
            let name = ratings.name_at(i);
            let ghost names = low_names(before);
            assert(low_names(after) == names.push(name@));
            assert(names.push(name@).drop_last() =~= names);
            if !added {
                out.append("-");
                out.append(name.as_str());
                added = true;
                assert(names.len() == 0);
                assert(out@ =~= prefix@ + exclusion_list(names.push(name@)));
            } else {
                out.append(", -");
                out.append(name.as_str());
                assert(out@ =~= prefix@ + exclusion_list(names.push(name@)));
            }
        }
        i = i + 1;
    }
    assert(ratings.entries().take(n as int) =~= ratings.entries());
    out
}

/// The three exclusion parameters of a feed request.
pub struct NewsQuery {
    pub sources: String,
    pub categories: String,
    pub languages: String,
}

/// The exclusions that follow from a reader's profile.
pub open spec fn query_matches_profile(q: NewsQuery, b: Bubble) -> bool {
    &&& q.sources@ == exclusion_param("&sources="@, b.sources.entries())
    &&& q.categories@ == exclusion_param("&categories="@, b.categories.entries())
    &&& q.languages@ == exclusion_param("&languages="@, b.languages.entries())
}

impl NewsQuery {
    /// The exclusions for the profile `bubble`.
    pub fn for_profile(bubble: &Bubble) -> (q: NewsQuery)
        ensures
            query_matches_profile(q, *bubble),
    {
        NewsQuery {
            sources: exclusion_param_of("&sources=", &bubble.sources),
            categories: exclusion_param_of("&categories=", &bubble.categories),
            languages: exclusion_param_of("&languages=", &bubble.languages),
        }
    }
}

/// The news service's address for up to 100 articles with `query`'s
/// exclusions, authorised by `media_key`.
pub open spec fn news_uri_text(media_key: Seq<char>, q: NewsQuery) -> Seq<char> {
    "http://api.mediastack.com/v1/news?access_key="@ + media_key + q.sources@ + q.categories@
        + q.languages@ + "&limit=100"@
}

/// The address of the news request.
pub fn news_uri(media_key: &str, query: &NewsQuery) -> (r: String)
    ensures
        r@ == news_uri_text(media_key@, *query),
{
    let mut uri: String = "http://api.mediastack.com/v1/news?access_key=".to_owned();
    uri.append(media_key);
    uri.append(query.sources.as_str());
    uri.append(query.categories.as_str());
    uri.append(query.languages.as_str());
    uri.append("&limit=100");
    assert(uri@ =~= news_uri_text(media_key@, *query));
    uri
}

} // verus!
