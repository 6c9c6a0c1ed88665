//! The decisions that the store's operations take between their reads and
//! writes: what a found profile yields, and which profile is written back.

use crate::models::{Article, Bubble, Feed};
use crate::rating::{
    rated, rated_and_softened, rating_action_of, rating_update_fits, remove_story, update_rating,
    without_story,
};
use vstd::prelude::*;

verus! {

/// Why the store could not answer.
pub enum StoreError {
    /// No profile is stored for the reader.
    BubbleNotFound,
}

impl StoreError {
    /// The message that the store reports.
    pub fn message(&self) -> (m: String)
        ensures
            m@ == "Unable to locate bubble"@,
    {
        match self {
            StoreError::BubbleNotFound => "Unable to locate bubble".to_owned(),
        }
    }
}

/// The profile that a lookup found, or `BubbleNotFound`.
pub fn bubble_of(found: Option<Bubble>) -> (r: Result<Bubble, StoreError>)
    ensures
        match found {
            Some(b) => r == Ok::<Bubble, StoreError>(b),
            None => r == Err::<Bubble, StoreError>(StoreError::BubbleNotFound),
        },
{
    match found {
        Some(b) => Ok(b),
        None => Err(StoreError::BubbleNotFound),
    }
}

/// The feed last served to the reader whose profile a lookup found, or
/// `BubbleNotFound`. A found profile must hold a feed.
pub fn current_feed_of(found: Option<Bubble>) -> (r: Result<Feed, StoreError>)
    requires
        found matches Some(b) ==> b.current_feed is Some,
    ensures
        match found {
            Some(b) => r == Ok::<Feed, StoreError>(b.current_feed->0),
            None => r == Err::<Feed, StoreError>(StoreError::BubbleNotFound),
        },
{
    match found {
        Some(b) => match b.current_feed {
            Some(feed) => Ok(feed),
            None => Err(StoreError::BubbleNotFound),
        },
        None => Err(StoreError::BubbleNotFound),
    }
}

/// `after` is `before` with the ratings moved by `action` on `article` and
/// the article's story taken out of the current feed.
pub open spec fn rated_profile(before: Bubble, after: Bubble, article: Article, action: Seq<char>) -> bool {
    &&& after.sources@ == rated_and_softened(before.sources@, article.source@, rating_action_of(action))
    &&& after.categories@ == rated_and_softened(
        before.categories@,
        article.category@,
        rating_action_of(action),
    )
    &&& after.languages@ == rated(before.languages@, article.language@, rating_action_of(action))
    &&& after._id == before._id
    &&& after.user_id == before.user_id
    &&& after.last_refresh == before.last_refresh
    &&& after.current_feed matches Some(f) && before.current_feed matches Some(g) && f.data@
        == without_story(g.data@, article) && f.pagination == g.pagination && f.refresh_cooldown
        == g.refresh_cooldown
}

/// The profile after the reader reacted with `action` to `article`: the
/// ratings move and the article leaves the current feed, which must exist.
pub fn rate_profile(bubble: Bubble, article: &Article, action: &str) -> (r: Bubble)
    requires
        bubble.current_feed is Some,
        rating_update_fits(bubble, *article, rating_action_of(action@)),
    ensures
        rated_profile(bubble, r, *article, action@),
{
    let ghost before = bubble;
    let mut bubble = bubble;
    update_rating(&mut bubble, article, action);
    let mut feed = bubble.current_feed.take().unwrap();
    remove_story(&mut feed, article);
    bubble.current_feed = Some(feed);
    bubble
}

/// What saving `article` does to the reader's profile, if one was found:
/// the ratings move as for a save and the article leaves the current feed.
pub fn profile_after_save(found: Option<Bubble>, article: &Article) -> (r: Option<Bubble>)
    requires
        found matches Some(b) ==> (b.current_feed is Some && rating_update_fits(
            b,
            *article,
            rating_action_of("save"@),
        )),
    ensures
        found is None ==> r is None,
        found matches Some(b) ==> (r matches Some(a) && rated_profile(b, a, *article, "save"@)),
{
    match found {
        Some(b) => Some(rate_profile(b, article, "save")),
        None => None,
    }
}

/// The profile to create when storing `feed` found no profile for
/// `user_id`: a fresh one that holds the feed. None when a profile was
/// updated in place.
pub fn profile_for_feed(updated_existing: bool, user_id: &str, feed: Feed) -> (r: Option<Bubble>)
    ensures
        updated_existing ==> r is None,
        !updated_existing ==> (r matches Some(b) && b.user_id@ == user_id@ && b.current_feed
            == Some(feed) && b.last_refresh is None && b.sources@.is_empty()
            && b.categories@.is_empty() && b.languages@.is_empty()),
{
    if updated_existing {
        None
    } else {
        let mut b = Bubble::new(user_id);
        b.current_feed = Some(feed);
        Some(b)
    }
}

} // verus!
