//! How a reader's reaction to an article moves the ratings of its source,
//! category and language, and how the rated article leaves the feed.

use crate::models::{same_story, Article, Bubble, Feed};
use crate::ratings::{softened, RatingMap};
use vstd::prelude::*;

verus! {

/// Rating step of a dislike.
pub const DISLIKE_MULTI: i32 = -2;

/// Rating step of a like.
pub const LIKE_MULTI: i32 = 3;

/// Rating step of a save.
pub const SAVE_MULTI: i32 = 5;

/// Likes and saves raise a rating to at most this value.
pub const RATING_MAX: i32 = 25;

/// Dislikes lower a rating to at least this value.
pub const RATING_MIN: i32 = -25;

/// A reader's reaction to an article, as named in a request.
pub enum RatingAction {
    Like,
    Dislike,
    Save,
    /// Any other word: the ratings stay as they are.
    Ignored,
}

/// The reaction that a word names.
pub open spec fn rating_action_of(action: Seq<char>) -> RatingAction {
    if action == "like"@ {
        RatingAction::Like
    } else if action == "dislike"@ {
        RatingAction::Dislike
    } else if action == "save"@ {
        RatingAction::Save
    } else {
        RatingAction::Ignored
    }
}

/// Whether `text` spells `word`.
pub fn text_is(text: &str, word: &str) -> (r: bool)
    ensures
        r == (text@ == word@),
{
    let a: String = text.to_owned();
    let b: String = word.to_owned();
    a == b
}

/// The reaction that `action` names.
pub fn parse_action(action: &str) -> (r: RatingAction)
    ensures
        r == rating_action_of(action@),
{
    if text_is(action, "like") {
        RatingAction::Like
    } else if text_is(action, "dislike") {
        RatingAction::Dislike
    } else if text_is(action, "save") {
        RatingAction::Save
    } else {
        RatingAction::Ignored
    }
}

/// The rating that `name` gets from `action`, counted from its rating in `m`
/// (a name without a rating counts from nothing: it gets the step itself).
pub open spec fn next_rating(m: Map<Seq<char>, i32>, name: Seq<char>, action: RatingAction) -> int {
    let step: int = match action {
        RatingAction::Like => LIKE_MULTI as int,
        RatingAction::Save => SAVE_MULTI as int,
        RatingAction::Dislike => DISLIKE_MULTI as int,
        RatingAction::Ignored => 0,
    };
    if !m.contains_key(name) {
        step
    } else if step > 0 {
        if m[name] + step < RATING_MAX {
            m[name] + step
        } else {
            RATING_MAX as int
        }
    } else if m[name] + step > RATING_MIN {
        m[name] + step
    } else {
        RATING_MIN as int
    }
}

/// The ratings `m` after `action` on `name`.
pub open spec fn rated(m: Map<Seq<char>, i32>, name: Seq<char>, action: RatingAction) -> Map<
    Seq<char>,
    i32,
> {
    match action {
        RatingAction::Ignored => m,
        _ => m.insert(name, next_rating(m, name, action) as i32),
    }
}

/// The ratings `m` after `action` on `name`, where a dislike also lifts
/// every low rating of the map by one.
pub open spec fn rated_and_softened(
    m: Map<Seq<char>, i32>,
    name: Seq<char>,
    action: RatingAction,
) -> Map<Seq<char>, i32> {
    match action {
        RatingAction::Dislike => rated(m, name, action).map_values(|r: i32| softened(r)),
        _ => rated(m, name, action),
    }
}

/// The machine sum that `action` computes on the rating of `name` stays
/// within `i32`.
pub open spec fn rating_fits(m: Map<Seq<char>, i32>, name: Seq<char>, action: RatingAction) -> bool {
    m.contains_key(name) ==> match action {
        RatingAction::Like => m[name] + LIKE_MULTI <= i32::MAX,
        RatingAction::Save => m[name] + SAVE_MULTI <= i32::MAX,
        RatingAction::Dislike => m[name] + DISLIKE_MULTI >= i32::MIN,
        RatingAction::Ignored => true,
    }
}

/// None of the three sums that rating `article` computes on `bubble`
/// leaves `i32`.
pub open spec fn rating_update_fits(bubble: Bubble, article: Article, action: RatingAction) -> bool {
    &&& rating_fits(bubble.sources@, article.source@, action)
    &&& rating_fits(bubble.categories@, article.category@, action)
    &&& rating_fits(bubble.languages@, article.language@, action)
}

/// Applies `action` to the rating of `name` in `map`.
fn rate_name(map: &mut RatingMap, name: &String, action: &RatingAction)
    requires
        rating_fits(old(map)@, name@, *action),
    ensures
        final(map)@ == rated(old(map)@, name@, *action),
{
    let step: i32 = match action {
        RatingAction::Like => LIKE_MULTI,
        RatingAction::Save => SAVE_MULTI,
        RatingAction::Dislike => DISLIKE_MULTI,
        RatingAction::Ignored => {
            return;
        },
    };
    let value: i32 = match map.get(name) {
        None => step,
        Some(current) => {
            let sum = current + step;
            if step > 0 {
                if sum < RATING_MAX {
                    sum
                } else {
                    RATING_MAX
                }
            } else if sum > RATING_MIN {
                sum
            } else {
                RATING_MIN
            }
        },
    };
    map.insert(name.clone(), value);
}

/// Whether rating `article` with `action` would overflow a rating of
/// `bubble`, which `update_rating` does not allow.
pub fn rating_would_overflow(bubble: &Bubble, article: &Article, action: &str) -> (r: bool)
    ensures
        r == !rating_update_fits(*bubble, *article, rating_action_of(action@)),
{
    let action = parse_action(action);
    !(fits_exec(&bubble.sources, &article.source, &action) && fits_exec(
        &bubble.categories,
        &article.category,
        &action,
    ) && fits_exec(&bubble.languages, &article.language, &action))
}

fn fits_exec(map: &RatingMap, name: &String, action: &RatingAction) -> (r: bool)
    ensures
        r == rating_fits(map@, name@, *action),
{
    match map.get(name) {
        None => true,
        Some(v) => match action {
            RatingAction::Like => v <= i32::MAX - LIKE_MULTI,
            RatingAction::Save => v <= i32::MAX - SAVE_MULTI,
            RatingAction::Dislike => v >= i32::MIN - DISLIKE_MULTI,
            RatingAction::Ignored => true,
        },
    }
}

/// Moves the ratings of `bubble` by the reader's reaction `action` to
/// `article`: a like adds 3 and a save adds 5 to the ratings of the
/// article's source, category and language, up to 25; a dislike takes 2
/// from them, down to -25, and then lifts every source and category rated at
/// or below -10 by one. A name not yet rated gets the step itself. Any other
/// word changes nothing.
pub fn update_rating(bubble: &mut Bubble, article: &Article, action: &str)
    requires
        rating_update_fits(*old(bubble), *article, rating_action_of(action@)),
    ensures
        final(bubble).sources@ == rated_and_softened(
            old(bubble).sources@,
            article.source@,
            rating_action_of(action@),
        ),
        final(bubble).categories@ == rated_and_softened(
            old(bubble).categories@,
            article.category@,
            rating_action_of(action@),
        ),
        final(bubble).languages@ == rated(
            old(bubble).languages@,
            article.language@,
            rating_action_of(action@),
        ),
        final(bubble)._id == old(bubble)._id,
        final(bubble).user_id == old(bubble).user_id,
        final(bubble).current_feed == old(bubble).current_feed,
        final(bubble).last_refresh == old(bubble).last_refresh,
{
    let action = parse_action(action);
    rate_name(&mut bubble.sources, &article.source, &action);
    rate_name(&mut bubble.categories, &article.category, &action);
    rate_name(&mut bubble.languages, &article.language, &action);
    if let RatingAction::Dislike = action {
        bubble.sources.soften_low_ratings();
        bubble.categories.soften_low_ratings();
    }
}

/// The first position in `data` that holds the same story as `article`.
pub open spec fn first_same_story(data: Seq<Article>, article: Article) -> Option<int> {
    if exists|i: int| 0 <= i < data.len() && same_story(data[i], article) {
        Some(
            choose|i: int|
                0 <= i < data.len() && same_story(data[i], article) && forall|j: int|
                    0 <= j < i ==> !same_story(data[j], article),
        )
    } else {
        None
    }
}

/// `data` without the first article that tells the same story as `article`.
pub open spec fn without_story(data: Seq<Article>, article: Article) -> Seq<Article> {
    match first_same_story(data, article) {
        Some(i) => data.remove(i),
        None => data,
    }
}

/// Takes the first article that tells the same story as `article` out of
/// `feed`; the rest of the feed stays as it was.
pub fn remove_story(feed: &mut Feed, article: &Article)
    ensures
        final(feed).data@ == without_story(old(feed).data@, *article),
        final(feed).pagination == old(feed).pagination,
        final(feed).refresh_cooldown == old(feed).refresh_cooldown,
{
    let n = feed.data.len();
    let mut i: usize = 0;
    while i < n
        invariant
            n == feed.data@.len(),
            feed.data@ == old(feed).data@,
            feed.pagination == old(feed).pagination,
            feed.refresh_cooldown == old(feed).refresh_cooldown,
            i <= n,
            forall|j: int| 0 <= j < i ==> !same_story(feed.data@[j], *article),
        decreases n - i,
    {
        if feed.data[i].same_story_as(article) {
            proof {
                let data = old(feed).data@;
                assert(exists|k: int| 0 <= k < data.len() && same_story(data[k], *article));
                let c = first_same_story(data, *article)->0;
                assert(c == i as int) by {
                    if c < i {
                        assert(!same_story(data[c], *article));
                    } else if c > i {
                        assert(!same_story(data[i as int], *article));
                    }
                }
            }
            feed.data.remove(i);
            return;
        }
        i = i + 1;
    }
}

} // verus!
