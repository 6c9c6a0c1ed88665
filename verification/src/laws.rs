//! Properties that hold across the library's operations.

use crate::auth::{is_refusal, token_step_spec, TokenAction, TokenCheck, TokenEvent, TokenStage};
use crate::clock::{cooldown_after, cooldown_left, elapsed_minutes, naive_time_from_str, TimeOfDay, TIMER_MAX};
use crate::feed::{feed_step_spec, FeedAction, FeedEvent, FeedFlow};
use crate::models::{same_story, Article};
use crate::rating::{
    first_same_story, rated, rated_and_softened, rating_fits, without_story,
    RatingAction, RATING_MAX, RATING_MIN,
};
use crate::news::{exclusion_list, low_names};
use crate::ratings::{softened, LOW_RATING_CUTOFF};
use crate::reply::Reply;
use crate::routes::{route_step_spec, RouteAction, RouteEvent, RouteStage};
use vstd::prelude::*;

verus! {

/// Every rating of `m` lies between `RATING_MIN` and `RATING_MAX`.
pub open spec fn ratings_in_range(m: Map<Seq<char>, i32>) -> bool {
    forall|k: Seq<char>| #[trigger] m.contains_key(k) ==> RATING_MIN <= m[k] <= RATING_MAX
}

/// Ratings that lie between -25 and 25 stay there, whatever the reader
/// does, for maps that are softened after a dislike and for maps that are not.
pub proof fn lemma_ratings_stay_in_range(m: Map<Seq<char>, i32>, name: Seq<char>, action: RatingAction)
    requires
        ratings_in_range(m),
    ensures
        ratings_in_range(rated(m, name, action)),
        ratings_in_range(rated_and_softened(m, name, action)),
{
    let r = rated(m, name, action);
    assert forall|k: Seq<char>| #[trigger] r.contains_key(k) implies RATING_MIN <= r[k]
        <= RATING_MAX by {
        if k != name {
            assert(m.contains_key(k));
        }
    }
    if action is Dislike {
        let s = r.map_values(|v: i32| softened(v));
        assert forall|k: Seq<char>| #[trigger] s.contains_key(k) implies RATING_MIN <= s[k]
            <= RATING_MAX by {
            assert(r.contains_key(k));
        }
    }
}

/// A reaction to a name rated between -25 and 25 never overflows, so
/// profiles whose ratings stay in range can always be rated.
pub proof fn lemma_in_range_fits(m: Map<Seq<char>, i32>, name: Seq<char>, action: RatingAction)
    requires
        ratings_in_range(m),
    ensures
        rating_fits(m, name, action),
{
}

/// A word that names no reaction leaves the ratings as they are.
pub proof fn lemma_ignored_changes_nothing(m: Map<Seq<char>, i32>, name: Seq<char>)
    ensures
        rated(m, name, RatingAction::Ignored) == m,
        rated_and_softened(m, name, RatingAction::Ignored) == m,
{
}

/// A like or a save never lowers a rating of at most 25, and a dislike
/// never raises a rating of at least -25 (before the low ratings of the
/// map are lifted).
pub proof fn lemma_reaction_direction(m: Map<Seq<char>, i32>, name: Seq<char>, action: RatingAction)
    requires
        m.contains_key(name),
        RATING_MIN <= m[name] <= RATING_MAX,
    ensures
        (action is Like || action is Save) ==> rated(m, name, action)[name] >= m[name],
        action is Dislike ==> rated(m, name, action)[name] <= m[name],
{
}

/// A reaction rates the article's name: afterwards the name has a rating.
pub proof fn lemma_reaction_rates_name(m: Map<Seq<char>, i32>, name: Seq<char>, action: RatingAction)
    requires
        !(action is Ignored),
    ensures
        rated_and_softened(m, name, action).contains_key(name),
        rated(m, name, action).contains_key(name),
{
}

/// Taking a story out of a feed takes out exactly one article when the
/// story is there, and none otherwise; the other articles keep their order.
pub proof fn lemma_without_story(data: Seq<Article>, article: Article)
    ensures
        (exists|i: int| 0 <= i < data.len() && same_story(data[i], article)) ==> without_story(
            data,
            article,
        ).len() == data.len() - 1,
        !(exists|i: int| 0 <= i < data.len() && same_story(data[i], article)) ==> without_story(
            data,
            article,
        ) == data,
        forall|j: int|
            0 <= j < without_story(data, article).len() ==> #[trigger] without_story(
                data,
                article,
            )[j] == data[if first_same_story(data, article) matches Some(i) && j >= i {
                j + 1
            } else {
                j
            }],
{
    if exists|i: int| 0 <= i < data.len() && same_story(data[i], article) {
        let w = choose|i: int| 0 <= i < data.len() && same_story(data[i], article);
        lemma_first_index_exists(data, article, w);
    }
}

/// Where a story occurs, there is a first position at which it does.
proof fn lemma_first_index_exists(data: Seq<Article>, article: Article, w: int)
    requires
        0 <= w < data.len(),
        same_story(data[w], article),
    ensures
        exists|i: int|
            0 <= i < data.len() && same_story(data[i], article) && forall|j: int|
                0 <= j < i ==> !same_story(data[j], article),
    decreases w,
{
    if exists|j: int| 0 <= j < w && same_story(data[j], article) {
        let v = choose|j: int| 0 <= j < w && same_story(data[j], article);
        lemma_first_index_exists(data, article, v);
    } else {
        assert(forall|j: int| 0 <= j < w ==> !same_story(data[j], article));
    }
}

/// Between two valid times of day, at most a day's minutes pass.
pub proof fn lemma_elapsed_minutes_bounded(later: TimeOfDay, earlier: TimeOfDay)
    requires
        later.seconds() < 86_400,
        later.nanos() < 2_000_000_000,
        earlier.seconds() < 86_400,
        earlier.nanos() < 2_000_000_000,
    ensures
        -1440 <= elapsed_minutes(later, earlier) <= 1440,
{
}

/// A guarded request reaches the store only after the session's tokens held.
pub proof fn lemma_store_only_when_authorized<T>(e: RouteEvent<T>, t: RouteStage, a: RouteAction<T>)
    requires
        route_step_spec(e, t, a),
        a is RunStore,
    ensures
        e == RouteEvent::<T>::TokenChecked(true),
{
}

/// A session whose tokens do not hold is answered `Unauthorized`.
pub proof fn lemma_refused_session_unauthorized<T>(t: RouteStage, a: RouteAction<T>)
    requires
        route_step_spec(RouteEvent::<T>::TokenChecked(false), t, a),
    ensures
        a == RouteAction::<T>::Respond(Reply::Unauthorized),
        t == RouteStage::Finished,
{
}

/// A token check accepts a session only when the lookup confirmed the
/// identity token, or when the refreshed tokens were stored.
pub proof fn lemma_token_accepts_only_confirmed(
    s: TokenCheck,
    e: TokenEvent,
    t: TokenCheck,
    a: TokenAction,
)
    requires
        token_step_spec(s, e, t, a),
        a == TokenAction::Done(Ok(())),
    ensures
        e == TokenEvent::LookupStatus(Some(200u16)) || e == TokenEvent::TokensStored,
{
}

/// A session with an identity token that the lookup confirms is accepted
/// in three steps, without reading the refresh token.
pub proof fn lemma_confirmed_session_accepted(
    s0: TokenCheck,
    id: String,
    s1: TokenCheck,
    a1: TokenAction,
    s2: TokenCheck,
    a2: TokenAction,
    s3: TokenCheck,
    a3: TokenAction,
)
    requires
        s0.stage == TokenStage::AwaitingStart,
        token_step_spec(s0, TokenEvent::Begin, s1, a1),
        token_step_spec(s1, TokenEvent::IdToken(Some(id)), s2, a2),
        token_step_spec(s2, TokenEvent::LookupStatus(Some(200u16)), s3, a3),
    ensures
        a1 == TokenAction::ReadIdToken,
        a2 matches TokenAction::PostLookup { id_token, .. } && id_token == id,
        a3 == TokenAction::Done(Ok(())),
{
}

/// A session without tokens is refused with the failure text.
pub proof fn lemma_session_without_tokens_refused(
    s0: TokenCheck,
    s1: TokenCheck,
    a1: TokenAction,
    s2: TokenCheck,
    a2: TokenAction,
    s3: TokenCheck,
    a3: TokenAction,
)
    requires
        token_step_spec(s0, TokenEvent::Begin, s1, a1),
        token_step_spec(s1, TokenEvent::IdToken(None), s2, a2),
        token_step_spec(s2, TokenEvent::RefreshToken(None), s3, a3),
    ensures
        a2 == TokenAction::ReadRefreshToken,
        is_refusal(a3),
{
}

/// The news service is only asked for a feed for an authenticated session.
pub proof fn lemma_news_only_when_authorized(s: FeedFlow, e: FeedEvent, t: FeedFlow, a: FeedAction)
    requires
        feed_step_spec(s, e, t, a),
        a is FetchNews,
    ensures
        s.authorized,
{
}

/// A missing profile is answered `Unauthorized`.
pub proof fn lemma_missing_profile_unauthorized(s: FeedFlow, t: FeedFlow, a: FeedAction)
    requires
        feed_step_spec(s, FeedEvent::BubbleLoaded(None), t, a),
    ensures
        a == FeedAction::Respond(Reply::Unauthorized),
{
}

/// A name is excluded from the news request exactly when one of its
/// entries is rated at or below the cutoff, and the excluded names keep the
/// order of the entries.
pub proof fn lemma_low_names_are_the_low_rated(entries: Seq<(Seq<char>, i32)>)
    ensures
        forall|k: Seq<char>|
            low_names(entries).contains(k) <==> exists|i: int|
                0 <= i < entries.len() && entries[i].0 == k && entries[i].1 <= LOW_RATING_CUTOFF,
        low_names(entries).len() <= entries.len(),
    decreases entries.len(),
{
    if entries.len() > 0 {
        let rest = entries.drop_last();
        lemma_low_names_are_the_low_rated(rest);
        assert forall|k: Seq<char>|
            low_names(entries).contains(k) <==> exists|i: int|
                0 <= i < entries.len() && entries[i].0 == k && entries[i].1
                    <= LOW_RATING_CUTOFF by {
            if low_names(entries).contains(k) {
                if low_names(rest).contains(k) {
                    let i = choose|i: int|
                        0 <= i < rest.len() && rest[i].0 == k && rest[i].1 <= LOW_RATING_CUTOFF;
                    assert(entries[i] == rest[i]);
                } else {
                    let n = entries.len() - 1;
                    assert(low_names(entries) == low_names(rest).push(entries.last().0));
                    assert(entries[n as int].0 == k);
                }
            }
            if exists|i: int|
                0 <= i < entries.len() && entries[i].0 == k && entries[i].1 <= LOW_RATING_CUTOFF {
                let i = choose|i: int|
                    0 <= i < entries.len() && entries[i].0 == k && entries[i].1
                        <= LOW_RATING_CUTOFF;
                if i < entries.len() - 1 {
                    assert(rest[i] == entries[i]);
                    assert(low_names(rest).contains(k));
                    if entries.last().1 <= LOW_RATING_CUTOFF {
                        let j = choose|j: int| 0 <= j < low_names(rest).len() && low_names(rest)[j] == k;
                        assert(low_names(entries)[j] == k);
                    }
                } else {
                    assert(low_names(entries) == low_names(rest).push(entries.last().0));
                    assert(low_names(entries)[low_names(rest).len() as int] == k);
                }
            }
        }
    }
}

/// A feed served from the store carries a cooldown between 0 and
/// `TIMER_MAX` minutes.
pub proof fn lemma_cooldown_bounded(elapsed: int)
    ensures
        cooldown_after(elapsed) matches Some(c) ==> 0 <= c <= TIMER_MAX,
        cooldown_after(elapsed) is None <==> (elapsed < 0 || elapsed > TIMER_MAX),
{
}

/// A refresh time that reads back as `now` gives the whole cooldown at
/// `now`: a feed refreshed a moment ago is served from the store.
pub proof fn lemma_fresh_stamp_cools_down(now: TimeOfDay, text: String)
    requires
        naive_time_from_str(text@) == Some((now.seconds(), now.nanos())),
    ensures
        cooldown_left(Some(text), now) == Some(TIMER_MAX as int),
{
}

/// A like adds 3 to the rating of the article's name, up to 25, whatever
/// the rating was; a name without a rating gets 3. No other name changes.
pub proof fn lemma_like_adds_three(m: Map<Seq<char>, i32>, name: Seq<char>)
    ensures
        rated(m, name, RatingAction::Like).contains_key(name),
        m.contains_key(name) ==> rated(m, name, RatingAction::Like)[name] == (if m[name] + 3 < 25 {
            m[name] + 3
        } else {
            25
        }),
        !m.contains_key(name) ==> rated(m, name, RatingAction::Like)[name] == 3,
        forall|k: Seq<char>|
            k != name ==> (#[trigger] rated(m, name, RatingAction::Like).contains_key(k)
                == m.contains_key(k) && (m.contains_key(k) ==> rated(
                m,
                name,
                RatingAction::Like,
            )[k] == m[k])),
{
}

/// A save adds 5 to the rating of the article's name, up to 25, whatever
/// the rating was; a name without a rating gets 5. No other name changes.
pub proof fn lemma_save_adds_five(m: Map<Seq<char>, i32>, name: Seq<char>)
    ensures
        rated(m, name, RatingAction::Save).contains_key(name),
        m.contains_key(name) ==> rated(m, name, RatingAction::Save)[name] == (if m[name] + 5 < 25 {
            m[name] + 5
        } else {
            25
        }),
        !m.contains_key(name) ==> rated(m, name, RatingAction::Save)[name] == 5,
        forall|k: Seq<char>|
            k != name ==> (#[trigger] rated(m, name, RatingAction::Save).contains_key(k)
                == m.contains_key(k) && (m.contains_key(k) ==> rated(
                m,
                name,
                RatingAction::Save,
            )[k] == m[k])),
{
}

/// A dislike takes 2 from the rating of the article's name, down to -25,
/// whatever the rating was; a name without a rating gets -2. No other name
/// changes. Where low ratings are then lifted, the new rating is lifted by
/// one when it is at or below -10, and so is every other rating at or below
/// -10; ratings above -10 stay as they are.
pub proof fn lemma_dislike_takes_two(m: Map<Seq<char>, i32>, name: Seq<char>)
    ensures
        rated(m, name, RatingAction::Dislike).contains_key(name),
        m.contains_key(name) ==> rated(m, name, RatingAction::Dislike)[name] == (if m[name] - 2
            > -25 {
            m[name] - 2
        } else {
            -25
        }),
        !m.contains_key(name) ==> rated(m, name, RatingAction::Dislike)[name] == -2,
        forall|k: Seq<char>|
            k != name ==> (#[trigger] rated(m, name, RatingAction::Dislike).contains_key(k)
                == m.contains_key(k) && (m.contains_key(k) ==> rated(
                m,
                name,
                RatingAction::Dislike,
            )[k] == m[k])),
        forall|k: Seq<char>| #[trigger]
            rated_and_softened(m, name, RatingAction::Dislike).contains_key(k)
                == rated(m, name, RatingAction::Dislike).contains_key(k),
        forall|k: Seq<char>|
            #[trigger] rated(m, name, RatingAction::Dislike).contains_key(k) ==> rated_and_softened(
                m,
                name,
                RatingAction::Dislike,
            )[k] == (if rated(m, name, RatingAction::Dislike)[k] <= -10 {
                rated(m, name, RatingAction::Dislike)[k] + 1
            } else {
                rated(m, name, RatingAction::Dislike)[k] as int
            }),
{
}

/// Two articles tell the same story exactly when author, title and
/// description all agree.
pub proof fn lemma_same_story_is_author_title_description(a: Article, b: Article)
    ensures
        same_story(a, b) <==> (a.author@ == b.author@ && a.title@ == b.title@ && a.description@
            == b.description@),
{
}

/// Taking a rated story out of a feed removes the first article whose
/// author, title and description all equal the rated article's, and only
/// that one; when no article agrees on all three, the feed is unchanged.
pub proof fn lemma_removes_only_the_rated_story(data: Seq<Article>, article: Article)
    ensures
        (exists|i: int|
            0 <= i < data.len() && data[i].author@ == article.author@ && data[i].title@
                == article.title@ && data[i].description@ == article.description@) ==> exists|
            i: int,
        |
            0 <= i < data.len() && data[i].author@ == article.author@ && data[i].title@
                == article.title@ && data[i].description@ == article.description@ && (forall|
                j: int,
            |
                0 <= j < i ==> !(data[j].author@ == article.author@ && data[j].title@
                    == article.title@ && data[j].description@ == article.description@))
                && without_story(data, article) == data.remove(i),
        !(exists|i: int|
            0 <= i < data.len() && data[i].author@ == article.author@ && data[i].title@
                == article.title@ && data[i].description@ == article.description@)
            ==> without_story(data, article) == data,
{
    if exists|i: int|
        0 <= i < data.len() && data[i].author@ == article.author@ && data[i].title@
            == article.title@ && data[i].description@ == article.description@ {
        let w = choose|i: int|
            0 <= i < data.len() && data[i].author@ == article.author@ && data[i].title@
                == article.title@ && data[i].description@ == article.description@;
        assert(same_story(data[w], article));
        lemma_first_index_exists(data, article, w);
        let c = first_same_story(data, article)->0;
        assert(same_story(data[c], article));
        assert forall|j: int| 0 <= j < c implies !(data[j].author@ == article.author@
            && data[j].title@ == article.title@ && data[j].description@
            == article.description@) by {
            assert(!same_story(data[j], article));
        }
        assert(without_story(data, article) == data.remove(c));
        assert(0 <= c < data.len() && data[c].author@ == article.author@ && data[c].title@
            == article.title@ && data[c].description@ == article.description@ && (forall|j: int|
            0 <= j < c ==> !(data[j].author@ == article.author@ && data[j].title@
                == article.title@ && data[j].description@ == article.description@))
            && without_story(data, article) == data.remove(c));
    } else {
        assert forall|i: int| 0 <= i < data.len() implies !same_story(data[i], article) by {}
    }
}

/// While at most 20 minutes have passed since the last refresh, exactly
/// 20 minus that many minutes of cooldown are left; otherwise none.
pub proof fn lemma_cooldown_is_twenty_minus_elapsed(elapsed: int)
    ensures
        0 <= elapsed <= 20 ==> cooldown_after(elapsed) == Some(20 - elapsed),
        (elapsed < 0 || elapsed > 20) ==> cooldown_after(elapsed) is None,
{
}

/// The exclusion list names every name, each after a `-`: one name is
/// `-name`, and one more name appends `, -name` to the list of the others.
pub proof fn lemma_exclusion_list_names_all(names: Seq<Seq<char>>, x: Seq<char>)
    ensures
        exclusion_list(Seq::<Seq<char>>::empty()) == Seq::<char>::empty(),
        exclusion_list(Seq::<Seq<char>>::empty().push(x)) == "-"@ + x,
        names.len() > 0 ==> exclusion_list(names.push(x)) == exclusion_list(names) + ", -"@ + x,
{
    assert(names.push(x).drop_last() =~= names);
    assert(Seq::<Seq<char>>::empty().push(x)[0] == x);
}

} // verus!
