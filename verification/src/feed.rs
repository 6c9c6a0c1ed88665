//! Serving a reader's feed: the stored feed while the refresh cooldown
//! runs, otherwise a new feed from the news service without the sources,
//! categories and languages the reader rated low.
//!
//! The handler is a machine: the caller performs the action that a step
//! returns (a token check, a store operation, a clock reading, a request to
//! the news service) and hands back what came of it as the next event.

use crate::clock::{
    cooldown_left, naive_time_text, refresh_plan, refresh_unreadable, RefreshPlan, TimeOfDay,
};
use crate::models::{same_feed, Bubble, Feed};
use crate::news::{query_matches_profile, NewsQuery};
use crate::reply::Reply;
use vstd::prelude::*;

verus! {

/// How far serving a feed has come: what it waits for.
pub enum FeedStage {
    AwaitingStart,
    AwaitingToken,
    AwaitingBubble,
    AwaitingClock,
    AwaitingCachedFeed,
    AwaitingBubbleSaved,
    AwaitingNews,
    AwaitingFeedSaved,
    AwaitingFallbackFeed,
    Finished,
}

/// What the news service answered.
pub enum NewsReply {
    /// The request failed.
    RequestFailed,
    /// The answer's body is no feed.
    UnreadableBody,
    /// A feed.
    Fetched(Feed),
}

/// What came of the last action of serving a feed.
pub enum FeedEvent {
    /// Serving starts.
    Begin,
    /// Whether the session's tokens hold.
    TokenChecked(bool),
    /// The reader's profile, or none when the store has none or failed.
    BubbleLoaded(Option<Bubble>),
    /// The local time of day.
    ClockRead(TimeOfDay),
    /// The reader's stored feed, or none when the store failed.
    CurrentFeed(Option<Feed>),
    /// The profile was written back (whether or not that succeeded).
    BubbleSaved,
    /// The news service's answer.
    NewsFetched(NewsReply),
    /// The new feed was stored (whether or not that succeeded).
    FeedSaved,
}

/// What serving a feed asks its caller to do next.
pub enum FeedAction {
    /// Check the session's tokens.
    CheckToken,
    /// Load the profile of `user_id`.
    LoadBubble { user_id: String },
    /// Read the local time of day.
    ReadClock,
    /// Load the stored feed of `user_id`.
    LoadCurrentFeed { user_id: String },
    /// Write `bubble` back to the store.
    SaveBubble { bubble: Bubble },
    /// Ask the news service for a feed with the exclusions of `query`.
    FetchNews { query: NewsQuery },
    /// Store `feed` as the current feed of `user_id`.
    SaveFeed { user_id: String, feed: Feed },
    /// Answer the client.
    Respond(Reply<Feed>),
    /// The profile's refresh time is no time of day; the caller stops with
    /// this message.
    Fail(String),
}

/// Serving the feed of one reader.
pub struct FeedFlow {
    pub user_id: String,
    pub stage: FeedStage,
    /// Whether the session's tokens held.
    pub authorized: bool,
    /// The profile, while the clock is read.
    pub bubble: Option<Bubble>,
    /// The exclusions of the profile, once the clock was read.
    pub query: Option<NewsQuery>,
    /// The minutes left of the cooldown, while the stored feed is loaded.
    pub cooldown: i32,
    /// The fetched feed, while it is stored.
    pub fetched: Option<Feed>,
}

/// The fields that a flow at its stage relies on are there.
pub open spec fn feed_flow_ready(s: FeedFlow) -> bool {
    match s.stage {
        FeedStage::AwaitingClock => s.bubble is Some,
        FeedStage::AwaitingCachedFeed => s.query is Some,
        FeedStage::AwaitingBubbleSaved => s.query is Some,
        FeedStage::AwaitingFeedSaved => s.fetched is Some,
        _ => true,
    }
}

/// The events that a flow waiting at `stage` accepts.
pub open spec fn feed_accepts(stage: FeedStage, e: FeedEvent) -> bool {
    match stage {
        FeedStage::AwaitingStart => e is Begin,
        FeedStage::AwaitingToken => e is TokenChecked,
        FeedStage::AwaitingBubble => e is BubbleLoaded,
        FeedStage::AwaitingClock => e is ClockRead,
        FeedStage::AwaitingCachedFeed => e is CurrentFeed,
        FeedStage::AwaitingBubbleSaved => e is BubbleSaved,
        FeedStage::AwaitingNews => e is NewsFetched,
        FeedStage::AwaitingFeedSaved => e is FeedSaved,
        FeedStage::AwaitingFallbackFeed => e is CurrentFeed,
        FeedStage::Finished => false,
    }
}

/// After the stored feed or the profile's write-back: a request for a new
/// feed when the session was authenticated, a refusal otherwise.
pub open spec fn fetch_or_refuse(s: FeedFlow, t: FeedFlow, a: FeedAction) -> bool {
    if s.authorized {
        t.stage == FeedStage::AwaitingNews && a == FeedAction::FetchNews { query: s.query->0 }
    } else {
        t.stage == FeedStage::Finished && a == FeedAction::Respond(Reply::Unauthorized)
    }
}

/// The profile `b` is written back with `now` as its refresh time.
pub open spec fn stamped(b: Bubble, now: TimeOfDay, a: FeedAction) -> bool {
    a matches FeedAction::SaveBubble { bubble } && bubble.last_refresh matches Some(text) && text@
        == naive_time_text(now.seconds(), now.nanos()) && bubble._id == b._id && bubble.user_id
        == b.user_id && bubble.current_feed == b.current_feed && bubble.sources == b.sources
        && bubble.categories == b.categories && bubble.languages == b.languages
}

/// The transition of a flow from `s` on event `e` to `t`, asking for
/// action `a`.
pub open spec fn feed_step_spec(s: FeedFlow, e: FeedEvent, t: FeedFlow, a: FeedAction) -> bool {
    &&& t.user_id == s.user_id
    &&& feed_flow_ready(t)
    &&& match e {
        FeedEvent::Begin => t.stage == FeedStage::AwaitingToken && a == FeedAction::CheckToken,
        FeedEvent::TokenChecked(ok) => t.stage == FeedStage::AwaitingBubble && t.authorized == ok
            && (a matches FeedAction::LoadBubble { user_id } && user_id == s.user_id),
        FeedEvent::BubbleLoaded(None) => t.stage == FeedStage::Finished && a == FeedAction::Respond(
            Reply::Unauthorized,
        ),
        FeedEvent::BubbleLoaded(Some(b)) => t.stage == FeedStage::AwaitingClock && t.authorized
            == s.authorized && t.bubble == Some(b) && a == FeedAction::ReadClock,
        FeedEvent::ClockRead(now) => {
            let b = s.bubble->0;
            if refresh_unreadable(b.last_refresh) {
                t.stage == FeedStage::Finished && a is Fail
            } else {
                &&& t.authorized == s.authorized
                &&& t.query matches Some(q) && query_matches_profile(q, b)
                &&& match cooldown_left(b.last_refresh, now) {
                    Some(c) => t.stage == FeedStage::AwaitingCachedFeed && t.cooldown == c && (a matches FeedAction::LoadCurrentFeed {
                        user_id,
                    } && user_id == s.user_id),
                    None => t.stage == FeedStage::AwaitingBubbleSaved && stamped(b, now, a),
                }
            }
        },
        FeedEvent::CurrentFeed(found) => if s.stage == FeedStage::AwaitingCachedFeed {
            match found {
                Some(f) => t.stage == FeedStage::Finished && (a matches FeedAction::Respond(
                    Reply::Success(g),
                ) && g.data@ == f.data@ && g.pagination == f.pagination && g.refresh_cooldown
                    == Some(s.cooldown)),
                None => fetch_or_refuse(s, t, a),
            }
        } else {
            t.stage == FeedStage::Finished && match found {
                Some(f) => a == FeedAction::Respond(Reply::Success(f)),
                None => a == FeedAction::Respond(Reply::Unauthorized),
            }
        },
        FeedEvent::BubbleSaved => fetch_or_refuse(s, t, a),
        FeedEvent::NewsFetched(NewsReply::RequestFailed) => t.stage == FeedStage::Finished && a
            == FeedAction::Respond(Reply::Unauthorized),
        FeedEvent::NewsFetched(NewsReply::UnreadableBody) => t.stage
            == FeedStage::AwaitingFallbackFeed && (a matches FeedAction::LoadCurrentFeed { user_id }
            && user_id == s.user_id),
        FeedEvent::NewsFetched(NewsReply::Fetched(f)) => t.stage == FeedStage::AwaitingFeedSaved
            && t.fetched == Some(f) && (a matches FeedAction::SaveFeed { user_id, feed } && user_id
            == s.user_id && same_feed(feed, f)),
        FeedEvent::FeedSaved => t.stage == FeedStage::Finished && a == FeedAction::Respond(
            Reply::Success(s.fetched->0),
        ),
    }
}

impl FeedFlow {
    /// Serving the feed of `user_id`, not started.
    pub fn new(user_id: String) -> (f: FeedFlow)
        ensures
            f.user_id == user_id,
            f.stage == FeedStage::AwaitingStart,
            feed_flow_ready(f),
    {
        FeedFlow {
            user_id,
            stage: FeedStage::AwaitingStart,
            authorized: false,
            bubble: None,
            query: None,
            cooldown: 0,
            fetched: None,
        }
    }

    /// The next stage and action after event `e`. The tokens are checked
    /// first and the profile loaded; without a profile the reader is
    /// refused. While fewer than `TIMER_MAX` minutes passed since the last
    /// refresh, the stored feed is served with the minutes left. Otherwise
    /// the refresh time is set to now and, for an authenticated session, a
    /// new feed is fetched without the names the reader rated low, stored
    /// and served; when its body is unreadable the stored feed is served.
    pub fn step(self, e: FeedEvent) -> (r: (FeedFlow, FeedAction))
        requires
            feed_accepts(self.stage, e),
            feed_flow_ready(self),
        ensures
            feed_step_spec(self, e, r.0, r.1),
    {
        let FeedFlow { user_id, stage, authorized, bubble, query, cooldown, fetched } = self;
        let ghost s = self;
        match e {
            FeedEvent::Begin => (
                FeedFlow {
                    user_id,
                    stage: FeedStage::AwaitingToken,
                    authorized,
                    bubble: None,
                    query: None,
                    cooldown,
                    fetched: None,
                },
                FeedAction::CheckToken,
            ),
            FeedEvent::TokenChecked(ok) => {
                let id = user_id.clone();
                (
                    FeedFlow {
                        user_id,
                        stage: FeedStage::AwaitingBubble,
                        authorized: ok,
                        bubble: None,
                        query: None,
                        cooldown,
                        fetched: None,
                    },
                    FeedAction::LoadBubble { user_id: id },
                )
            },
            FeedEvent::BubbleLoaded(found) => match found {
                None => (
                    FeedFlow {
                        user_id,
                        stage: FeedStage::Finished,
                        authorized,
                        bubble: None,
                        query: None,
                        cooldown,
                        fetched: None,
                    },
                    FeedAction::Respond(Reply::Unauthorized),
                ),
                Some(b) => (
                    FeedFlow {
                        user_id,
                        stage: FeedStage::AwaitingClock,
                        authorized,
                        bubble: Some(b),
                        query: None,
                        cooldown,
                        fetched: None,
                    },
                    FeedAction::ReadClock,
                ),
            },
            FeedEvent::ClockRead(now) => {
                let mut b = bubble.unwrap();
                let plan = refresh_plan(&b.last_refresh, &now);
                let q = NewsQuery::for_profile(&b);
                match plan {
                    RefreshPlan::Unreadable => (
                        FeedFlow {
                            user_id,
                            stage: FeedStage::Finished,
                            authorized,
                            bubble: None,
                            query: None,
                            cooldown,
                            fetched: None,
                        },
                        FeedAction::Fail("the profile's refresh time is no time of day".to_owned()),
                    ),
                    RefreshPlan::Cooldown(c) => {
                        let id = user_id.clone();
                        (
                            FeedFlow {
                                user_id,
                                stage: FeedStage::AwaitingCachedFeed,
                                authorized,
                                bubble: None,
                                query: Some(q),
                                cooldown: c,
                                fetched: None,
                            },
                            FeedAction::LoadCurrentFeed { user_id: id },
                        )
                    },
                    RefreshPlan::Stamp(text) => {
                        b.last_refresh = Some(text);
                        (
                            FeedFlow {
                                user_id,
                                stage: FeedStage::AwaitingBubbleSaved,
                                authorized,
                                bubble: None,
                                query: Some(q),
                                cooldown,
                                fetched: None,
                            },
                            FeedAction::SaveBubble { bubble: b },
                        )
                    },
                }
            },
            FeedEvent::CurrentFeed(found) => {
                if let FeedStage::AwaitingCachedFeed = stage {
                    match found {
                        Some(mut f) => {
                            f.refresh_cooldown = Some(cooldown);
                            (
                                FeedFlow {
                                    user_id,
                                    stage: FeedStage::Finished,
                                    authorized,
                                    bubble: None,
                                    query: None,
                                    cooldown,
                                    fetched: None,
                                },
                                FeedAction::Respond(Reply::Success(f)),
                            )
                        },
                        None => Self::fetch_or_refuse(user_id, authorized, query),
                    }
                } else {
                    let reply = match found {
                        Some(f) => Reply::Success(f),
                        None => Reply::Unauthorized,
                    };
                    (
                        FeedFlow {
                            user_id,
                            stage: FeedStage::Finished,
                            authorized,
                            bubble: None,
                            query: None,
                            cooldown,
                            fetched: None,
                        },
                        FeedAction::Respond(reply),
                    )
                }
            },
            FeedEvent::BubbleSaved => Self::fetch_or_refuse(user_id, authorized, query),
            FeedEvent::NewsFetched(news) => match news {
                NewsReply::RequestFailed => (
                    FeedFlow {
                        user_id,
                        stage: FeedStage::Finished,
                        authorized,
                        bubble: None,
                        query: None,
                        cooldown,
                        fetched: None,
                    },
                    FeedAction::Respond(Reply::Unauthorized),
                ),
                NewsReply::UnreadableBody => {
                    let id = user_id.clone();
                    (
                        FeedFlow {
                            user_id,
                            stage: FeedStage::AwaitingFallbackFeed,
                            authorized,
                            bubble: None,
                            query: None,
                            cooldown,
                            fetched: None,
                        },
                        FeedAction::LoadCurrentFeed { user_id: id },
                    )
                },
                NewsReply::Fetched(f) => {
                    let id = user_id.clone();
                    let copy = f.duplicate();
                    (
                        FeedFlow {
                            user_id,
                            stage: FeedStage::AwaitingFeedSaved,
                            authorized,
                            bubble: None,
                            query: None,
                            cooldown,
                            fetched: Some(f),
                        },
                        FeedAction::SaveFeed { user_id: id, feed: copy },
                    )
                },
            },
            FeedEvent::FeedSaved => (
                FeedFlow {
                    user_id,
                    stage: FeedStage::Finished,
                    authorized,
                    bubble: None,
                    query: None,
                    cooldown,
                    fetched: None,
                },
                FeedAction::Respond(Reply::Success(fetched.unwrap())),
            ),
        }
    }

    /// A request for a new feed when `authorized`, a refusal otherwise.
    fn fetch_or_refuse(user_id: String, authorized: bool, query: Option<NewsQuery>) -> (r: (FeedFlow, FeedAction))
        requires
            query is Some,
        ensures
            r.0.user_id == user_id,
            r.0.authorized == authorized,
            feed_flow_ready(r.0),
            authorized ==> (r.0.stage == FeedStage::AwaitingNews && r.1 == (FeedAction::FetchNews {
                query: query->0,
            })),
            !authorized ==> r.0.stage == FeedStage::Finished && r.1 == FeedAction::Respond(
                Reply::Unauthorized,
            ),
    {
        if authorized {
            (
                FeedFlow {
                    user_id,
                    stage: FeedStage::AwaitingNews,
                    authorized,
                    bubble: None,
                    query: None,
                    cooldown: 0,
                    fetched: None,
                },
                FeedAction::FetchNews { query: query.unwrap() },
            )
        } else {
            (
                FeedFlow {
                    user_id,
                    stage: FeedStage::Finished,
                    authorized,
                    bubble: None,
                    query: None,
                    cooldown: 0,
                    fetched: None,
                },
                FeedAction::Respond(Reply::Unauthorized),
            )
        }
    }
}

} // verus!
