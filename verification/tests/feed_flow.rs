use bubble_backend::clock::TimeOfDay;
use bubble_backend::feed::{FeedAction, FeedEvent, FeedFlow, FeedStage, NewsReply};
use bubble_backend::models::{Article, Bubble, Feed, Pagination};
use bubble_backend::reply::Reply;

fn story(title: &str) -> Article {
    Article {
        author: "Ann".to_string(),
        title: title.to_string(),
        description: String::new(),
        url: String::new(),
        source: "bbc".to_string(),
        image: String::new(),
        category: "general".to_string(),
        language: "en".to_string(),
        published_at: String::new(),
    }
}

fn page(titles: &[&str]) -> Feed {
    Feed {
        pagination: Pagination { limit: 100, offset: 0, count: titles.len() as i32, total: 7 },
        data: titles.iter().map(|t| story(t)).collect(),
        refresh_cooldown: None,
    }
}

fn clock(h: u32, m: u32) -> TimeOfDay {
    TimeOfDay::from_parts(h * 3600 + m * 60, 0).unwrap()
}

fn profile(last_refresh: Option<&str>) -> Bubble {
    let mut b = Bubble::new("reader");
    b.last_refresh = last_refresh.map(|t| t.to_string());
    b.sources.insert("fox".to_string(), -20);
    b
}

/// Runs the flow up to the clock reading, for an authorised or refused session.
fn until_clock(authorized: bool, bubble: Bubble) -> FeedFlow {
    let flow = FeedFlow::new("reader".to_string());
    let (flow, a) = flow.step(FeedEvent::Begin);
    assert!(matches!(a, FeedAction::CheckToken));
    let (flow, a) = flow.step(FeedEvent::TokenChecked(authorized));
    match a {
        FeedAction::LoadBubble { user_id } => assert_eq!(user_id, "reader"),
        _ => panic!("expected a profile load"),
    }
    let (flow, a) = flow.step(FeedEvent::BubbleLoaded(Some(bubble)));
    assert!(matches!(a, FeedAction::ReadClock));
    flow
}

#[test]
fn first_visit_fetches_stores_and_serves_a_new_feed() {
    let flow = until_clock(true, profile(None));
    let (flow, a) = flow.step(FeedEvent::ClockRead(clock(10, 0)));
    match a {
        FeedAction::SaveBubble { bubble } => {
            assert_eq!(bubble.last_refresh.as_deref(), Some("10:00:00"));
            assert_eq!(bubble.user_id, "reader");
        }
        _ => panic!("expected the profile to be written back"),
    }
    let (flow, a) = flow.step(FeedEvent::BubbleSaved);
    match a {
        FeedAction::FetchNews { query } => {
            assert_eq!(query.sources, "&sources=-fox");
            assert_eq!(query.categories, "&categories=");
        }
        _ => panic!("expected a news request"),
    }
    let (flow, a) = flow.step(FeedEvent::NewsFetched(NewsReply::Fetched(page(&["a", "b"]))));
    match a {
        FeedAction::SaveFeed { user_id, feed } => {
            assert_eq!(user_id, "reader");
            assert_eq!(feed.data.len(), 2);
        }
        _ => panic!("expected the feed to be stored"),
    }
    let (flow, a) = flow.step(FeedEvent::FeedSaved);
    assert!(matches!(flow.stage, FeedStage::Finished));
    match a {
        FeedAction::Respond(Reply::Success(feed)) => {
            assert_eq!(feed.data[1].title, "b");
            assert_eq!(feed.refresh_cooldown, None);
        }
        _ => panic!("expected the new feed"),
    }
}

#[test]
fn recent_refresh_serves_stored_feed_with_cooldown() {
    let flow = until_clock(true, profile(Some("09:55:00")));
    let (flow, a) = flow.step(FeedEvent::ClockRead(clock(10, 0)));
    match a {
        FeedAction::LoadCurrentFeed { user_id } => assert_eq!(user_id, "reader"),
        _ => panic!("expected the stored feed to be loaded"),
    }
    let (_, a) = flow.step(FeedEvent::CurrentFeed(Some(page(&["old"]))));
    match a {
        FeedAction::Respond(Reply::Success(feed)) => {
            assert_eq!(feed.refresh_cooldown, Some(15));
            assert_eq!(feed.data[0].title, "old");
        }
        _ => panic!("expected the stored feed"),
    }
}

#[test]
fn refresh_exactly_twenty_minutes_ago_still_cools_down() {
    let flow = until_clock(true, profile(Some("09:40:00")));
    let (flow, a) = flow.step(FeedEvent::ClockRead(clock(10, 0)));
    assert!(matches!(a, FeedAction::LoadCurrentFeed { .. }));
    let (_, a) = flow.step(FeedEvent::CurrentFeed(Some(page(&[]))));
    match a {
        FeedAction::Respond(Reply::Success(feed)) => assert_eq!(feed.refresh_cooldown, Some(0)),
        _ => panic!("expected the stored feed"),
    }
}

#[test]
fn cooldown_without_stored_feed_falls_back_to_fetching() {
    let flow = until_clock(true, profile(Some("09:55:00")));
    let (flow, _) = flow.step(FeedEvent::ClockRead(clock(10, 0)));
    let (_, a) = flow.step(FeedEvent::CurrentFeed(None));
    assert!(matches!(a, FeedAction::FetchNews { .. }));
}

#[test]
fn cooldown_without_stored_feed_refuses_unauthenticated() {
    let flow = until_clock(false, profile(Some("09:55:00")));
    let (flow, _) = flow.step(FeedEvent::ClockRead(clock(10, 0)));
    let (_, a) = flow.step(FeedEvent::CurrentFeed(None));
    assert!(matches!(a, FeedAction::Respond(Reply::Unauthorized)));
}

#[test]
fn expired_refresh_is_stamped_then_refused_without_tokens() {
    let flow = until_clock(false, profile(Some("09:00:00")));
    let (flow, a) = flow.step(FeedEvent::ClockRead(clock(10, 0)));
    match a {
        FeedAction::SaveBubble { bubble } => {
            assert_eq!(bubble.last_refresh.as_deref(), Some("10:00:00"))
        }
        _ => panic!("expected the profile to be written back"),
    }
    let (_, a) = flow.step(FeedEvent::BubbleSaved);
    assert!(matches!(a, FeedAction::Respond(Reply::Unauthorized)));
}

#[test]
fn clock_going_back_counts_as_expired() {
    let flow = until_clock(true, profile(Some("10:05:00")));
    let (_, a) = flow.step(FeedEvent::ClockRead(clock(10, 0)));
    assert!(matches!(a, FeedAction::SaveBubble { .. }));
}

#[test]
fn unreadable_refresh_time_fails() {
    let flow = until_clock(true, profile(Some("noon")));
    let (flow, a) = flow.step(FeedEvent::ClockRead(clock(10, 0)));
    assert!(matches!(a, FeedAction::Fail(_)));
    assert!(matches!(flow.stage, FeedStage::Finished));
}

#[test]
fn missing_profile_is_unauthorized() {
    let flow = FeedFlow::new("nobody".to_string());
    let (flow, _) = flow.step(FeedEvent::Begin);
    let (flow, _) = flow.step(FeedEvent::TokenChecked(true));
    let (_, a) = flow.step(FeedEvent::BubbleLoaded(None));
    assert!(matches!(a, FeedAction::Respond(Reply::Unauthorized)));
}

#[test]
fn unreadable_news_serves_stored_feed_or_refuses() {
    for stored in [true, false] {
        let flow = until_clock(true, profile(None));
        let (flow, _) = flow.step(FeedEvent::ClockRead(clock(10, 0)));
        let (flow, _) = flow.step(FeedEvent::BubbleSaved);
        let (flow, a) = flow.step(FeedEvent::NewsFetched(NewsReply::UnreadableBody));
        assert!(matches!(a, FeedAction::LoadCurrentFeed { .. }));
        let found = if stored { Some(page(&["kept"])) } else { None };
        let (_, a) = flow.step(FeedEvent::CurrentFeed(found));
        match a {
            FeedAction::Respond(Reply::Success(feed)) => {
                assert!(stored);
                assert_eq!(feed.data[0].title, "kept");
                assert_eq!(feed.refresh_cooldown, None);
            }
            FeedAction::Respond(Reply::Unauthorized) => assert!(!stored),
            _ => panic!("expected an answer"),
        }
    }
}

#[test]
fn failed_news_request_is_unauthorized() {
    let flow = until_clock(true, profile(None));
    let (flow, _) = flow.step(FeedEvent::ClockRead(clock(10, 0)));
    let (flow, _) = flow.step(FeedEvent::BubbleSaved);
    let (_, a) = flow.step(FeedEvent::NewsFetched(NewsReply::RequestFailed));
    assert!(matches!(a, FeedAction::Respond(Reply::Unauthorized)));
}
