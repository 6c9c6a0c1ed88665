use bubble_backend::models::{Article, Bubble, Feed, Pagination, Saved};
use bubble_backend::rating::{
    parse_action, rating_would_overflow, remove_story, text_is, update_rating, RatingAction,
};
use bubble_backend::ratings::RatingMap;
use bubble_backend::store::{
    bubble_of, current_feed_of, profile_after_save, profile_for_feed, rate_profile, StoreError,
};

fn article(author: &str, title: &str, source: &str, category: &str, language: &str) -> Article {
    Article {
        author: author.to_string(),
        title: title.to_string(),
        description: format!("about {}", title),
        url: format!("https://news.example/{}", title),
        source: source.to_string(),
        image: String::new(),
        category: category.to_string(),
        language: language.to_string(),
        published_at: "2023-01-01T00:00:00+00:00".to_string(),
    }
}

fn feed_of(articles: Vec<Article>) -> Feed {
    Feed {
        pagination: Pagination { limit: 100, offset: 0, count: articles.len() as i32, total: 1000 },
        data: articles,
        refresh_cooldown: None,
    }
}

fn rating(map: &RatingMap, name: &str) -> Option<i32> {
    map.get(&name.to_string())
}

#[test]
fn rating_map_insert_get_and_order() {
    let mut m = RatingMap::new();
    assert_eq!(m.len(), 0);
    m.insert("bbc".to_string(), 3);
    m.insert("cnn".to_string(), -2);
    m.insert("bbc".to_string(), 6);
    assert_eq!(m.len(), 2);
    assert_eq!(m.name_at(0), "bbc");
    assert_eq!(m.rating_at(0), 6);
    assert_eq!(m.name_at(1), "cnn");
    assert_eq!(m.rating_at(1), -2);
    assert_eq!(rating(&m, "bbc"), Some(6));
    assert_eq!(rating(&m, "fox"), None);
}

#[test]
fn soften_lifts_only_low_ratings() {
    let mut m = RatingMap::new();
    m.insert("a".to_string(), -10);
    m.insert("b".to_string(), -9);
    m.insert("c".to_string(), -25);
    m.insert("d".to_string(), 4);
    m.soften_low_ratings();
    assert_eq!(rating(&m, "a"), Some(-9));
    assert_eq!(rating(&m, "b"), Some(-9));
    assert_eq!(rating(&m, "c"), Some(-24));
    assert_eq!(rating(&m, "d"), Some(4));
    assert_eq!(m.name_at(2), "c");
}

#[test]
fn action_words() {
    assert!(matches!(parse_action("like"), RatingAction::Like));
    assert!(matches!(parse_action("dislike"), RatingAction::Dislike));
    assert!(matches!(parse_action("save"), RatingAction::Save));
    assert!(matches!(parse_action("Like"), RatingAction::Ignored));
    assert!(matches!(parse_action(""), RatingAction::Ignored));
    assert!(text_is("save", "save"));
    assert!(!text_is("saved", "save"));
}

#[test]
fn like_rates_new_names_with_the_step() {
    let mut b = Bubble::new("reader");
    let a = article("Ann", "Rain", "bbc", "general", "en");
    update_rating(&mut b, &a, "like");
    assert_eq!(rating(&b.sources, "bbc"), Some(3));
    assert_eq!(rating(&b.categories, "general"), Some(3));
    assert_eq!(rating(&b.languages, "en"), Some(3));
    update_rating(&mut b, &a, "like");
    assert_eq!(rating(&b.sources, "bbc"), Some(6));
}

#[test]
fn likes_and_saves_stop_at_twenty_five() {
    let mut b = Bubble::new("reader");
    b.sources.insert("bbc".to_string(), 23);
    b.categories.insert("general".to_string(), 30);
    let a = article("Ann", "Rain", "bbc", "general", "en");
    update_rating(&mut b, &a, "like");
    assert_eq!(rating(&b.sources, "bbc"), Some(25));
    assert_eq!(rating(&b.categories, "general"), Some(25));
    update_rating(&mut b, &a, "save");
    assert_eq!(rating(&b.sources, "bbc"), Some(25));
    assert_eq!(rating(&b.languages, "en"), Some(8));
}

#[test]
fn save_adds_five() {
    let mut b = Bubble::new("reader");
    let a = article("Ann", "Rain", "bbc", "general", "en");
    update_rating(&mut b, &a, "save");
    assert_eq!(rating(&b.sources, "bbc"), Some(5));
    assert_eq!(rating(&b.categories, "general"), Some(5));
    assert_eq!(rating(&b.languages, "en"), Some(5));
}

#[test]
fn dislike_lowers_and_lifts_low_sources_and_categories() {
    let mut b = Bubble::new("reader");
    b.sources.insert("fox".to_string(), -12);
    b.sources.insert("bbc".to_string(), -9);
    b.categories.insert("sports".to_string(), -25);
    b.languages.insert("de".to_string(), -15);
    b.languages.insert("en".to_string(), -24);
    let a = article("Bob", "Goal", "bbc", "sports", "en");
    update_rating(&mut b, &a, "dislike");
    // bbc: -9 - 2 = -11, then lifted to -10; fox: -12 lifted to -11.
    assert_eq!(rating(&b.sources, "bbc"), Some(-10));
    assert_eq!(rating(&b.sources, "fox"), Some(-11));
    // sports: stays at -25 after the dislike, then lifted to -24.
    assert_eq!(rating(&b.categories, "sports"), Some(-24));
    // languages are never lifted.
    assert_eq!(rating(&b.languages, "en"), Some(-25));
    assert_eq!(rating(&b.languages, "de"), Some(-15));
}

#[test]
fn dislike_of_new_names_gives_minus_two() {
    let mut b = Bubble::new("reader");
    let a = article("Bob", "Goal", "espn", "sports", "es");
    update_rating(&mut b, &a, "dislike");
    assert_eq!(rating(&b.sources, "espn"), Some(-2));
    assert_eq!(rating(&b.categories, "sports"), Some(-2));
    assert_eq!(rating(&b.languages, "es"), Some(-2));
}

#[test]
fn unknown_action_changes_nothing() {
    let mut b = Bubble::new("reader");
    b.sources.insert("bbc".to_string(), 7);
    let a = article("Ann", "Rain", "bbc", "general", "en");
    update_rating(&mut b, &a, "share");
    assert_eq!(rating(&b.sources, "bbc"), Some(7));
    assert_eq!(b.categories.len(), 0);
    assert_eq!(b.languages.len(), 0);
}

#[test]
fn overflow_is_detected_before_rating() {
    let mut b = Bubble::new("reader");
    b.sources.insert("bbc".to_string(), i32::MAX - 2);
    let a = article("Ann", "Rain", "bbc", "general", "en");
    assert!(rating_would_overflow(&b, &a, "like"));
    assert!(rating_would_overflow(&b, &a, "save"));
    assert!(!rating_would_overflow(&b, &a, "dislike"));
    assert!(!rating_would_overflow(&b, &a, "other"));
    let mut c = Bubble::new("reader");
    c.languages.insert("en".to_string(), i32::MIN + 1);
    assert!(rating_would_overflow(&c, &a, "dislike"));
    assert!(!rating_would_overflow(&c, &a, "like"));
}

#[test]
fn remove_story_takes_the_first_match_only() {
    let a = article("Ann", "Rain", "bbc", "general", "en");
    let b = article("Bob", "Goal", "espn", "sports", "en");
    let mut a_again = article("Ann", "Rain", "cnn", "weather", "fr");
    a_again.url = "https://other.example".to_string();
    let mut feed = feed_of(vec![b.duplicate(), a.duplicate(), a_again.duplicate()]);
    remove_story(&mut feed, &a);
    assert_eq!(feed.data.len(), 2);
    assert_eq!(feed.data[0].title, "Goal");
    assert_eq!(feed.data[1].source, "cnn");
    assert_eq!(feed.pagination.count, 3);
}

#[test]
fn remove_story_without_match_keeps_feed() {
    let a = article("Ann", "Rain", "bbc", "general", "en");
    let mut other = a.duplicate();
    other.description = "different".to_string();
    let mut feed = feed_of(vec![a.duplicate()]);
    remove_story(&mut feed, &other);
    assert_eq!(feed.data.len(), 1);
}

#[test]
fn rate_profile_moves_ratings_and_drops_the_story() {
    let a = article("Ann", "Rain", "bbc", "general", "en");
    let b = article("Bob", "Goal", "espn", "sports", "en");
    let mut bubble = Bubble::new("reader");
    bubble.current_feed = Some(feed_of(vec![a.duplicate(), b.duplicate()]));
    let rated = rate_profile(bubble, &a, "like");
    assert_eq!(rating(&rated.sources, "bbc"), Some(3));
    let feed = rated.current_feed.unwrap();
    assert_eq!(feed.data.len(), 1);
    assert_eq!(feed.data[0].author, "Bob");
}

#[test]
fn saving_rates_found_profile_only() {
    let a = article("Ann", "Rain", "bbc", "general", "en");
    assert!(profile_after_save(None, &a).is_none());
    let mut bubble = Bubble::new("reader");
    bubble.current_feed = Some(feed_of(vec![a.duplicate()]));
    let saved = profile_after_save(Some(bubble), &a).unwrap();
    assert_eq!(rating(&saved.categories, "general"), Some(5));
    assert_eq!(saved.current_feed.unwrap().data.len(), 0);
}

#[test]
fn new_feed_creates_profile_only_when_none_was_updated() {
    let feed = feed_of(vec![article("Ann", "Rain", "bbc", "general", "en")]);
    assert!(profile_for_feed(true, "reader", feed.duplicate()).is_none());
    let b = profile_for_feed(false, "reader", feed).unwrap();
    assert_eq!(b.user_id, "reader");
    assert_eq!(b.current_feed.unwrap().data.len(), 1);
    assert!(b.last_refresh.is_none());
}

#[test]
fn lookups_of_missing_profiles_fail() {
    assert!(matches!(bubble_of(None), Err(StoreError::BubbleNotFound)));
    assert!(matches!(current_feed_of(None), Err(StoreError::BubbleNotFound)));
    assert_eq!(StoreError::BubbleNotFound.message(), "Unable to locate bubble");
    let mut b = Bubble::new("reader");
    b.current_feed = Some(feed_of(vec![]));
    let feed = current_feed_of(Some(b)).ok().unwrap();
    assert_eq!(feed.pagination.total, 1000);
    let found = bubble_of(Some(Bubble::new("x"))).ok().unwrap();
    assert_eq!(found.user_id, "x");
}

#[test]
fn new_records_start_empty_with_fresh_ids() {
    let b = Bubble::new("reader");
    assert_eq!(b.user_id, "reader");
    assert!(b.current_feed.is_none());
    assert!(b.last_refresh.is_none());
    assert_eq!(b.sources.len(), 0);
    let a = article("Ann", "Rain", "bbc", "general", "en");
    let s1 = Saved::new("reader", &a);
    let s2 = Saved::new("reader", &a);
    assert!(s1._id.is_some());
    assert_ne!(s1._id, s2._id);
    assert_ne!(b._id, s1._id.unwrap());
    assert_eq!(s1.article.url, a.url);
    assert_eq!(s1.user_id, "reader");
}
