//! The records that the backend stores and exchanges: articles and feeds,
//! a reader's bubble of ratings, saved articles and the sign-in messages.

use crate::ratings::RatingMap;
use mongodb::bson::oid::ObjectId;
use vstd::prelude::*;

verus! {

/// The store's document identifier, carried through unread.
#[verifier::external_type_specification]
#[verifier::external_body]
pub struct ExObjectId(ObjectId);

/// Calls `ObjectId::new` of the bson crate (re-exported by mongodb), which
/// builds an identifier from the clock, a per-process random value and a
/// counter. Nothing is claimed of the identifier it returns.
#[verifier::external_body]
fn fresh_object_id() -> (id: ObjectId) {
    ObjectId::new()
}

/// Paging information that the news service returns with a feed.
pub struct Pagination {
    pub limit: i32,
    pub offset: i32,
    pub count: i32,
    pub total: i32,
}

/// One news article. Missing text fields arrive as empty strings.
pub struct Article {
    pub author: String,
    pub title: String,
    pub description: String,
    pub url: String,
    pub source: String,
    pub image: String,
    pub category: String,
    pub language: String,
    pub published_at: String,
}

/// A page of articles, with the minutes left before a new page may be
/// fetched when the page was served from the store.
pub struct Feed {
    pub pagination: Pagination,
    pub data: Vec<Article>,
    pub refresh_cooldown: Option<i32>,
}

/// A reader's profile: the last feed served, the time of day of the last
/// refresh, and the ratings of categories, sources and languages.
pub struct Bubble {
    pub _id: ObjectId,
    pub user_id: String,
    pub current_feed: Option<Feed>,
    pub last_refresh: Option<String>,
    pub categories: RatingMap,
    pub sources: RatingMap,
    pub languages: RatingMap,
}

/// An article that a reader saved.
pub struct Saved {
    pub _id: Option<ObjectId>,
    pub user_id: String,
    pub article: Article,
}

/// The body sent to exchange a refresh token for new tokens.
pub struct RefreshPayload {
    pub grant_type: String,
    pub refresh_token: String,
}

/// The new tokens returned for a refresh token.
pub struct RefreshResponse {
    pub id_token: String,
    pub refresh_token: String,
}

/// The identity service's answer to a password sign-in.
pub struct LoginResponse {
    pub id: String,
    pub token: String,
    pub refresh_token: String,
}

/// A sign-in request.
pub struct UserLogin {
    pub email: String,
    pub password: String,
    pub return_secure_token: bool,
}

/// What a successful sign-in returns to the client.
pub struct UserResponse {
    pub user_id: String,
}

/// Two articles are the same story when author, title and description agree.
pub open spec fn same_story(a: Article, b: Article) -> bool {
    &&& a.author@ == b.author@
    &&& a.title@ == b.title@
    &&& a.description@ == b.description@
}

impl Article {
    /// A field-by-field copy.
    pub fn duplicate(&self) -> (r: Article)
        ensures
            r == *self,
    {
        Article {
            author: self.author.clone(),
            title: self.title.clone(),
            description: self.description.clone(),
            url: self.url.clone(),
            source: self.source.clone(),
            image: self.image.clone(),
            category: self.category.clone(),
            language: self.language.clone(),
            published_at: self.published_at.clone(),
        }
    }

    /// Whether `self` and `other` are the same story.
    pub fn same_story_as(&self, other: &Article) -> (r: bool)
        ensures
            r == same_story(*self, *other),
    {
        self.author == other.author && self.title == other.title && self.description
            == other.description
    }
}

/// `a` holds the same articles, paging and cooldown as `b`.
pub open spec fn same_feed(a: Feed, b: Feed) -> bool {
    &&& a.data@ == b.data@
    &&& a.pagination == b.pagination
    &&& a.refresh_cooldown == b.refresh_cooldown
}

impl Feed {
    /// An article-by-article copy.
    pub fn duplicate(&self) -> (r: Feed)
        ensures
            same_feed(r, *self),
    {
        let mut data: Vec<Article> = Vec::new();
        let n = self.data.len();
        let mut i: usize = 0;
        while i < n
            invariant
                n == self.data@.len(),
                i <= n,
                data@ == self.data@.take(i as int),
            decreases n - i,
        {
            data.push(self.data[i].duplicate());
            assert(self.data@.take(i + 1) =~= self.data@.take(i as int).push(self.data@[i as int]));
            i = i + 1;
        }
        assert(self.data@.take(n as int) =~= self.data@);
        Feed {
            pagination: Pagination {
                limit: self.pagination.limit,
                offset: self.pagination.offset,
                count: self.pagination.count,
                total: self.pagination.total,
            },
            data,
            refresh_cooldown: self.refresh_cooldown,
        }
    }
}

impl Bubble {
    /// A fresh profile for `user_id`: no feed, never refreshed, nothing rated.
    pub fn new(user_id: &str) -> (b: Bubble)
        ensures
            b.user_id@ == user_id@,
            b.current_feed is None,
            b.last_refresh is None,
            b.categories@ == Map::<Seq<char>, i32>::empty(),
            b.sources@ == Map::<Seq<char>, i32>::empty(),
            b.languages@ == Map::<Seq<char>, i32>::empty(),
            b.categories.entries().len() == 0,
            b.sources.entries().len() == 0,
            b.languages.entries().len() == 0,
    {
        Bubble {
            _id: fresh_object_id(),
            user_id: user_id.to_owned(),
            last_refresh: None,
            current_feed: None,
            categories: RatingMap::new(),
            sources: RatingMap::new(),
            languages: RatingMap::new(),
        }
    }
}

impl Saved {
    /// A new saved entry of `article` for `user_id`, with a fresh identifier.
    pub fn new(user_id: &str, article: &Article) -> (s: Saved)
        ensures
            s._id is Some,
            s.user_id@ == user_id@,
            s.article == *article,
    {
        Saved { _id: Some(fresh_object_id()), user_id: user_id.to_owned(), article: article.duplicate() }
    }
}

} // verus!
