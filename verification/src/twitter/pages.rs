//! TwitterFlux page states stored per item: a profile page at
//! `profile/{user_id}` and a tweet detail at `tweet/{tweet_id}`.
//!
//! The user-profile and feed-item records they hold are defined by the
//! application; the page states are generic over them.
use vstd::prelude::*;
use crate::text::concat2;

verus! {

/// A user's profile page.
pub struct ProfilePage<UserProfile, FeedItem> {
    pub user: UserProfile,
    pub tweets: Vec<FeedItem>,
    pub followed_by_me: bool,
    pub loading: bool,
}

impl<UserProfile, FeedItem> ProfilePage<UserProfile, FeedItem> {
    /// The path prefix of profile pages.
    pub const PATH: &'static str = "profile";

    /// The path of `user_id`'s profile page: `profile/{user_id}`.
    pub fn path(user_id: &str) -> (r: String)
        ensures
            r@ == "profile/"@ + user_id@,
    {
        concat2("profile/", user_id)
    }
}

/// A tweet's detail view with its replies.
pub struct TweetDetail<FeedItem> {
    pub tweet: FeedItem,
    pub replies: Vec<FeedItem>,
    pub loading: bool,
}

impl<FeedItem> TweetDetail<FeedItem> {
    /// The path prefix of tweet details.
    pub const PATH: &'static str = "tweet";

    /// The path of `tweet_id`'s detail: `tweet/{tweet_id}`.
    pub fn path(tweet_id: &str) -> (r: String)
        ensures
            r@ == "tweet/"@ + tweet_id@,
    {
        concat2("tweet/", tweet_id)
    }
}

} // verus!
