//! TwitterFlux requests: what the UI emits, each with the path it is
//! emitted at.
use vstd::prelude::*;

verus! {

/// Initialize app state.
pub struct InitializeReq;

impl InitializeReq {
    pub const PATH: &'static str = "app/initialize";
}

/// Refresh the timeline.
pub struct TimelineLoadReq;

impl TimelineLoadReq {
    pub const PATH: &'static str = "timeline/load";
}

/// Update a compose form field.
pub struct ComposeUpdateReq {
    pub field: String,
    pub value: String,
}

impl ComposeUpdateReq {
    pub const PATH: &'static str = "compose/update-field";
}

/// Set the BFF locale (triggers an inbox reload in that language).
pub struct SetLocaleReq {
    pub locale: String,
}

impl SetLocaleReq {
    pub const PATH: &'static str = "app/set-locale";
}

/// Log in with username and password.
pub struct LoginReq {
    pub username: String,
    pub password: String,
}

impl LoginReq {
    pub const PATH: &'static str = "auth/login";
}

/// Log out and clear the session.
pub struct LogoutReq;

impl LogoutReq {
    pub const PATH: &'static str = "auth/logout";
}

/// Search users and tweets by keyword.
pub struct SearchReq {
    pub query: String,
}

impl SearchReq {
    pub const PATH: &'static str = "search/query";

    pub const CLEAR_PATH: &'static str = "search/clear";
}

/// Clear the search results.
pub struct SearchClearReq;

impl SearchClearReq {
    pub const PATH: &'static str = "search/clear";
}

/// Load the current user's profile into the settings form.
pub struct SettingsLoadReq;

impl SettingsLoadReq {
    pub const PATH: &'static str = "settings/load";
}

/// Save profile changes (display name, bio).
pub struct SettingsSaveReq {
    pub display_name: String,
    pub bio: String,
}

impl SettingsSaveReq {
    pub const PATH: &'static str = "settings/save";
}

/// Change the password.
pub struct ChangePasswordReq {
    pub old_password: String,
    pub new_password: String,
}

impl ChangePasswordReq {
    pub const PATH: &'static str = "settings/change-password";
}

/// Create a tweet, or a reply to `reply_to_id`.
pub struct CreateTweetReq {
    pub content: String,
    pub reply_to_id: Option<String>,
}

impl CreateTweetReq {
    pub const PATH: &'static str = "tweet/create";
}

/// Like a tweet.
pub struct LikeTweetReq {
    pub tweet_id: String,
}

impl LikeTweetReq {
    pub const PATH: &'static str = "tweet/like";
}

/// Unlike a tweet.
pub struct UnlikeTweetReq {
    pub tweet_id: String,
}

impl UnlikeTweetReq {
    pub const PATH: &'static str = "tweet/unlike";
}

/// Load a tweet's detail with its replies.
pub struct LoadTweetReq {
    pub tweet_id: String,
}

impl LoadTweetReq {
    pub const PATH: &'static str = "tweet/load";
}

/// Follow a user.
pub struct FollowUserReq {
    pub user_id: String,
}

impl FollowUserReq {
    pub const PATH: &'static str = "user/follow";
}

/// Unfollow a user.
pub struct UnfollowUserReq {
    pub user_id: String,
}

impl UnfollowUserReq {
    pub const PATH: &'static str = "user/unfollow";
}

/// Load a user's profile page.
pub struct LoadProfileReq {
    pub user_id: String,
}

impl LoadProfileReq {
    pub const PATH: &'static str = "profile/load";
}

} // verus!
