//! What the guard sends to the token review authority and what it reads back.
use crate::config::strings_view;
use vstd::prelude::*;

verus! {

/// A review request: the presented credential and the audiences it must be
/// meant for.
#[derive(Clone, Debug, PartialEq, Eq)]
pub struct ReviewRequest {
    pub token: String,
    pub audiences: Vec<String>,
}

/// The text of a review request.
pub ghost struct ReviewRequestView {
    pub token: Seq<char>,
    pub audiences: Seq<Seq<char>>,
}

impl View for ReviewRequest {
    type V = ReviewRequestView;

    open spec fn view(&self) -> ReviewRequestView {
        ReviewRequestView { token: self.token@, audiences: strings_view(self.audiences@) }
    }
}

/// The identity that the authority reports. Any field may be absent.
#[derive(Clone, Debug, PartialEq, Eq, Default)]
pub struct UserInfo {
    pub username: Option<String>,
    pub groups: Option<Vec<String>>,
}

/// The authority's verdict on a credential. Any field may be absent, and an
/// absent `authenticated` is not the same value as an explicit `false`.
#[derive(Clone, Debug, PartialEq, Eq, Default)]
pub struct ReviewResult {
    pub authenticated: Option<bool>,
    pub user: Option<UserInfo>,
}

/// The username that a review vouches for: present only where the authority
/// answered, said `authenticated: true`, and named a user with a username.
pub open spec fn confirmed_username(status: Option<ReviewResult>) -> Option<Seq<char>> {
    match status {
        Some(ReviewResult { authenticated: Some(true), user: Some(UserInfo { username: Some(u), .. }) }) => Some(u@),
        _ => None,
    }
}

/// The username that a review vouches for, as `confirmed_username` says.
pub fn confirmed_user(status: &Option<ReviewResult>) -> (r: Option<&String>)
    ensures
        match r {
            Some(u) => confirmed_username(*status) == Some(u@),
            None => confirmed_username(*status) is None,
        },
{
    match status {
        Some(ReviewResult { authenticated: Some(true), user: Some(UserInfo { username: Some(u), .. }) }) => Some(u),
        _ => None,
    }
}

} // verus!
