//! The enumerations of the domain, and the tokens under which requests name
//! their variants.

use vstd::prelude::*;

verus! {

/// The gender that a user states.
#[derive(Debug, Clone, Copy, PartialEq, Eq, Hash, Structural)]
pub enum Gender {
    Male,
    Female,
}

/// The kind of a medium attached to a post.
#[derive(Debug, Clone, Copy, PartialEq, Eq, Hash, Structural)]
pub enum MediaType {
    Audio,
    Video,
    Photo,
}

/// What a user is allowed to do.
#[derive(Debug, Clone, Copy, PartialEq, Eq, Hash, Structural)]
pub enum UserRole {
    User,
    Manager,
    Root,
}

/// An audience that a privacy preference can admit.
#[derive(Debug, Clone, Copy, PartialEq, Eq, Hash, Structural)]
pub enum WhoCan {
    Followed,
    Followers,
    Root,
}

/// How far a request to follow a user has come.
#[derive(Debug, Clone, Copy, PartialEq, Eq, Hash, Structural)]
pub enum FollowRequestStatus {
    Pending,
    Approved,
    Rejected,
}

/// The links and contact lines that an account-activation e-mail shows.
#[derive(Debug, Clone)]
pub struct UserActivationEmailData {
    pub facebook_link: Option<String>,
    pub twitter_link: Option<String>,
    pub instagram_link: Option<String>,
    pub linked_in_link: Option<String>,
    pub first_contatct_line: Option<String>,
    pub second_contatct_line: Option<String>,
    pub account_activation_link: String,
}

} // verus!
