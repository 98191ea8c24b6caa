//! The records that each operation names.
//!
//! An operation touches only the records handed to it. A record comes with
//! the address it is stored at; where the operation creates the record, the
//! slot at that address is handed over, empty or not.

use vstd::prelude::*;
use crate::address::{
    follow_location, like_location, locates, locates_with_bump, matches_key_and_bump,
    page_location, profile_location, tracker_location, user_profile_address, Address,
};
use crate::records::{
    page_of, CommentPage, Post, UserCommentLikes, UserFollow, UserLike, UserProfile,
};

verus! {

/// A record, or a slot for one, with the address it is stored at.
#[derive(Clone, Debug, PartialEq, Eq)]
pub struct Account<T> {
    pub key: Address,
    pub data: T,
}

/// Records named by `init_user_profile`.
#[derive(Clone, Debug, PartialEq, Eq)]
pub struct InitUserProfile {
    pub user_profile: Account<Option<UserProfile>>,
    pub authority: Address,
}

/// Records named by `create_post`.
#[derive(Clone, Debug, PartialEq, Eq)]
pub struct CreatePost {
    pub post: Account<Option<Post>>,
    pub user_profile: Account<UserProfile>,
    pub author: Address,
}

/// Records named by `init_comment_page`.
#[derive(Clone, Debug, PartialEq, Eq)]
pub struct InitCommentPage {
    pub post: Account<Post>,
    pub new_page: Account<Option<CommentPage>>,
    pub author: Address,
}

/// Records named by `add_comment`.
#[derive(Clone, Debug, PartialEq, Eq)]
pub struct AddComment {
    pub post: Account<Post>,
    pub comment_page: Account<CommentPage>,
    pub author: Address,
}

/// Records named by `tip_post`.
#[derive(Clone, Debug, PartialEq, Eq)]
pub struct TipPost {
    pub post: Account<Post>,
    pub author: Address,
    pub author_profile: Account<UserProfile>,
    pub payer: Address,
}

/// Records named by `like_post`.
#[derive(Clone, Debug, PartialEq, Eq)]
pub struct LikePost {
    pub post: Account<Post>,
    pub user_like: Account<Option<UserLike>>,
    pub author: Address,
    pub author_profile: Account<UserProfile>,
    pub user: Address,
}

/// Records named by `like_comment`.
#[derive(Clone, Debug, PartialEq, Eq)]
pub struct LikeComment {
    pub post: Account<Post>,
    pub comment_page: Account<CommentPage>,
    pub user_comment_likes: Account<Option<UserCommentLikes>>,
    pub user: Address,
}

/// Records named by `follow_user`.
#[derive(Clone, Debug, PartialEq, Eq)]
pub struct FollowUser {
    pub user_follow: Account<Option<UserFollow>>,
    pub follower: Address,
    pub target: Address,
}

/// Records named by `unfollow_user`.
#[derive(Clone, Debug, PartialEq, Eq)]
pub struct UnfollowUser {
    pub user_follow: Account<Option<UserFollow>>,
    pub follower: Address,
    pub target: Address,
}

/// Whether `profile` is filed where the profile of `authority` belongs,
/// under the bump seed it recorded.
pub open spec fn profile_in_place(profile: &Account<UserProfile>, authority: Address) -> bool {
    locates_with_bump(profile_location(authority), profile.key, profile.data.bump)
}

/// Checks that `profile` is filed where the profile of `authority` belongs.
pub fn check_profile(profile: &Account<UserProfile>, authority: &Address) -> (ok: bool)
    ensures
        ok == profile_in_place(profile, *authority),
{
    let d = user_profile_address(authority);
    matches_key_and_bump(&d, &profile.key, profile.data.bump)
}

impl InitUserProfile {
    /// The bump seed of the profile's address, where the slot is at that address.
    pub open spec fn bump(&self) -> Option<u8> {
        match profile_location(self.authority) {
            Some(p) => if p.0 == self.user_profile.key@ {
                Some(p.1)
            } else {
                None
            },
            None => None,
        }
    }
}

impl CreatePost {
    /// Whether the author's profile is filed where it belongs.
    pub open spec fn in_place(&self) -> bool {
        profile_in_place(&self.user_profile, self.author)
    }
}

impl InitCommentPage {
    /// Whether the slot is at the address of page `comment_count / 10` of the post.
    pub open spec fn in_place(&self) -> bool {
        locates(
            page_location(self.post.key, page_of(self.post.data.comment_count)),
            self.new_page.key,
        )
    }
}

impl AddComment {
    /// Whether the page is at the address of page `comment_count / 10` of the post.
    pub open spec fn in_place(&self) -> bool {
        locates(
            page_location(self.post.key, page_of(self.post.data.comment_count)),
            self.comment_page.key,
        )
    }
}

impl TipPost {
    /// Whether the author's profile is filed where it belongs.
    pub open spec fn in_place(&self) -> bool {
        profile_in_place(&self.author_profile, self.author)
    }
}

impl LikePost {
    /// Whether the like slot and the author's profile are filed where they belong.
    pub open spec fn in_place(&self) -> bool {
        &&& locates(like_location(self.user, self.post.key), self.user_like.key)
        &&& profile_in_place(&self.author_profile, self.author)
    }
}

impl LikeComment {
    /// Whether the page is at the address of page `index / 10` of the post and
    /// the tracker slot at the address of the user's tracker for the post.
    pub open spec fn in_place(&self, index: u64) -> bool {
        &&& locates(page_location(self.post.key, page_of(index)), self.comment_page.key)
        &&& locates(tracker_location(self.user, self.post.key), self.user_comment_likes.key)
    }
}

impl FollowUser {
    /// Whether the slot is at the address of the relation.
    pub open spec fn in_place(&self) -> bool {
        locates(follow_location(self.follower, self.target), self.user_follow.key)
    }
}

impl UnfollowUser {
    /// Whether the slot is at the address of the relation.
    pub open spec fn in_place(&self) -> bool {
        locates(follow_location(self.follower, self.target), self.user_follow.key)
    }
}

} // verus!
