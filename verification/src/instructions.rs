//! The operations. Each one works on the records named by its accounts
//! structure and either commits completely or leaves all of them exactly as
//! they were.
//!
//! For every operation there is a spec function `.._outcome`, which says what
//! the operation returns, and a spec predicate `.._effect`, which relates the
//! records before and after; the operation's contract is its effect.

use vstd::prelude::*;
use crate::accounts::{
    check_profile, AddComment, CreatePost, FollowUser, InitCommentPage, InitUserProfile,
    LikeComment, LikePost, TipPost, UnfollowUser,
};
use crate::address::{
    comment_page_address, matches_key, user_comment_likes_address, user_follow_address,
    user_like_address, user_profile_address, Address,
};
use crate::records::{
    append_outcome, byte_len, like_outcome, liked, offset, page_index, page_of, slot_of,
    CommentPage, CompactComment, ErrorCode, Post, UserCommentLikes, UserFollow, UserLike,
    UserProfile, MAX_COMMENT_BYTES, TRACKED_COMMENTS,
};

verus! {

/// What `init_user_profile` returns on `ctx`.
pub open spec fn init_user_profile_outcome(ctx: &InitUserProfile) -> Result<(), ErrorCode> {
    if ctx.bump() is None {
        Err(ErrorCode::ConstraintSeeds)
    } else if ctx.user_profile.data is Some {
        Err(ErrorCode::AddressCollision)
    } else {
        Ok(())
    }
}

/// Whether `init_user_profile`, called on `before`, may return `r` and leave
/// `after`.
pub open spec fn init_user_profile_effect(
    before: &InitUserProfile,
    after: &InitUserProfile,
    r: Result<(), ErrorCode>,
) -> bool {
    &&& r == init_user_profile_outcome(before)
    &&& r is Err ==> *after == *before
    &&& r is Ok ==> {
        &&& after.authority == before.authority
        &&& after.user_profile.key == before.user_profile.key
        &&& after.user_profile.data == Some(
            UserProfile {
                authority: before.authority,
                post_count: 0,
                like_count: 0,
                tip_count: 0,
                bump: before.bump().unwrap(),
            },
        )
    }
}

/// Creates the profile of `ctx.authority`, with all counters at zero and the
/// bump seed of its address.
///
/// Fails with `ConstraintSeeds` when the slot is not at the profile's
/// address, and otherwise with `AddressCollision` when the slot is taken.
pub fn init_user_profile(ctx: &mut InitUserProfile) -> (r: Result<(), ErrorCode>)
    ensures
        init_user_profile_effect(old(ctx), final(ctx), r),
{
    let d = user_profile_address(&ctx.authority);
    if !matches_key(&d, &ctx.user_profile.key) {
        return Err(ErrorCode::ConstraintSeeds);
    }
    if ctx.user_profile.data.is_some() {
        return Err(ErrorCode::AddressCollision);
    }
    match d {
        Some(found) => {
            ctx.user_profile.data = Some(UserProfile::new(ctx.authority, found.bump));
            Ok(())
        },
        None => Err(ErrorCode::ConstraintSeeds),
    }
}

/// What `create_post` returns on `ctx` for content of `content_bytes` bytes.
pub open spec fn create_post_outcome(ctx: &CreatePost, content_bytes: nat) -> Result<
    (),
    ErrorCode,
> {
    if !ctx.in_place() {
        Err(ErrorCode::ConstraintSeeds)
    } else if ctx.post.data is Some {
        Err(ErrorCode::AddressCollision)
    } else if content_bytes > 280 {
        Err(ErrorCode::ContentTooLong)
    } else {
        Ok(())
    }
}

/// Whether `create_post`, called on `before` with these arguments, may return
/// `r` and leave `after`.
pub open spec fn create_post_effect(
    before: &CreatePost,
    now: i64,
    topic: String,
    content: String,
    after: &CreatePost,
    r: Result<(), ErrorCode>,
) -> bool {
    &&& r == create_post_outcome(before, byte_len(&content))
    &&& r is Err ==> *after == *before
    &&& r is Ok ==> {
        &&& after.author == before.author
        &&& after.post.key == before.post.key
        &&& after.user_profile.key == before.user_profile.key
        &&& after.post.data == Some(
            Post {
                author: before.author,
                timestamp: now,
                topic,
                content,
                comment_count: 0,
                last_comment_page: None,
            },
        )
        &&& after.user_profile.data == (UserProfile {
            post_count: (before.user_profile.data.post_count + 1) as u64,
            ..before.user_profile.data
        })
    }
}

/// Creates a post by `ctx.author` at time `now` in the empty slot `ctx.post`
/// and counts it in the author's profile.
///
/// Fails with `ConstraintSeeds` when the profile is not the author's;
/// otherwise with `AddressCollision` when the slot is taken; otherwise with
/// `ContentTooLong` when `content` is longer than 280 bytes.
pub fn create_post(ctx: &mut CreatePost, now: i64, topic: String, content: String) -> (r: Result<
    (),
    ErrorCode,
>)
    requires
        old(ctx).post.data is None && byte_len(&content) <= 280
            ==> old(ctx).user_profile.data.post_count < u64::MAX,
    ensures
        create_post_effect(old(ctx), now, topic, content, final(ctx), r),
{
    if !check_profile(&ctx.user_profile, &ctx.author) {
        return Err(ErrorCode::ConstraintSeeds);
    }
    if ctx.post.data.is_some() {
        return Err(ErrorCode::AddressCollision);
    }
    let author = ctx.author;
    match Post::create(&mut ctx.user_profile.data, author, now, topic, content) {
        Ok(post) => {
            ctx.post.data = Some(post);
            Ok(())
        },
        Err(e) => Err(e),
    }
}

/// What `init_comment_page` returns on `ctx`.
pub open spec fn init_comment_page_outcome(ctx: &InitCommentPage) -> Result<(), ErrorCode> {
    if !ctx.in_place() {
        Err(ErrorCode::ConstraintSeeds)
    } else if ctx.new_page.data is Some {
        Err(ErrorCode::AddressCollision)
    } else if ctx.post.data.comment_count % 10 != 0 {
        Err(ErrorCode::PageMismatch)
    } else {
        Ok(())
    }
}

/// Whether `init_comment_page`, called on `before`, may return `r` and leave
/// `after`.
pub open spec fn init_comment_page_effect(
    before: &InitCommentPage,
    after: &InitCommentPage,
    r: Result<(), ErrorCode>,
) -> bool {
    &&& r == init_comment_page_outcome(before)
    &&& r is Err ==> *after == *before
    &&& r is Ok ==> {
        &&& after.author == before.author
        &&& after.post.key == before.post.key
        &&& after.new_page.key == before.new_page.key
        &&& after.post.data == (Post {
            last_comment_page: Some(before.new_page.key),
            ..before.post.data
        })
        &&& after.new_page.data is Some
        &&& after.new_page.data.unwrap().post == before.post.key
        &&& after.new_page.data.unwrap().page_index == page_of(before.post.data.comment_count)
        &&& after.new_page.data.unwrap().comments@ == Seq::<CompactComment>::empty()
    }
}

/// Opens the page of `ctx.post` that takes the comments from its current
/// comment count on, in the empty slot `ctx.new_page`, and makes it the
/// post's tail page.
///
/// Fails, changing nothing, with `ConstraintSeeds` when the slot is not at
/// the address of page `comment_count / 10`; otherwise with
/// `AddressCollision` when that page exists already; otherwise with
/// `PageMismatch` when the post is not at a page boundary.
pub fn init_comment_page(ctx: &mut InitCommentPage) -> (r: Result<(), ErrorCode>)
    ensures
        init_comment_page_effect(old(ctx), final(ctx), r),
{
    let d = comment_page_address(&ctx.post.key, page_index(ctx.post.data.comment_count));
    if !matches_key(&d, &ctx.new_page.key) {
        return Err(ErrorCode::ConstraintSeeds);
    }
    if ctx.new_page.data.is_some() {
        return Err(ErrorCode::AddressCollision);
    }
    let post_key = ctx.post.key;
    let page_key = ctx.new_page.key;
    match CommentPage::allocate(&mut ctx.post.data, post_key, page_key) {
        Ok(page) => {
            ctx.new_page.data = Some(page);
            Ok(())
        },
        Err(e) => Err(e),
    }
}

/// What `add_comment` returns on `ctx` for content of `content_bytes` bytes.
pub open spec fn add_comment_outcome(ctx: &AddComment, content_bytes: nat) -> Result<
    (),
    ErrorCode,
> {
    let rule = append_outcome(
        content_bytes,
        ctx.comment_page.data.comments@.len(),
        ctx.comment_page.data.page_index,
        ctx.post.data.comment_count,
    );
    if rule is Err {
        rule
    } else if !ctx.in_place() {
        Err(ErrorCode::ConstraintSeeds)
    } else {
        Ok(())
    }
}

/// Whether `add_comment`, called on `before` with these arguments, may
/// return `r` and leave `after`.
pub open spec fn add_comment_effect(
    before: &AddComment,
    now: i64,
    content: String,
    parent_index: u64,
    after: &AddComment,
    r: Result<(), ErrorCode>,
) -> bool {
    &&& r == add_comment_outcome(before, byte_len(&content))
    &&& r is Err ==> *after == *before
    &&& r is Ok ==> {
        &&& after.author == before.author
        &&& after.post.key == before.post.key
        &&& after.comment_page.key == before.comment_page.key
        &&& after.comment_page.data.extends(
            &before.comment_page.data,
            CompactComment {
                author: before.author,
                timestamp: now,
                parent_index,
                content,
                like_count: 0,
            },
        )
        &&& after.post.data == (Post {
            comment_count: (before.post.data.comment_count + 1) as u64,
            ..before.post.data
        })
    }
}

/// What appending `content` to `page` as a comment of `post` would return on
/// these records, which it leaves as they are.
pub fn check_append(page: &CommentPage, post: &Post, content: &String) -> (r: Result<
    (),
    ErrorCode,
>)
    ensures
        r == append_outcome(
            byte_len(content),
            page.comments@.len(),
            page.page_index,
            post.comment_count,
        ),
{
    if content.as_str().as_bytes().len() > MAX_COMMENT_BYTES {
        return Err(ErrorCode::ContentTooLong);
    }
    if page.comments.len() >= 10 {
        return Err(ErrorCode::PageFull);
    }
    if page.page_index != page_index(post.comment_count) {
        return Err(ErrorCode::PageMismatch);
    }
    Ok(())
}

/// Appends a comment by `ctx.author` at time `now` to `ctx.comment_page`,
/// which must be the page of `ctx.post` at index `comment_count / 10`, and
/// counts it in the post. The comment's global index is the post's comment
/// count before the call.
///
/// Fails, changing nothing, with `ContentTooLong` when `content` is longer
/// than 100 bytes; otherwise with `PageFull` when the page holds 10 comments;
/// otherwise with `PageMismatch` when the page's index is not
/// `comment_count / 10`; otherwise with `ConstraintSeeds` when the page is
/// not at the address of that page of the post.
pub fn add_comment(ctx: &mut AddComment, now: i64, content: String, parent_index: u64) -> (r:
    Result<(), ErrorCode>)
    requires
        append_outcome(
            byte_len(&content),
            old(ctx).comment_page.data.comments@.len(),
            old(ctx).comment_page.data.page_index,
            old(ctx).post.data.comment_count,
        ) is Ok ==> old(ctx).post.data.comment_count < u64::MAX,
    ensures
        add_comment_effect(old(ctx), now, content, parent_index, final(ctx), r),
{
    match check_append(&ctx.comment_page.data, &ctx.post.data, &content) {
        Err(e) => {
            return Err(e);
        },
        Ok(()) => {},
    }
    let d = comment_page_address(&ctx.post.key, page_index(ctx.post.data.comment_count));
    if !matches_key(&d, &ctx.comment_page.key) {
        return Err(ErrorCode::ConstraintSeeds);
    }
    let author = ctx.author;
    ctx.comment_page.data.append(&mut ctx.post.data, author, now, content, parent_index)
}

/// A transfer of value for the host to carry out.
#[derive(Clone, Copy, Debug, PartialEq, Eq)]
pub struct Transfer {
    pub from: Address,
    pub to: Address,
    pub lamports: u64,
}

/// What `tip_transfer` returns on `ctx`.
pub open spec fn tip_transfer_outcome(ctx: &TipPost, amount_lamports: u64) -> Result<
    Transfer,
    ErrorCode,
> {
    if ctx.author != ctx.post.data.author {
        Err(ErrorCode::ConstraintAddress)
    } else if !ctx.in_place() {
        Err(ErrorCode::ConstraintSeeds)
    } else {
        Ok(Transfer { from: ctx.payer, to: ctx.author, lamports: amount_lamports })
    }
}

/// The transfer that a tip of `amount_lamports` on `ctx.post` asks for: the
/// whole amount, from the payer to the post's author.
///
/// Fails with `ConstraintAddress` when `ctx.author` is not the post's author,
/// and otherwise with `ConstraintSeeds` when the profile is not the author's.
pub fn tip_transfer(ctx: &TipPost, amount_lamports: u64) -> (r: Result<Transfer, ErrorCode>)
    ensures
        r == tip_transfer_outcome(ctx, amount_lamports),
{
    if !ctx.author.same(&ctx.post.data.author) {
        return Err(ErrorCode::ConstraintAddress);
    }
    if !check_profile(&ctx.author_profile, &ctx.author) {
        return Err(ErrorCode::ConstraintSeeds);
    }
    Ok(Transfer { from: ctx.payer, to: ctx.author, lamports: amount_lamports })
}

/// What `tip_post` returns on `ctx`, given whether the transfer succeeded.
pub open spec fn tip_post_outcome(ctx: &TipPost, amount_lamports: u64, transferred: bool) -> Result<
    (),
    ErrorCode,
> {
    match tip_transfer_outcome(ctx, amount_lamports) {
        Err(e) => Err(e),
        Ok(_) => if transferred {
            Ok(())
        } else {
            Err(ErrorCode::TransferFailed)
        },
    }
}

/// Whether `tip_post`, called on `before` with these arguments, may return
/// `r` and leave `after`.
pub open spec fn tip_post_effect(
    before: &TipPost,
    amount_lamports: u64,
    transferred: bool,
    after: &TipPost,
    r: Result<(), ErrorCode>,
) -> bool {
    &&& r == tip_post_outcome(before, amount_lamports, transferred)
    &&& r is Err ==> *after == *before
    &&& r is Ok ==> {
        &&& after.post == before.post
        &&& after.author == before.author
        &&& after.payer == before.payer
        &&& after.author_profile.key == before.author_profile.key
        &&& after.author_profile.data == (UserProfile {
            tip_count: (before.author_profile.data.tip_count + amount_lamports) as u64,
            ..before.author_profile.data
        })
    }
}

/// Counts a tip of `amount_lamports` to the author of `ctx.post` in the
/// author's profile. `transferred` says whether the host carried out the
/// transfer that `tip_transfer` asked for; a failed transfer fails the
/// operation with `TransferFailed`.
pub fn tip_post(ctx: &mut TipPost, amount_lamports: u64, transferred: bool) -> (r: Result<
    (),
    ErrorCode,
>)
    requires
        transferred && old(ctx).author == old(ctx).post.data.author
            ==> old(ctx).author_profile.data.tip_count + amount_lamports <= u64::MAX,
    ensures
        tip_post_effect(old(ctx), amount_lamports, transferred, final(ctx), r),
{
    match tip_transfer(ctx, amount_lamports) {
        Err(e) => {
            return Err(e);
        },
        Ok(_) => {},
    }
    if !transferred {
        return Err(ErrorCode::TransferFailed);
    }
    ctx.author_profile.data.tip_count = ctx.author_profile.data.tip_count + amount_lamports;
    Ok(())
}

/// What `like_post` returns on `ctx`.
pub open spec fn like_post_outcome(ctx: &LikePost) -> Result<(), ErrorCode> {
    if ctx.author != ctx.post.data.author {
        Err(ErrorCode::ConstraintAddress)
    } else if !ctx.in_place() {
        Err(ErrorCode::ConstraintSeeds)
    } else if ctx.user_like.data is Some {
        Err(ErrorCode::AlreadyLiked)
    } else {
        Ok(())
    }
}

/// Whether `like_post`, called on `before`, may return `r` and leave `after`.
pub open spec fn like_post_effect(before: &LikePost, after: &LikePost, r: Result<(), ErrorCode>) -> bool {
    &&& r == like_post_outcome(before)
    &&& r is Err ==> *after == *before
    &&& r is Ok ==> {
        &&& after.post == before.post
        &&& after.author == before.author
        &&& after.user == before.user
        &&& after.user_like.key == before.user_like.key
        &&& after.author_profile.key == before.author_profile.key
        &&& after.user_like.data == Some(UserLike { user: before.user, post: before.post.key })
        &&& after.author_profile.data == (UserProfile {
            like_count: (before.author_profile.data.like_count + 1) as u64,
            ..before.author_profile.data
        })
    }
}

/// Records that `ctx.user` likes `ctx.post` and counts the like in the
/// author's profile. The record's existence is what forbids a second like:
/// with the slot taken the operation fails with `AlreadyLiked`.
///
/// Before that it fails with `ConstraintAddress` when `ctx.author` is not the
/// post's author, and with `ConstraintSeeds` when the slot or the profile is
/// not filed where it belongs.
pub fn like_post(ctx: &mut LikePost) -> (r: Result<(), ErrorCode>)
    requires
        old(ctx).user_like.data is None && old(ctx).author == old(ctx).post.data.author
            ==> old(ctx).author_profile.data.like_count < u64::MAX,
    ensures
        like_post_effect(old(ctx), final(ctx), r),
{
    if !ctx.author.same(&ctx.post.data.author) {
        return Err(ErrorCode::ConstraintAddress);
    }
    let d = user_like_address(&ctx.user, &ctx.post.key);
    if !matches_key(&d, &ctx.user_like.key) {
        return Err(ErrorCode::ConstraintSeeds);
    }
    if !check_profile(&ctx.author_profile, &ctx.author) {
        return Err(ErrorCode::ConstraintSeeds);
    }
    if ctx.user_like.data.is_some() {
        return Err(ErrorCode::AlreadyLiked);
    }
    ctx.user_like.data = Some(UserLike { user: ctx.user, post: ctx.post.key });
    ctx.author_profile.data.like_count = ctx.author_profile.data.like_count + 1;
    Ok(())
}

/// Whether `tracker`, if there is one, records a like on comment `index`.
pub open spec fn recorded(tracker: Option<UserCommentLikes>, index: int) -> bool {
    match tracker {
        Some(t) => liked(t.likes_bitmap@, index),
        None => false,
    }
}

/// The user and post that `tracker` belongs to.
pub open spec fn tracker_owner(tracker: Option<UserCommentLikes>) -> Option<(Address, Address)> {
    match tracker {
        Some(t) => Some((t.user, t.post)),
        None => None,
    }
}

/// The user and post of the tracker after a like: those of the tracker that
/// was there, or of the operation where it creates one.
pub open spec fn tracker_owner_after(ctx: &LikeComment) -> Option<(Address, Address)> {
    match ctx.user_comment_likes.data {
        Some(t) => Some((t.user, t.post)),
        None => Some((ctx.user, ctx.post.key)),
    }
}

/// What `like_comment` returns on `ctx` for the comment with global index `index`.
pub open spec fn like_comment_outcome(ctx: &LikeComment, index: u64) -> Result<(), ErrorCode> {
    let rule = like_outcome(
        recorded(ctx.user_comment_likes.data, index as int),
        ctx.comment_page.data.comments@.len(),
        ctx.comment_page.data.page_index,
        index,
    );
    if rule is Err {
        rule
    } else if !ctx.in_place(index) {
        Err(ErrorCode::ConstraintSeeds)
    } else {
        Ok(())
    }
}

/// Whether `like_comment`, called on `before` for the comment with global
/// index `index`, may return `r` and leave `after`.
pub open spec fn like_comment_effect(
    before: &LikeComment,
    index: u64,
    after: &LikeComment,
    r: Result<(), ErrorCode>,
) -> bool {
    &&& r == like_comment_outcome(before, index)
    &&& r is Err ==> *after == *before
    &&& r is Ok ==> {
        &&& after.post == before.post
        &&& after.user == before.user
        &&& after.comment_page.key == before.comment_page.key
        &&& after.user_comment_likes.key == before.user_comment_likes.key
        &&& after.comment_page.data.likes_more(&before.comment_page.data, slot_of(index))
        &&& after.user_comment_likes.data is Some
        &&& tracker_owner(after.user_comment_likes.data) == tracker_owner_after(before)
        &&& forall|j: int|
            0 <= j < 1024 ==> recorded(after.user_comment_likes.data, j) == (j == index
                || recorded(before.user_comment_likes.data, j))
    }
}

/// What liking comment `index` would return on these records, which it
/// leaves as they are.
pub fn check_like(tracker: &Option<UserCommentLikes>, page: &CommentPage, index: u64) -> (r:
    Result<(), ErrorCode>)
    ensures
        r == like_outcome(
            recorded(*tracker, index as int),
            page.comments@.len(),
            page.page_index,
            index,
        ),
{
    if index >= TRACKED_COMMENTS {
        return Err(ErrorCode::CommentIndexOutOfBounds);
    }
    let already = match tracker {
        Some(t) => t.has_liked(index),
        None => false,
    };
    if already {
        return Err(ErrorCode::AlreadyLiked);
    }
    if page.page_index != page_index(index) {
        return Err(ErrorCode::PageMismatch);
    }
    if offset(index) >= page.comments.len() {
        return Err(ErrorCode::CommentNotFound);
    }
    Ok(())
}

/// Records that `ctx.user` likes the comment of `ctx.post` with global index
/// `index` and counts the like on the comment. The tracker is created on the
/// user's first like of a comment of this post.
///
/// Fails, changing nothing, with `CommentIndexOutOfBounds` when `index` is
/// 1024 or more; otherwise with `AlreadyLiked` when the user's bit for the
/// comment is set; otherwise with `PageMismatch` when the page's index is not
/// `index / 10`; otherwise with `CommentNotFound` when the page has no
/// comment in slot `index % 10`; otherwise with `ConstraintSeeds` when
/// `ctx.comment_page` is not at the address of page `index / 10` of the post
/// or the tracker slot is not at the tracker's address.
pub fn like_comment(ctx: &mut LikeComment, index: u64) -> (r: Result<(), ErrorCode>)
    requires
        like_outcome(
            recorded(old(ctx).user_comment_likes.data, index as int),
            old(ctx).comment_page.data.comments@.len(),
            old(ctx).comment_page.data.page_index,
            index,
        ) is Ok ==> old(ctx).comment_page.data.comments@[slot_of(index)].like_count < u32::MAX,
    ensures
        like_comment_effect(old(ctx), index, final(ctx), r),
{
    match check_like(&ctx.user_comment_likes.data, &ctx.comment_page.data, index) {
        Err(e) => {
            return Err(e);
        },
        Ok(()) => {},
    }
    let d = comment_page_address(&ctx.post.key, page_index(index));
    if !matches_key(&d, &ctx.comment_page.key) {
        return Err(ErrorCode::ConstraintSeeds);
    }
    let t = user_comment_likes_address(&ctx.user, &ctx.post.key);
    if !matches_key(&t, &ctx.user_comment_likes.key) {
        return Err(ErrorCode::ConstraintSeeds);
    }
    match &mut ctx.user_comment_likes.data {
        Some(tracker) => tracker.like(&mut ctx.comment_page.data, index),
        None => {
            let mut tracker = UserCommentLikes::new(ctx.user, ctx.post.key);
            let r = tracker.like(&mut ctx.comment_page.data, index);
            ctx.user_comment_likes.data = Some(tracker);
            r
        },
    }
}

/// What `follow_user` returns on `ctx`.
pub open spec fn follow_user_outcome(ctx: &FollowUser) -> Result<(), ErrorCode> {
    if !ctx.in_place() {
        Err(ErrorCode::ConstraintSeeds)
    } else if ctx.user_follow.data is Some {
        Err(ErrorCode::AlreadyFollowing)
    } else {
        Ok(())
    }
}

/// Whether `follow_user`, called on `before` at time `now`, may return `r`
/// and leave `after`.
pub open spec fn follow_user_effect(
    before: &FollowUser,
    now: i64,
    after: &FollowUser,
    r: Result<(), ErrorCode>,
) -> bool {
    &&& r == follow_user_outcome(before)
    &&& r is Err ==> *after == *before
    &&& r is Ok ==> {
        &&& after.follower == before.follower
        &&& after.target == before.target
        &&& after.user_follow.key == before.user_follow.key
        &&& after.user_follow.data == Some(
            UserFollow { follower: before.follower, target: before.target, timestamp: now },
        )
    }
}

/// Records that `ctx.follower` follows `ctx.target` from `now` on.
///
/// Fails with `ConstraintSeeds` when the slot is not at the relation's
/// address, and otherwise with `AlreadyFollowing` when the relation exists.
pub fn follow_user(ctx: &mut FollowUser, now: i64) -> (r: Result<(), ErrorCode>)
    ensures
        follow_user_effect(old(ctx), now, final(ctx), r),
{
    let d = user_follow_address(&ctx.follower, &ctx.target);
    if !matches_key(&d, &ctx.user_follow.key) {
        return Err(ErrorCode::ConstraintSeeds);
    }
    if ctx.user_follow.data.is_some() {
        return Err(ErrorCode::AlreadyFollowing);
    }
    ctx.user_follow.data = Some(
        UserFollow { follower: ctx.follower, target: ctx.target, timestamp: now },
    );
    Ok(())
}

/// What `unfollow_user` returns on `ctx`.
pub open spec fn unfollow_user_outcome(ctx: &UnfollowUser) -> Result<(), ErrorCode> {
    if !ctx.in_place() {
        Err(ErrorCode::ConstraintSeeds)
    } else if ctx.user_follow.data is None {
        Err(ErrorCode::NotFollowing)
    } else {
        Ok(())
    }
}

/// Whether `unfollow_user`, called on `before`, may return `r` and leave
/// `after`.
pub open spec fn unfollow_user_effect(
    before: &UnfollowUser,
    after: &UnfollowUser,
    r: Result<(), ErrorCode>,
) -> bool {
    &&& r == unfollow_user_outcome(before)
    &&& r is Err ==> *after == *before
    &&& r is Ok ==> {
        &&& after.follower == before.follower
        &&& after.target == before.target
        &&& after.user_follow.key == before.user_follow.key
        &&& after.user_follow.data is None
    }
}

/// Destroys the record of `ctx.follower` following `ctx.target`.
///
/// Fails with `ConstraintSeeds` when the slot is not at the relation's
/// address, and otherwise with `NotFollowing` when there is no such record.
pub fn unfollow_user(ctx: &mut UnfollowUser) -> (r: Result<(), ErrorCode>)
    ensures
        unfollow_user_effect(old(ctx), final(ctx), r),
{
    let d = user_follow_address(&ctx.follower, &ctx.target);
    if !matches_key(&d, &ctx.user_follow.key) {
        return Err(ErrorCode::ConstraintSeeds);
    }
    if ctx.user_follow.data.is_none() {
        return Err(ErrorCode::NotFollowing);
    }
    ctx.user_follow.data = None;
    Ok(())
}

} // verus!
