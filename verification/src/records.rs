//! The persisted records and the rules that change them.

use vstd::prelude::*;
use vstd::string::*;
use vstd::utf8::*;
use crate::address::Address;

verus! {

/// Number of comment slots in one page.
pub const PAGE_CAPACITY: u64 = 10;

/// Largest post body, in bytes.
pub const MAX_POST_BYTES: usize = 280;

/// Largest comment body, in bytes.
pub const MAX_COMMENT_BYTES: usize = 100;

/// Number of comments per post whose likes a tracker can record.
pub const TRACKED_COMMENTS: u64 = 1024;

/// The parent index of a comment that answers the post itself.
pub const NO_PARENT: u64 = 0xffff_ffff_ffff_ffff;

/// Why an operation was refused.
#[derive(Clone, Copy, Debug, PartialEq, Eq, Structural)]
pub enum ErrorCode {
    /// The content is too long.
    ContentTooLong,
    /// The comment page is full.
    PageFull,
    /// Comment index out of bounds for tracking.
    CommentIndexOutOfBounds,
    /// Already liked.
    AlreadyLiked,
    /// Comment not found in page.
    CommentNotFound,
    /// The supplied page is not the one that the comment count or the
    /// comment index calls for.
    PageMismatch,
    /// A record already exists at the address where one was to be created.
    AddressCollision,
    /// A supplied record is not at the address derived from its key fields.
    ConstraintSeeds,
    /// A supplied identity is not the one that the post names.
    ConstraintAddress,
    /// The follow relation already exists.
    AlreadyFollowing,
    /// The follow relation does not exist.
    NotFollowing,
    /// The value transfer failed.
    TransferFailed,
}

/// Per-author counters.
#[derive(Clone, Debug, PartialEq, Eq)]
pub struct UserProfile {
    pub authority: Address,
    pub post_count: u64,
    /// Likes received.
    pub like_count: u64,
    /// Tips received, in lamports.
    pub tip_count: u64,
    pub bump: u8,
}

/// A post: the root of a comment thread.
#[derive(Clone, Debug, PartialEq, Eq)]
pub struct Post {
    pub author: Address,
    pub timestamp: i64,
    pub topic: String,
    pub content: String,
    pub comment_count: u64,
    /// The page that currently accepts comments.
    pub last_comment_page: Option<Address>,
}

/// One comment, as stored in a page.
#[derive(Clone, Debug, PartialEq, Eq)]
pub struct CompactComment {
    pub author: Address,
    pub timestamp: i64,
    /// Global index of the parent comment, or `NO_PARENT`.
    pub parent_index: u64,
    pub content: String,
    pub like_count: u32,
}

/// A fixed-capacity page of a post's comment log.
#[derive(Clone, Debug, PartialEq, Eq)]
pub struct CommentPage {
    pub post: Address,
    pub page_index: u64,
    pub comments: Vec<CompactComment>,
}

/// Proof that a user liked a post: the record's existence is the fact.
#[derive(Clone, Debug, PartialEq, Eq)]
pub struct UserLike {
    pub user: Address,
    pub post: Address,
}

/// The comments of one post that one user has liked, one bit per global index.
#[derive(Clone, Debug, PartialEq, Eq)]
pub struct UserCommentLikes {
    pub user: Address,
    pub post: Address,
    pub likes_bitmap: [u8; 128],
}

/// A follow relation.
#[derive(Clone, Debug, PartialEq, Eq)]
pub struct UserFollow {
    pub follower: Address,
    pub target: Address,
    pub timestamp: i64,
}

/// Length of `s` in bytes, as stored.
pub open spec fn byte_len(s: &String) -> nat {
    encode_utf8(s@).len()
}

/// The page that holds the comment with global index `i`.
pub open spec fn page_of(i: u64) -> u64 {
    i / 10
}

/// The slot, within its page, of the comment with global index `i`.
pub open spec fn slot_of(i: u64) -> int {
    (i % 10) as int
}

/// The page that holds the comment with the given global index.
pub fn page_index(global_index: u64) -> (r: u64)
    ensures
        r == page_of(global_index),
        r == global_index / 10,
{
    global_index / PAGE_CAPACITY
}

/// The slot, within its page, of the comment with the given global index.
pub fn offset(global_index: u64) -> (r: usize)
    ensures
        r == slot_of(global_index),
        r == global_index % 10,
        r < 10,
{
    (global_index % PAGE_CAPACITY) as usize
}

/// Whether bit `i` of `bitmap` is set: byte `i / 8`, bit `i % 8` from the low end.
pub open spec fn liked(bitmap: Seq<u8>, i: int) -> bool {
    (bitmap[i / 8] >> ((i % 8) as u8)) & 1u8 == 1u8
}

proof fn lemma_set_bit(b: u8, k: u8, m: u8)
    by (bit_vector)
    requires
        k < 8,
        m < 8,
    ensures
        (((b | (1u8 << k)) >> m) & 1u8 == 1u8) == (m == k || (b >> m) & 1u8 == 1u8),
{
}

impl CompactComment {
    /// The comment's content fits its slot.
    pub open spec fn well_formed(&self) -> bool {
        byte_len(&self.content) <= 100
    }
}

impl UserProfile {
    /// A fresh profile for `authority`, with all counters at zero.
    pub fn new(authority: Address, bump: u8) -> (r: UserProfile)
        ensures
            r == (UserProfile { authority, post_count: 0, like_count: 0, tip_count: 0, bump }),
    {
        UserProfile { authority, post_count: 0, like_count: 0, tip_count: 0, bump }
    }
}

impl Post {
    /// The post's body fits its record.
    pub open spec fn well_formed(&self) -> bool {
        byte_len(&self.content) <= 280
    }

    /// Creates a post by `author` and counts it in the author's profile.
    ///
    /// Fails with `ContentTooLong`, changing nothing, exactly when `content`
    /// is longer than 280 bytes.
    pub fn create(
        profile: &mut UserProfile,
        author: Address,
        now: i64,
        topic: String,
        content: String,
    ) -> (r: Result<Post, ErrorCode>)
        requires
            byte_len(&content) <= 280 ==> old(profile).post_count < u64::MAX,
        ensures
            byte_len(&content) > 280 ==> r == Err::<Post, ErrorCode>(ErrorCode::ContentTooLong)
                && *final(profile) == *old(profile),
            byte_len(&content) <= 280 ==> r == Ok::<Post, ErrorCode>(
                Post {
                    author,
                    timestamp: now,
                    topic,
                    content,
                    comment_count: 0,
                    last_comment_page: None,
                },
            ) && *final(profile) == (UserProfile {
                post_count: (old(profile).post_count + 1) as u64,
                ..*old(profile)
            }),
            r matches Ok(post) ==> post.well_formed(),
    {
        if content.as_str().as_bytes().len() > MAX_POST_BYTES {
            return Err(ErrorCode::ContentTooLong);
        }
        profile.post_count = profile.post_count + 1;
        Ok(Post { author, timestamp: now, topic, content, comment_count: 0, last_comment_page: None })
    }
}

impl CommentPage {
    /// The page holds at most 10 comments, each of which fits its slot.
    pub open spec fn well_formed(&self) -> bool {
        &&& self.comments@.len() <= 10
        &&& forall|i: int| 0 <= i < self.comments@.len() ==> (#[trigger] self.comments@[i]).well_formed()
    }

    /// Whether the page holds at most 10 comments, each of at most 100 bytes.
    pub fn is_well_formed(&self) -> (ok: bool)
        ensures
            ok == self.well_formed(),
    {
        if self.comments.len() > 10 {
            return false;
        }
        let mut i: usize = 0;
        while i < self.comments.len()
            invariant
                i <= self.comments@.len(),
                forall|j: int| 0 <= j < i ==> (#[trigger] self.comments@[j]).well_formed(),
            decreases self.comments@.len() - i,
        {
            if self.comments[i].content.as_str().as_bytes().len() > MAX_COMMENT_BYTES {
                assert(!self.comments@[i as int].well_formed());
                return false;
            }
            i = i + 1;
        }
        true
    }

    /// Opens the page that takes the next comments of `post`, at `page_key`,
    /// and makes it the post's tail page.
    ///
    /// Fails with `PageMismatch`, changing nothing, exactly when the post is
    /// not at a page boundary: its comment count is no multiple of 10.
    pub fn allocate(post: &mut Post, post_key: Address, page_key: Address) -> (r: Result<
        CommentPage,
        ErrorCode,
    >)
        ensures
            old(post).comment_count % 10 != 0 ==> r == Err::<CommentPage, ErrorCode>(
                ErrorCode::PageMismatch,
            ) && *final(post) == *old(post),
            old(post).comment_count % 10 == 0 ==> {
                &&& r is Ok
                &&& r.unwrap().post == post_key
                &&& r.unwrap().page_index == page_of(old(post).comment_count)
                &&& r.unwrap().comments@ == Seq::<CompactComment>::empty()
                &&& r.unwrap().well_formed()
                &&& *final(post) == (Post { last_comment_page: Some(page_key), ..*old(post) })
            },
    {
        if post.comment_count % PAGE_CAPACITY != 0 {
            return Err(ErrorCode::PageMismatch);
        }
        let page = CommentPage {
            post: post_key,
            page_index: page_index(post.comment_count),
            comments: Vec::new(),
        };
        post.last_comment_page = Some(page_key);
        Ok(page)
    }

    /// Whether `self` is `before` with `comment` appended and nothing else changed.
    pub open spec fn extends(&self, before: &CommentPage, comment: CompactComment) -> bool {
        &&& self.post == before.post
        &&& self.page_index == before.page_index
        &&& self.comments@ == before.comments@.push(comment)
    }

    /// Whether `self` is `before` with one more like on the comment in slot
    /// `slot` and nothing else changed.
    pub open spec fn likes_more(&self, before: &CommentPage, slot: int) -> bool {
        &&& self.post == before.post
        &&& self.page_index == before.page_index
        &&& 0 <= slot < before.comments@.len()
        &&& self.comments@ == before.comments@.update(
            slot,
            CompactComment {
                like_count: (before.comments@[slot].like_count + 1) as u32,
                ..before.comments@[slot]
            },
        )
    }

    /// Appends a comment by `author` to this page, which must be the page of
    /// `post` at index `comment_count / 10`, and counts it in the post. The
    /// comment's global index is the post's comment count before the call.
    ///
    /// Fails, changing nothing, with `ContentTooLong` exactly when `content`
    /// is longer than 100 bytes; otherwise with `PageFull` exactly when the
    /// page already holds 10 comments; otherwise with `PageMismatch` exactly
    /// when the page's index is not `comment_count / 10`.
    pub fn append(
        &mut self,
        post: &mut Post,
        author: Address,
        now: i64,
        content: String,
        parent_index: u64,
    ) -> (r: Result<(), ErrorCode>)
        requires
            append_outcome(
                byte_len(&content),
                old(self).comments@.len(),
                old(self).page_index,
                old(post).comment_count,
            ) is Ok ==> old(post).comment_count < u64::MAX,
        ensures
            r == append_outcome(
                byte_len(&content),
                old(self).comments@.len(),
                old(self).page_index,
                old(post).comment_count,
            ),
            r is Err ==> *final(self) == *old(self) && *final(post) == *old(post),
            r is Ok ==> final(self).extends(
                old(self),
                CompactComment { author, timestamp: now, parent_index, content, like_count: 0 },
            ) && *final(post) == (Post {
                comment_count: (old(post).comment_count + 1) as u64,
                ..*old(post)
            }),
            old(self).well_formed() ==> final(self).well_formed(),
    {
        if content.as_str().as_bytes().len() > MAX_COMMENT_BYTES {
            return Err(ErrorCode::ContentTooLong);
        }
        if self.comments.len() >= 10 {
            return Err(ErrorCode::PageFull);
        }
        if self.page_index != page_index(post.comment_count) {
            return Err(ErrorCode::PageMismatch);
        }
        self.comments.push(
            CompactComment { author, timestamp: now, parent_index, content, like_count: 0 },
        );
        post.comment_count = post.comment_count + 1;
        Ok(())
    }
}

/// What appending content of `content_bytes` bytes returns, on the page with
/// index `page` that holds `held` comments, for a post of `count` comments.
pub open spec fn append_outcome(content_bytes: nat, held: nat, page: u64, count: u64) -> Result<
    (),
    ErrorCode,
> {
    if content_bytes > 100 {
        Err(ErrorCode::ContentTooLong)
    } else if held >= 10 {
        Err(ErrorCode::PageFull)
    } else if page != page_of(count) {
        Err(ErrorCode::PageMismatch)
    } else {
        Ok(())
    }
}

/// What liking the comment with global index `index` returns, given whether
/// the user's bit for it is already set, and the index of the supplied page
/// and the number of comments that it holds.
pub open spec fn like_outcome(already: bool, held: nat, page: u64, index: u64) -> Result<
    (),
    ErrorCode,
> {
    if index >= 1024 {
        Err(ErrorCode::CommentIndexOutOfBounds)
    } else if already {
        Err(ErrorCode::AlreadyLiked)
    } else if page != page_of(index) {
        Err(ErrorCode::PageMismatch)
    } else if slot_of(index) >= held {
        Err(ErrorCode::CommentNotFound)
    } else {
        Ok(())
    }
}

impl UserCommentLikes {
    /// A tracker for `user` on `post` with no likes recorded.
    pub fn new(user: Address, post: Address) -> (r: UserCommentLikes)
        ensures
            r.user == user,
            r.post == post,
            forall|i: int| 0 <= i < 1024 ==> !liked(r.likes_bitmap@, i),
    {
        let r = UserCommentLikes { user, post, likes_bitmap: [0u8; 128] };
        proof {
            assert forall|i: int| 0 <= i < 1024 implies !liked(r.likes_bitmap@, i) by {
                let k = (i % 8) as u8;
                assert(r.likes_bitmap@[i / 8] == 0u8);
                assert((0u8 >> k) & 1u8 == 0u8) by (bit_vector);
            }
        }
        r
    }

    /// Whether this tracker records a like on the comment with the given
    /// global index. Indices from 1024 on are never recorded.
    pub fn has_liked(&self, index: u64) -> (r: bool)
        ensures
            r == (index < 1024 && liked(self.likes_bitmap@, index as int)),
    {
        if index >= TRACKED_COMMENTS {
            return false;
        }
        let byte_index = (index / 8) as usize;
        let bit_offset = (index % 8) as u8;
        (self.likes_bitmap[byte_index] >> bit_offset) & 1 == 1
    }

    /// Whether `self` is `before` with bit `index` set and nothing else changed.
    pub open spec fn marks(&self, before: &UserCommentLikes, index: u64) -> bool {
        &&& self.user == before.user
        &&& self.post == before.post
        &&& forall|j: int|
            0 <= j < 1024 ==> liked(self.likes_bitmap@, j) == (j == index || liked(
                before.likes_bitmap@,
                j,
            ))
    }

    /// Records that the user likes the comment with global index `index`,
    /// which `page` holds, and counts the like on the comment.
    ///
    /// Fails, changing nothing: with `CommentIndexOutOfBounds` exactly when
    /// `index` is 1024 or more; otherwise with `AlreadyLiked` exactly when the
    /// bit is already set; otherwise with `PageMismatch` exactly when the
    /// page's index is not `index / 10`; otherwise with `CommentNotFound`
    /// exactly when the page has no comment in slot `index % 10`.
    pub fn like(&mut self, page: &mut CommentPage, index: u64) -> (r: Result<(), ErrorCode>)
        requires
            like_outcome(
                liked(old(self).likes_bitmap@, index as int),
                old(page).comments@.len(),
                old(page).page_index,
                index,
            ) is Ok ==> old(page).comments@[slot_of(index)].like_count < u32::MAX,
        ensures
            r == like_outcome(
                liked(old(self).likes_bitmap@, index as int),
                old(page).comments@.len(),
                old(page).page_index,
                index,
            ),
            r is Err ==> *final(self) == *old(self) && *final(page) == *old(page),
            r is Ok ==> final(self).marks(old(self), index) && final(page).likes_more(
                old(page),
                slot_of(index),
            ),
            old(page).well_formed() ==> final(page).well_formed(),
    {
        if index >= TRACKED_COMMENTS {
            return Err(ErrorCode::CommentIndexOutOfBounds);
        }
        let byte_index = (index / 8) as usize;
        let bit_offset = (index % 8) as u8;
        let byte = self.likes_bitmap[byte_index];
        if (byte >> bit_offset) & 1 == 1 {
            return Err(ErrorCode::AlreadyLiked);
        }
        if page.page_index != page_index(index) {
            return Err(ErrorCode::PageMismatch);
        }
        let local_index = offset(index);
        if local_index >= page.comments.len() {
            return Err(ErrorCode::CommentNotFound);
        }
        self.likes_bitmap[byte_index] = byte | (1u8 << bit_offset);
        proof {
            assert forall|j: int| 0 <= j < 1024 implies liked(self.likes_bitmap@, j) == (j == index
                || liked(old(self).likes_bitmap@, j)) by {
                if j / 8 == byte_index as int {
                    lemma_set_bit(byte, bit_offset, (j % 8) as u8);
                }
            }
        }
        let comment = &mut page.comments[local_index];
        comment.like_count = comment.like_count + 1;
        Ok(())
    }
}

} // verus!
