//! A post's comment log as a whole: how the pages that the operations touch
//! one at a time make up one append-only sequence of comments.

use vstd::prelude::*;
use crate::accounts::{AddComment, InitCommentPage, LikeComment, LikePost};
use crate::address::Address;
use crate::instructions::{
    add_comment_effect, init_comment_page_effect, like_comment_effect, like_comment_outcome,
    like_post_effect, recorded,
};
use crate::records::{
    byte_len, liked, offset, page_index, page_of, slot_of, CommentPage, CompactComment, ErrorCode,
    UserCommentLikes,
};

verus! {

/// How many comments page `k` holds when the post has `count` comments.
pub open spec fn held(count: u64, k: int) -> int {
    if 10 * (k + 1) <= count {
        10
    } else if 10 * k <= count {
        count - 10 * k
    } else {
        0
    }
}

/// Whether `pages` are the pages of the post at `post_key` with `count`
/// comments, page `k` at position `k`: every comment has its page, every
/// page before the last is full, and there is at most one page open beyond
/// the full ones.
pub open spec fn well_formed(post_key: Address, count: u64, pages: Seq<CommentPage>) -> bool {
    &&& count <= 10 * pages.len()
    &&& pages.len() <= count / 10 + 1
    &&& forall|k: int|
        0 <= k < pages.len() ==> {
            &&& (#[trigger] pages[k]).post == post_key
            &&& pages[k].page_index == k
            &&& pages[k].comments@.len() == held(count, k)
        }
}

/// The comment found at the page and slot of global index `i`.
pub open spec fn comment_at(pages: Seq<CommentPage>, i: u64) -> CompactComment {
    pages[page_of(i) as int].comments@[slot_of(i)]
}

/// The first `count` comments of the log, by global index.
pub open spec fn log(pages: Seq<CommentPage>, count: u64) -> Seq<CompactComment> {
    Seq::new(count as nat, |i: int| comment_at(pages, i as u64))
}

/// A post without comments and without pages is a well-formed thread with
/// an empty log.
pub proof fn lemma_new_thread(post_key: Address)
    ensures
        well_formed(post_key, 0, Seq::<CommentPage>::empty()),
        log(Seq::<CommentPage>::empty(), 0) == Seq::<CompactComment>::empty(),
{
    assert(log(Seq::<CommentPage>::empty(), 0) =~= Seq::<CompactComment>::empty());
}

/// The comment with global index `global_index`, looked up in `pages` by
/// page and slot, where `pages` holds page `k` at position `k`; `None` where
/// the page or the slot is not there.
pub fn find_comment(pages: &Vec<CommentPage>, global_index: u64) -> (r: Option<&CompactComment>)
    ensures
        r is Some <==> page_of(global_index) < pages@.len() && slot_of(global_index)
            < pages@[page_of(global_index) as int].comments@.len(),
        r matches Some(c) ==> *c == comment_at(pages@, global_index),
{
    let page = page_index(global_index);
    if page >= pages.len() as u64 {
        return None;
    }
    let slot = offset(global_index);
    let comments = &pages[page as usize].comments;
    if slot >= comments.len() {
        return None;
    }
    Some(&comments[slot])
}

/// Every comment of a post is found from its global index alone: comment `i`
/// is in the page with index `i / 10`, at slot `i % 10`.
pub proof fn lemma_comment_location(post_key: Address, count: u64, pages: Seq<CommentPage>, i: u64)
    requires
        well_formed(post_key, count, pages),
        i < count,
    ensures
        page_of(i) == i / 10,
        slot_of(i) == i % 10,
        page_of(i) < pages.len(),
        pages[page_of(i) as int].page_index == page_of(i),
        pages[page_of(i) as int].post == post_key,
        0 <= slot_of(i) < pages[page_of(i) as int].comments@.len(),
        log(pages, count)[i as int] == pages[(i / 10) as int].comments@[(i % 10) as int],
{
    let k = page_of(i) as int;
    assert(pages[k].comments@.len() == held(count, k));
}

/// A comment is only ever added to the tail page, where it becomes the last
/// comment of the log, at the global index that was the post's comment
/// count; every earlier comment stays where it was. The log is in append
/// order.
pub proof fn lemma_append_order(
    pages: Seq<CommentPage>,
    k: int,
    before: AddComment,
    now: i64,
    content: String,
    parent_index: u64,
    after: AddComment,
)
    requires
        well_formed(before.post.key, before.post.data.comment_count, pages),
        before.post.data.comment_count < u64::MAX,
        0 <= k < pages.len(),
        pages[k] == before.comment_page.data,
        add_comment_effect(&before, now, content, parent_index, &after, Ok(())),
    ensures
        k == page_of(before.post.data.comment_count),
        after.post.data.comment_count == before.post.data.comment_count + 1,
        well_formed(
            after.post.key,
            after.post.data.comment_count,
            pages.update(k, after.comment_page.data),
        ),
        log(pages.update(k, after.comment_page.data), after.post.data.comment_count) == log(
            pages,
            before.post.data.comment_count,
        ).push(
            CompactComment {
                author: before.author,
                timestamp: now,
                parent_index,
                content,
                like_count: 0,
            },
        ),
{
    let count = before.post.data.comment_count;
    let next = pages.update(k, after.comment_page.data);
    let c = CompactComment {
        author: before.author,
        timestamp: now,
        parent_index,
        content,
        like_count: 0,
    };
    assert(pages[k].comments@.len() == held(count, k));
    assert forall|j: int| 0 <= j < next.len() implies {
        &&& (#[trigger] next[j]).post == after.post.key
        &&& next[j].page_index == j
        &&& next[j].comments@.len() == held((count + 1) as u64, j)
    } by {
        assert(pages[j].comments@.len() == held(count, j));
    }
    assert forall|i: int| 0 <= i < count + 1 implies log(next, (count + 1) as u64)[i] == log(
        pages,
        count,
    ).push(c)[i] by {
        let p = page_of(i as u64) as int;
        if i < count {
            assert(pages[p].comments@.len() == held(count, p));
        }
    }
    assert(log(next, (count + 1) as u64) =~= log(pages, count).push(c));
}

/// Offered any page of the thread but the one at index `comment_count / 10`,
/// `add_comment` fails and changes nothing.
pub proof fn lemma_wrong_page_refused(
    pages: Seq<CommentPage>,
    k: int,
    before: AddComment,
    now: i64,
    content: String,
    parent_index: u64,
    after: AddComment,
    r: Result<(), ErrorCode>,
)
    requires
        well_formed(before.post.key, before.post.data.comment_count, pages),
        0 <= k < pages.len(),
        pages[k] == before.comment_page.data,
        k != page_of(before.post.data.comment_count),
        add_comment_effect(&before, now, content, parent_index, &after, r),
    ensures
        r is Err,
        after == before,
{
}

/// A page is only ever opened at a page boundary; where the thread has no
/// page for the next comment, the new page gets the next index and becomes
/// the post's tail page, and no comment of the log changes.
pub proof fn lemma_allocation_keeps_log(
    pages: Seq<CommentPage>,
    before: InitCommentPage,
    after: InitCommentPage,
)
    requires
        well_formed(before.post.key, before.post.data.comment_count, pages),
        pages.len() == page_of(before.post.data.comment_count),
        init_comment_page_effect(&before, &after, Ok(())),
    ensures
        before.post.data.comment_count % 10 == 0,
        after.post.data.comment_count == before.post.data.comment_count,
        after.post.data.last_comment_page == Some(before.new_page.key),
        after.new_page.data.unwrap().page_index == pages.len(),
        well_formed(
            after.post.key,
            after.post.data.comment_count,
            pages.push(after.new_page.data.unwrap()),
        ),
        log(pages.push(after.new_page.data.unwrap()), after.post.data.comment_count) == log(
            pages,
            before.post.data.comment_count,
        ),
{
    let count = before.post.data.comment_count;
    let next = pages.push(after.new_page.data.unwrap());
    assert forall|j: int| 0 <= j < next.len() implies {
        &&& (#[trigger] next[j]).post == before.post.key
        &&& next[j].page_index == j
        &&& next[j].comments@.len() == held(count, j)
    } by {
        if j < pages.len() {
            assert(pages[j].comments@.len() == held(count, j));
        }
    }
    assert(log(next, count) =~= log(pages, count));
}

/// While the page that takes the next comment is open, no other page can
/// be opened: the slot that `init_comment_page` accepts is the one that
/// holds the open page, so the call fails and changes nothing.
pub proof fn lemma_open_page_blocks_allocation(
    before: InitCommentPage,
    after: InitCommentPage,
    r: Result<(), ErrorCode>,
)
    requires
        before.new_page.data is Some,
        init_comment_page_effect(&before, &after, r),
    ensures
        r is Err,
        after == before,
{
}

/// A like that succeeds is a like of a comment that exists; it raises the
/// like count of that comment by one and changes nothing else of the log:
/// no comment moves.
pub proof fn lemma_like_keeps_order(
    pages: Seq<CommentPage>,
    k: int,
    before: LikeComment,
    index: u64,
    after: LikeComment,
)
    requires
        well_formed(before.post.key, before.post.data.comment_count, pages),
        0 <= k < pages.len(),
        pages[k] == before.comment_page.data,
        like_comment_effect(&before, index, &after, Ok(())),
    ensures
        k == page_of(index),
        index < before.post.data.comment_count,
        after.post.data.comment_count == before.post.data.comment_count,
        well_formed(
            after.post.key,
            after.post.data.comment_count,
            pages.update(k, after.comment_page.data),
        ),
        log(pages.update(k, after.comment_page.data), after.post.data.comment_count) == log(
            pages,
            before.post.data.comment_count,
        ).update(
            index as int,
            CompactComment {
                like_count: (log(pages, before.post.data.comment_count)[index as int].like_count
                    + 1) as u32,
                ..log(pages, before.post.data.comment_count)[index as int]
            },
        ),
{
    let count = before.post.data.comment_count;
    let next = pages.update(k, after.comment_page.data);
    assert(pages[k].comments@.len() == held(count, k));
    assert forall|j: int| 0 <= j < next.len() implies {
        &&& (#[trigger] next[j]).post == after.post.key
        &&& next[j].page_index == j
        &&& next[j].comments@.len() == held(count, j)
    } by {
        assert(pages[j].comments@.len() == held(count, j));
    }
    let liked_one = CompactComment {
        like_count: (log(pages, count)[index as int].like_count + 1) as u32,
        ..log(pages, count)[index as int]
    };
    assert forall|i: int| 0 <= i < count implies log(next, count)[i] == log(pages, count).update(
        index as int,
        liked_one,
    )[i] by {
        let p = page_of(i as u64) as int;
        assert(pages[p].comments@.len() == held(count, p));
    }
    assert(log(next, count) =~= log(pages, count).update(index as int, liked_one));
}

/// A comment of at most 100 bytes offered to a page that holds 10 comments
/// is refused as `PageFull`, and page and post stay as they were.
pub proof fn lemma_full_page_refuses(
    before: AddComment,
    now: i64,
    content: String,
    parent_index: u64,
    after: AddComment,
    r: Result<(), ErrorCode>,
)
    requires
        before.comment_page.data.comments@.len() == 10,
        byte_len(&content) <= 100,
        add_comment_effect(&before, now, content, parent_index, &after, r),
    ensures
        r == Err::<(), ErrorCode>(ErrorCode::PageFull),
        after == before,
{
}

/// After a like that succeeded, a second like of the same comment by the
/// same user is refused as `AlreadyLiked` and changes nothing: the like
/// count and the bit stay as the first like left them.
pub proof fn lemma_second_like_refused(
    before: LikeComment,
    index: u64,
    first: LikeComment,
    second: LikeComment,
    r: Result<(), ErrorCode>,
)
    requires
        like_comment_effect(&before, index, &first, Ok(())),
        like_comment_effect(&first, index, &second, r),
    ensures
        r == Err::<(), ErrorCode>(ErrorCode::AlreadyLiked),
        second == first,
        recorded(second.user_comment_likes.data, index as int),
        second.comment_page.data.comments@[slot_of(index)].like_count == (
        before.comment_page.data.comments@[slot_of(index)].like_count + 1) as u32,
{
    assert(like_comment_outcome(&before, index) is Ok);
    assert(index < 1024);
    assert(recorded(first.user_comment_likes.data, index as int));
}

/// After a like of a post that succeeded, a second like of the post by the
/// same user is refused as `AlreadyLiked` and changes nothing: the author's
/// like count has risen exactly once.
pub proof fn lemma_second_post_like_refused(
    before: LikePost,
    first: LikePost,
    second: LikePost,
    r: Result<(), ErrorCode>,
)
    requires
        like_post_effect(&before, &first, Ok(())),
        like_post_effect(&first, &second, r),
    ensures
        r == Err::<(), ErrorCode>(ErrorCode::AlreadyLiked),
        second == first,
        second.author_profile.data.like_count == (before.author_profile.data.like_count
            + 1) as u64,
{
}

/// A like of a comment with global index 1024 or more is refused as
/// `CommentIndexOutOfBounds`, whatever the tracker and the page hold, and
/// changes nothing.
pub proof fn lemma_index_out_of_range(
    before: LikeComment,
    index: u64,
    after: LikeComment,
    r: Result<(), ErrorCode>,
)
    requires
        index >= 1024,
        like_comment_effect(&before, index, &after, r),
    ensures
        r == Err::<(), ErrorCode>(ErrorCode::CommentIndexOutOfBounds),
        after == before,
{
}

/// A page stays within its capacity and its comments within their size
/// when a comment that fits is appended to fewer than 10.
pub proof fn lemma_append_keeps_page_well_formed(
    before: CommentPage,
    comment: CompactComment,
    after: CommentPage,
)
    requires
        before.well_formed(),
        before.comments@.len() < 10,
        comment.well_formed(),
        after.extends(&before, comment),
    ensures
        after.well_formed(),
{
    assert forall|i: int| 0 <= i < after.comments@.len() implies (
    #[trigger] after.comments@[i]).well_formed() by {
        if i < before.comments@.len() {
            assert(before.comments@[i].well_formed());
        }
    }
}

/// A like changes neither the number of comments of a page nor the content
/// of any, and lowers no like count.
pub proof fn lemma_like_keeps_page_well_formed(before: CommentPage, slot: int, after: CommentPage)
    requires
        before.well_formed(),
        before.comments@[slot].like_count < u32::MAX,
        after.likes_more(&before, slot),
    ensures
        after.well_formed(),
        after.comments@.len() == before.comments@.len(),
        forall|i: int|
            0 <= i < before.comments@.len() ==> {
                &&& (#[trigger] after.comments@[i]).content == before.comments@[i].content
                &&& after.comments@[i].author == before.comments@[i].author
                &&& after.comments@[i].like_count >= before.comments@[i].like_count
            },
{
    assert forall|i: int| 0 <= i < after.comments@.len() implies (
    #[trigger] after.comments@[i]).well_formed() by {
        assert(before.comments@[i].well_formed());
    }
}

/// A like clears no bit: what the tracker recorded before, it records after.
pub proof fn lemma_bits_never_cleared(
    before: UserCommentLikes,
    index: u64,
    after: UserCommentLikes,
    j: int,
)
    requires
        after.marks(&before, index),
        0 <= j < 1024,
        liked(before.likes_bitmap@, j),
    ensures
        liked(after.likes_bitmap@, j),
{
}

} // verus!
