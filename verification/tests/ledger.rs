use anchor_lang::prelude::Pubkey;
use anchor_lang::{AnchorDeserialize, AnchorSerialize};
use std::str::FromStr;
use suisuinian::accounts::{
    check_profile, Account, AddComment, CreatePost, FollowUser, InitCommentPage, InitUserProfile,
    LikeComment, LikePost, TipPost, UnfollowUser,
};
use suisuinian::address::{
    comment_page_address, matches_key, matches_key_and_bump, program_id, user_comment_likes_address,
    user_follow_address, user_like_address, user_profile_address, Address, Derived,
};
use suisuinian::instructions::{
    add_comment, check_append, check_like, create_post, follow_user, init_comment_page, init_user_profile,
    like_comment, like_post, tip_post, tip_transfer, unfollow_user, Transfer,
};
use suisuinian::storage::{from_bytes, to_bytes};
use suisuinian::thread::find_comment;
use suisuinian::records::{
    offset, page_index, CommentPage, CompactComment, ErrorCode, Post, UserCommentLikes,
    UserProfile, MAX_COMMENT_BYTES, MAX_POST_BYTES, NO_PARENT, PAGE_CAPACITY, TRACKED_COMMENTS,
};

fn addr(tag: u8) -> Address {
    Address { bytes: [tag; 32] }
}

fn key_of(d: Option<Derived>) -> Address {
    d.expect("an address is derived").address
}

fn program() -> Pubkey {
    Pubkey::from_str("F9UhuiZHK4HK3L7KJXMs5YjYoq5fmogdcgkajNTKYzCu").unwrap()
}

fn profile_account(authority: Address) -> Account<UserProfile> {
    let d = user_profile_address(&authority).unwrap();
    Account { key: d.address, data: UserProfile::new(authority, d.bump) }
}

fn new_post(author: Address, comment_count: u64) -> Post {
    Post {
        author,
        timestamp: 1_700_000_000,
        topic: String::from("rust"),
        content: String::from("hello"),
        comment_count,
        last_comment_page: None,
    }
}

fn comment(author: Address, text: &str) -> CompactComment {
    CompactComment {
        author,
        timestamp: 7,
        parent_index: NO_PARENT,
        content: String::from(text),
        like_count: 0,
    }
}

fn page_with(post_key: Address, index: u64, held: usize) -> Account<CommentPage> {
    let mut comments = Vec::new();
    for i in 0..held {
        comments.push(comment(addr(9), &format!("c{}", i)));
    }
    Account {
        key: key_of(comment_page_address(&post_key, index)),
        data: CommentPage { post: post_key, page_index: index, comments },
    }
}

fn like_ctx(post_key: Address, user: Address, index: u64, held: usize) -> LikeComment {
    LikeComment {
        post: Account { key: post_key, data: new_post(addr(2), index + 1) },
        comment_page: page_with(post_key, index / 10, held),
        user_comment_likes: Account {
            key: key_of(user_comment_likes_address(&user, &post_key)),
            data: None,
        },
        user,
    }
}

#[test]
fn constants_have_documented_values() {
    assert_eq!(PAGE_CAPACITY, 10);
    assert_eq!(MAX_POST_BYTES, 280);
    assert_eq!(MAX_COMMENT_BYTES, 100);
    assert_eq!(TRACKED_COMMENTS, 1024);
    assert_eq!(NO_PARENT, u64::MAX);
}

#[test]
fn global_index_maps_to_page_and_offset() {
    assert_eq!(page_index(0), 0);
    assert_eq!(offset(0), 0);
    assert_eq!(page_index(9), 0);
    assert_eq!(offset(9), 9);
    assert_eq!(page_index(10), 1);
    assert_eq!(offset(10), 0);
    assert_eq!(page_index(1023), 102);
    assert_eq!(offset(1023), 3);
    assert_eq!(page_index(u64::MAX), 1844674407370955161);
    assert_eq!(offset(u64::MAX), 5);
    for i in 0..200u64 {
        assert_eq!(page_index(i) * 10 + offset(i) as u64, i);
    }
}

#[test]
fn program_id_is_the_declared_identity() {
    assert_eq!(program_id().bytes, program().to_bytes());
}

#[test]
fn addresses_are_the_runtime_derivations() {
    let post = addr(1);
    let user = addr(3);
    let (k, b) = Pubkey::find_program_address(
        &[b"comment_page", &post.bytes, &1u64.to_le_bytes()],
        &program(),
    );
    let d = comment_page_address(&post, 1).unwrap();
    assert_eq!(d.address.bytes, k.to_bytes());
    assert_eq!(d.bump, b);
    assert_ne!(d.address, post);

    let (k, b) = Pubkey::find_program_address(&[b"user_profile", &user.bytes], &program());
    let d = user_profile_address(&user).unwrap();
    assert_eq!((d.address.bytes, d.bump), (k.to_bytes(), b));

    let (k, b) =
        Pubkey::find_program_address(&[b"user_like", &user.bytes, &post.bytes], &program());
    let d = user_like_address(&user, &post).unwrap();
    assert_eq!((d.address.bytes, d.bump), (k.to_bytes(), b));

    let (k, b) = Pubkey::find_program_address(
        &[b"user_comment_likes", &user.bytes, &post.bytes],
        &program(),
    );
    let d = user_comment_likes_address(&user, &post).unwrap();
    assert_eq!((d.address.bytes, d.bump), (k.to_bytes(), b));

    let (k, b) =
        Pubkey::find_program_address(&[b"user_follow", &user.bytes, &post.bytes], &program());
    let d = user_follow_address(&user, &post).unwrap();
    assert_eq!((d.address.bytes, d.bump), (k.to_bytes(), b));
}

#[test]
fn addresses_are_deterministic_and_distinct_per_key() {
    let post = addr(1);
    let a = comment_page_address(&post, 0).unwrap();
    let b = comment_page_address(&post, 0).unwrap();
    let c = comment_page_address(&post, 1).unwrap();
    let d = comment_page_address(&addr(2), 0).unwrap();
    assert_eq!(a, b);
    assert_ne!(a.address, c.address);
    assert_ne!(a.address, d.address);
    assert_ne!(
        user_like_address(&addr(3), &post).unwrap().address,
        user_comment_likes_address(&addr(3), &post).unwrap().address
    );
    assert_ne!(
        user_follow_address(&addr(3), &addr(4)).unwrap().address,
        user_follow_address(&addr(4), &addr(3)).unwrap().address
    );
}

#[test]
fn address_comparison_is_bytewise() {
    let a = addr(5);
    let mut b = addr(5);
    assert!(a.same(&b));
    b.bytes[31] = 6;
    assert!(!a.same(&b));
    let d = Some(Derived { address: a, bump: 254 });
    assert!(matches_key(&d, &a));
    assert!(!matches_key(&d, &b));
    assert!(!matches_key(&None, &a));
    assert!(matches_key_and_bump(&d, &a, 254));
    assert!(!matches_key_and_bump(&d, &a, 255));
    assert!(!matches_key_and_bump(&d, &b, 254));
    assert!(!matches_key_and_bump(&None, &a, 254));
}

#[test]
fn init_user_profile_creates_zeroed_profile() {
    let authority = addr(7);
    let d = user_profile_address(&authority).unwrap();
    let mut ctx = InitUserProfile {
        user_profile: Account { key: d.address, data: None },
        authority,
    };
    assert_eq!(init_user_profile(&mut ctx), Ok(()));
    assert_eq!(
        ctx.user_profile.data,
        Some(UserProfile { authority, post_count: 0, like_count: 0, tip_count: 0, bump: d.bump })
    );
    assert!(check_profile(
        &Account { key: d.address, data: ctx.user_profile.data.clone().unwrap() },
        &authority
    ));
    let taken = ctx.clone();
    assert_eq!(init_user_profile(&mut ctx), Err(ErrorCode::AddressCollision));
    assert_eq!(ctx, taken);
}

#[test]
fn init_user_profile_rejects_misplaced_slot() {
    let mut ctx = InitUserProfile {
        user_profile: Account { key: addr(8), data: None },
        authority: addr(7),
    };
    assert_eq!(init_user_profile(&mut ctx), Err(ErrorCode::ConstraintSeeds));
    assert_eq!(ctx.user_profile.data, None);
}

#[test]
fn create_post_counts_in_profile() {
    let author = addr(2);
    let mut ctx = CreatePost {
        post: Account { key: addr(1), data: None },
        user_profile: profile_account(author),
        author,
    };
    let body = "x".repeat(280);
    assert_eq!(create_post(&mut ctx, 42, String::from("topic"), body.clone()), Ok(()));
    assert_eq!(
        ctx.post.data,
        Some(Post {
            author,
            timestamp: 42,
            topic: String::from("topic"),
            content: body,
            comment_count: 0,
            last_comment_page: None,
        })
    );
    assert_eq!(ctx.user_profile.data.post_count, 1);
    assert_eq!(ctx.user_profile.data.like_count, 0);
    assert_eq!(ctx.user_profile.data.tip_count, 0);
}

#[test]
fn create_post_rejects_long_content() {
    let author = addr(2);
    let mut ctx = CreatePost {
        post: Account { key: addr(1), data: None },
        user_profile: profile_account(author),
        author,
    };
    let before = ctx.clone();
    assert_eq!(
        create_post(&mut ctx, 42, String::from("topic"), "x".repeat(281)),
        Err(ErrorCode::ContentTooLong)
    );
    assert_eq!(ctx, before);
}

#[test]
fn create_post_rejects_taken_slot_and_foreign_profile() {
    let author = addr(2);
    let mut ctx = CreatePost {
        post: Account { key: addr(1), data: Some(new_post(author, 3)) },
        user_profile: profile_account(author),
        author,
    };
    let before = ctx.clone();
    assert_eq!(
        create_post(&mut ctx, 42, String::from("t"), String::from("c")),
        Err(ErrorCode::AddressCollision)
    );
    assert_eq!(ctx, before);

    let mut ctx = CreatePost {
        post: Account { key: addr(1), data: None },
        user_profile: profile_account(addr(3)),
        author,
    };
    assert_eq!(
        create_post(&mut ctx, 42, String::from("t"), String::from("c")),
        Err(ErrorCode::ConstraintSeeds)
    );
    assert_eq!(ctx.post.data, None);
}

#[test]
fn paginated_thread_rolls_over_at_ten() {
    let author = addr(2);
    let post_key = addr(1);
    let mut create = CreatePost {
        post: Account { key: post_key, data: None },
        user_profile: profile_account(author),
        author,
    };
    assert_eq!(create_post(&mut create, 1, String::from("t"), String::from("body")), Ok(()));
    let post = create.post.data.unwrap();

    let page0_key = key_of(comment_page_address(&post_key, 0));
    let mut init = InitCommentPage {
        post: Account { key: post_key, data: post },
        new_page: Account { key: page0_key, data: None },
        author,
    };
    assert_eq!(init_comment_page(&mut init), Ok(()));
    assert_eq!(init.post.data.last_comment_page, Some(page0_key));
    let page0 = init.new_page.data.clone().unwrap();
    assert_eq!(page0.page_index, 0);
    assert_eq!(page0.post, post_key);
    assert!(page0.comments.is_empty());

    let mut ctx = AddComment {
        post: init.post.clone(),
        comment_page: Account { key: page0_key, data: page0 },
        author,
    };
    for i in 0..10u64 {
        assert_eq!(add_comment(&mut ctx, 100 + i as i64, format!("comment {}", i), NO_PARENT), Ok(()));
        assert_eq!(ctx.post.data.comment_count, i + 1);
    }
    assert_eq!(ctx.comment_page.data.comments.len(), 10);
    for i in 0..10u64 {
        let c = &ctx.comment_page.data.comments[offset(i)];
        assert_eq!(c.content, format!("comment {}", i));
        assert_eq!(c.timestamp, 100 + i as i64);
        assert_eq!(c.like_count, 0);
        assert_eq!(c.parent_index, NO_PARENT);
        assert_eq!(c.author, author);
    }

    let full = ctx.clone();
    assert_eq!(
        add_comment(&mut ctx, 200, String::from("eleventh"), 3),
        Err(ErrorCode::PageFull)
    );
    assert_eq!(ctx, full);

    let page1_key = key_of(comment_page_address(&post_key, 1));
    let mut init = InitCommentPage {
        post: ctx.post.clone(),
        new_page: Account { key: page1_key, data: None },
        author,
    };
    assert_eq!(init_comment_page(&mut init), Ok(()));
    let page1 = init.new_page.data.clone().unwrap();
    assert_eq!(page1.page_index, 1);
    assert_eq!(page1.page_index, page_index(10));
    assert_eq!(init.post.data.last_comment_page, Some(page1_key));
    assert_eq!(init.post.data.comment_count, 10);

    let mut ctx1 = AddComment {
        post: init.post.clone(),
        comment_page: Account { key: page1_key, data: page1 },
        author,
    };
    assert_eq!(add_comment(&mut ctx1, 201, String::from("eleventh"), 3), Ok(()));
    assert_eq!(ctx1.post.data.comment_count, 11);
    assert_eq!(ctx1.comment_page.data.comments.len(), 1);
    assert_eq!(ctx1.comment_page.data.comments[offset(10)].content, "eleventh");
    assert_eq!(ctx1.comment_page.data.comments[0].parent_index, 3);
    assert_eq!(ctx.comment_page.data, full.comment_page.data);
}

#[test]
fn init_comment_page_rejects_double_allocation() {
    let post_key = addr(1);
    let key = key_of(comment_page_address(&post_key, 2));
    let mut ctx = InitCommentPage {
        post: Account { key: post_key, data: new_post(addr(2), 20) },
        new_page: Account { key, data: None },
        author: addr(2),
    };
    assert_eq!(init_comment_page(&mut ctx), Ok(()));
    assert_eq!(ctx.new_page.data.as_ref().unwrap().page_index, 2);
    let before = ctx.clone();
    assert_eq!(init_comment_page(&mut ctx), Err(ErrorCode::AddressCollision));
    assert_eq!(ctx, before);
}

#[test]
fn init_comment_page_rejects_wrong_page_address() {
    let post_key = addr(1);
    let mut ctx = InitCommentPage {
        post: Account { key: post_key, data: new_post(addr(2), 20) },
        new_page: Account { key: key_of(comment_page_address(&post_key, 1)), data: None },
        author: addr(2),
    };
    let before = ctx.clone();
    assert_eq!(init_comment_page(&mut ctx), Err(ErrorCode::ConstraintSeeds));
    assert_eq!(ctx, before);
}

#[test]
fn add_comment_rejects_long_content() {
    let post_key = addr(1);
    let mut ctx = AddComment {
        post: Account { key: post_key, data: new_post(addr(2), 0) },
        comment_page: page_with(post_key, 0, 0),
        author: addr(4),
    };
    let before = ctx.clone();
    assert_eq!(
        add_comment(&mut ctx, 5, "y".repeat(101), NO_PARENT),
        Err(ErrorCode::ContentTooLong)
    );
    assert_eq!(ctx, before);
    assert_eq!(add_comment(&mut ctx, 5, "y".repeat(100), NO_PARENT), Ok(()));
    assert_eq!(ctx.post.data.comment_count, 1);
}

#[test]
fn content_limit_counts_bytes_not_characters() {
    let post_key = addr(1);
    let mut ctx = AddComment {
        post: Account { key: post_key, data: new_post(addr(2), 0) },
        comment_page: page_with(post_key, 0, 0),
        author: addr(4),
    };
    assert_eq!(
        add_comment(&mut ctx, 5, "\u{e9}".repeat(51), NO_PARENT),
        Err(ErrorCode::ContentTooLong)
    );
    assert_eq!(add_comment(&mut ctx, 5, "\u{e9}".repeat(50), NO_PARENT), Ok(()));
}

#[test]
fn long_content_is_reported_before_full_page() {
    let post_key = addr(1);
    let mut ctx = AddComment {
        post: Account { key: post_key, data: new_post(addr(2), 10) },
        comment_page: page_with(post_key, 0, 10),
        author: addr(4),
    };
    assert_eq!(
        add_comment(&mut ctx, 5, "y".repeat(101), NO_PARENT),
        Err(ErrorCode::ContentTooLong)
    );
}

#[test]
fn add_comment_rejects_page_of_another_boundary() {
    let post_key = addr(1);
    let mut ctx = AddComment {
        post: Account { key: post_key, data: new_post(addr(2), 12) },
        comment_page: page_with(post_key, 0, 2),
        author: addr(4),
    };
    let before = ctx.clone();
    assert_eq!(
        add_comment(&mut ctx, 5, String::from("late"), NO_PARENT),
        Err(ErrorCode::PageMismatch)
    );
    assert_eq!(ctx, before);
}

#[test]
fn add_comment_rejects_page_at_another_address() {
    let post_key = addr(1);
    let mut ctx = AddComment {
        post: Account { key: post_key, data: new_post(addr(2), 12) },
        comment_page: page_with(addr(6), 1, 2),
        author: addr(4),
    };
    let before = ctx.clone();
    assert_eq!(
        add_comment(&mut ctx, 5, String::from("late"), NO_PARENT),
        Err(ErrorCode::ConstraintSeeds)
    );
    assert_eq!(ctx, before);
    ctx.comment_page.key = key_of(comment_page_address(&post_key, 1));
    assert_eq!(add_comment(&mut ctx, 5, String::from("late"), NO_PARENT), Ok(()));
    assert_eq!(ctx.post.data.comment_count, 13);
    assert_eq!(ctx.comment_page.data.comments[offset(12)].content, "late");
}

#[test]
fn append_on_records_rejects_page_of_another_boundary() {
    let mut post = new_post(addr(2), 25);
    let mut page = page_with(addr(1), 1, 5).data;
    let before = (post.clone(), page.clone());
    assert_eq!(
        page.append(&mut post, addr(4), 5, String::from("x"), NO_PARENT),
        Err(ErrorCode::PageMismatch)
    );
    assert_eq!((post, page), before);
}

#[test]
fn check_append_predicts_the_outcome() {
    let post = new_post(addr(2), 3);
    let page = page_with(addr(1), 0, 3).data;
    assert_eq!(check_append(&page, &post, &String::from("ok")), Ok(()));
    assert_eq!(check_append(&page, &post, &"w".repeat(101)), Err(ErrorCode::ContentTooLong));
    let full = page_with(addr(1), 0, 10).data;
    assert_eq!(check_append(&full, &post, &String::from("ok")), Err(ErrorCode::PageFull));
    let other = page_with(addr(1), 4, 3).data;
    assert_eq!(check_append(&other, &post, &String::from("ok")), Err(ErrorCode::PageMismatch));
}

#[test]
fn append_on_records_reports_page_full() {
    let mut post = new_post(addr(2), 10);
    let mut page = page_with(addr(1), 0, 10).data;
    let before = (post.clone(), page.clone());
    assert_eq!(
        page.append(&mut post, addr(4), 5, String::from("x"), NO_PARENT),
        Err(ErrorCode::PageFull)
    );
    assert_eq!((post, page), before);
}

#[test]
fn like_comment_twice_counts_once() {
    let mut ctx = like_ctx(addr(1), addr(3), 5, 10);
    assert_eq!(like_comment(&mut ctx, 5), Ok(()));
    assert_eq!(ctx.comment_page.data.comments[5].like_count, 1);
    let tracker = ctx.user_comment_likes.data.clone().unwrap();
    assert!(tracker.has_liked(5));
    assert_eq!(tracker.likes_bitmap[0], 0b0010_0000);
    assert_eq!(tracker.user, addr(3));
    assert_eq!(tracker.post, addr(1));
    for i in 0..10usize {
        if i != 5 {
            assert_eq!(ctx.comment_page.data.comments[i].like_count, 0);
        }
    }

    let after_first = ctx.clone();
    assert_eq!(like_comment(&mut ctx, 5), Err(ErrorCode::AlreadyLiked));
    assert_eq!(ctx, after_first);
    assert_eq!(ctx.comment_page.data.comments[5].like_count, 1);
    assert!(ctx.user_comment_likes.data.as_ref().unwrap().has_liked(5));
}

#[test]
fn likes_of_different_comments_share_one_bitmap() {
    let mut ctx = like_ctx(addr(1), addr(3), 5, 10);
    assert_eq!(like_comment(&mut ctx, 0), Ok(()));
    assert_eq!(like_comment(&mut ctx, 7), Ok(()));
    assert_eq!(like_comment(&mut ctx, 8), Ok(()));
    let tracker = ctx.user_comment_likes.data.clone().unwrap();
    assert_eq!(tracker.likes_bitmap[0], 0b1000_0001);
    assert_eq!(tracker.likes_bitmap[1], 0b0000_0001);
    assert!(tracker.likes_bitmap[2..].iter().all(|b| *b == 0));
    assert!(tracker.has_liked(0) && tracker.has_liked(7) && tracker.has_liked(8));
    assert!(!tracker.has_liked(1) && !tracker.has_liked(9));
    assert_eq!(ctx.comment_page.data.comments[8].like_count, 1);
}

#[test]
fn like_comment_rejects_index_beyond_bitmap() {
    for held in [0usize, 5, 10] {
        let mut ctx = like_ctx(addr(1), addr(3), 1024, held);
        let before = ctx.clone();
        assert_eq!(like_comment(&mut ctx, 1024), Err(ErrorCode::CommentIndexOutOfBounds));
        assert_eq!(ctx, before);
        assert_eq!(like_comment(&mut ctx, u64::MAX), Err(ErrorCode::CommentIndexOutOfBounds));
        assert_eq!(ctx, before);
    }
    let mut ctx = like_ctx(addr(1), addr(3), 1024, 10);
    let mut tracker = UserCommentLikes::new(addr(3), addr(1));
    tracker.likes_bitmap = [0xff; 128];
    ctx.user_comment_likes.data = Some(tracker);
    assert_eq!(like_comment(&mut ctx, 1024), Err(ErrorCode::CommentIndexOutOfBounds));
}

#[test]
fn like_comment_accepts_last_tracked_index() {
    let mut ctx = like_ctx(addr(1), addr(3), 1023, 4);
    assert_eq!(like_comment(&mut ctx, 1023), Ok(()));
    assert_eq!(ctx.comment_page.data.comments[3].like_count, 1);
    let tracker = ctx.user_comment_likes.data.unwrap();
    assert_eq!(tracker.likes_bitmap[127], 0b1000_0000);
    assert!(tracker.has_liked(1023));
    assert!(!tracker.has_liked(1024));
}

#[test]
fn like_comment_rejects_missing_comment() {
    let mut ctx = like_ctx(addr(1), addr(3), 5, 5);
    let before = ctx.clone();
    assert_eq!(like_comment(&mut ctx, 5), Err(ErrorCode::CommentNotFound));
    assert_eq!(ctx, before);
    assert_eq!(ctx.user_comment_likes.data, None);
}

#[test]
fn like_comment_rejects_page_of_another_index() {
    let mut ctx = like_ctx(addr(1), addr(3), 5, 10);
    let before = ctx.clone();
    assert_eq!(like_comment(&mut ctx, 15), Err(ErrorCode::PageMismatch));
    assert_eq!(ctx, before);

    let mut ctx = like_ctx(addr(1), addr(3), 5, 10);
    ctx.comment_page.key = key_of(comment_page_address(&addr(1), 1));
    let before = ctx.clone();
    assert_eq!(like_comment(&mut ctx, 5), Err(ErrorCode::ConstraintSeeds));
    assert_eq!(ctx, before);

    let mut ctx = like_ctx(addr(1), addr(3), 5, 10);
    ctx.user_comment_likes.key = key_of(user_comment_likes_address(&addr(4), &addr(1)));
    assert_eq!(like_comment(&mut ctx, 5), Err(ErrorCode::ConstraintSeeds));
    assert_eq!(ctx.comment_page.data.comments[5].like_count, 0);
}

#[test]
fn check_like_predicts_the_outcome() {
    let page = page_with(addr(1), 0, 6).data;
    assert_eq!(check_like(&None, &page, 5), Ok(()));
    assert_eq!(check_like(&None, &page, 6), Err(ErrorCode::CommentNotFound));
    assert_eq!(check_like(&None, &page, 4000), Err(ErrorCode::CommentIndexOutOfBounds));
    assert_eq!(check_like(&None, &page, 12), Err(ErrorCode::PageMismatch));
    let mut tracker = UserCommentLikes::new(addr(3), addr(1));
    tracker.likes_bitmap[0] = 1 << 5;
    assert_eq!(check_like(&Some(tracker.clone()), &page, 5), Err(ErrorCode::AlreadyLiked));
    assert_eq!(check_like(&Some(tracker), &page, 4), Ok(()));
}

#[test]
fn like_on_records_sets_bit_and_counts() {
    let mut tracker = UserCommentLikes::new(addr(3), addr(1));
    assert_eq!(tracker.likes_bitmap, [0u8; 128]);
    let mut page = page_with(addr(1), 1, 10).data;
    assert_eq!(tracker.like(&mut page, 13), Ok(()));
    assert_eq!(tracker.likes_bitmap[1], 0b0010_0000);
    assert_eq!(page.comments[3].like_count, 1);
    assert_eq!(tracker.like(&mut page, 13), Err(ErrorCode::AlreadyLiked));
    assert_eq!(page.comments[3].like_count, 1);
    assert_eq!(tracker.like(&mut page, 3), Err(ErrorCode::PageMismatch));
    assert_eq!(page.comments[3].like_count, 1);
    assert!(!tracker.has_liked(3));
}

#[test]
fn like_post_twice_counts_once() {
    let author = addr(2);
    let user = addr(3);
    let post_key = addr(1);
    let mut ctx = LikePost {
        post: Account { key: post_key, data: new_post(author, 0) },
        user_like: Account { key: key_of(user_like_address(&user, &post_key)), data: None },
        author,
        author_profile: profile_account(author),
        user,
    };
    assert_eq!(like_post(&mut ctx), Ok(()));
    assert_eq!(ctx.author_profile.data.like_count, 1);
    let record = ctx.user_like.data.clone().unwrap();
    assert_eq!(record.user, user);
    assert_eq!(record.post, post_key);

    let after_first = ctx.clone();
    assert_eq!(like_post(&mut ctx), Err(ErrorCode::AlreadyLiked));
    assert_eq!(ctx, after_first);
    assert_eq!(ctx.author_profile.data.like_count, 1);
}

#[test]
fn like_post_rejects_wrong_author_and_wrong_slot() {
    let author = addr(2);
    let user = addr(3);
    let post_key = addr(1);
    let good = LikePost {
        post: Account { key: post_key, data: new_post(author, 0) },
        user_like: Account { key: key_of(user_like_address(&user, &post_key)), data: None },
        author,
        author_profile: profile_account(author),
        user,
    };
    let mut ctx = good.clone();
    ctx.author = addr(5);
    ctx.author_profile = profile_account(addr(5));
    assert_eq!(like_post(&mut ctx), Err(ErrorCode::ConstraintAddress));
    assert_eq!(ctx.author_profile.data.like_count, 0);

    let mut ctx = good.clone();
    ctx.user_like.key = key_of(user_like_address(&addr(6), &post_key));
    assert_eq!(like_post(&mut ctx), Err(ErrorCode::ConstraintSeeds));

    let mut ctx = good.clone();
    ctx.author_profile.data.bump = ctx.author_profile.data.bump.wrapping_sub(1);
    assert_eq!(like_post(&mut ctx), Err(ErrorCode::ConstraintSeeds));
    assert_eq!(ctx.user_like.data, None);
}

#[test]
fn tip_post_adds_amount_to_profile() {
    let author = addr(2);
    let mut ctx = TipPost {
        post: Account { key: addr(1), data: new_post(author, 0) },
        author,
        author_profile: profile_account(author),
        payer: addr(3),
    };
    assert_eq!(tip_post(&mut ctx, 1_000, true), Ok(()));
    assert_eq!(tip_post(&mut ctx, 234, true), Ok(()));
    assert_eq!(ctx.author_profile.data.tip_count, 1_234);
    assert_eq!(ctx.author_profile.data.like_count, 0);

    let before = ctx.clone();
    assert_eq!(tip_post(&mut ctx, 50, false), Err(ErrorCode::TransferFailed));
    assert_eq!(ctx, before);
}

#[test]
fn tip_post_rejects_wrong_author() {
    let author = addr(2);
    let mut ctx = TipPost {
        post: Account { key: addr(1), data: new_post(author, 0) },
        author: addr(5),
        author_profile: profile_account(addr(5)),
        payer: addr(3),
    };
    assert_eq!(tip_post(&mut ctx, 1_000, true), Err(ErrorCode::ConstraintAddress));
    assert_eq!(ctx.author_profile.data.tip_count, 0);

    let mut ctx = TipPost {
        post: Account { key: addr(1), data: new_post(author, 0) },
        author,
        author_profile: profile_account(addr(5)),
        payer: addr(3),
    };
    assert_eq!(tip_post(&mut ctx, 1_000, true), Err(ErrorCode::ConstraintSeeds));
    assert_eq!(ctx.author_profile.data.tip_count, 0);
}

#[test]
fn follow_then_unfollow() {
    let follower = addr(3);
    let target = addr(4);
    let key = key_of(user_follow_address(&follower, &target));
    let mut ctx = FollowUser { user_follow: Account { key, data: None }, follower, target };
    assert_eq!(follow_user(&mut ctx, 99), Ok(()));
    let record = ctx.user_follow.data.clone().unwrap();
    assert_eq!((record.follower, record.target, record.timestamp), (follower, target, 99));

    let before = ctx.clone();
    assert_eq!(follow_user(&mut ctx, 100), Err(ErrorCode::AlreadyFollowing));
    assert_eq!(ctx, before);

    let mut un = UnfollowUser { user_follow: ctx.user_follow.clone(), follower, target };
    assert_eq!(unfollow_user(&mut un), Ok(()));
    assert_eq!(un.user_follow.data, None);
    assert_eq!(unfollow_user(&mut un), Err(ErrorCode::NotFollowing));
    assert_eq!(un.user_follow.data, None);
}

#[test]
fn follow_rejects_misplaced_record() {
    let follower = addr(3);
    let target = addr(4);
    let key = key_of(user_follow_address(&target, &follower));
    let mut ctx = FollowUser { user_follow: Account { key, data: None }, follower, target };
    assert_eq!(follow_user(&mut ctx, 99), Err(ErrorCode::ConstraintSeeds));
    assert_eq!(ctx.user_follow.data, None);
    let mut un = UnfollowUser { user_follow: Account { key, data: None }, follower, target };
    assert_eq!(unfollow_user(&mut un), Err(ErrorCode::ConstraintSeeds));
}

#[test]
fn allocate_on_records_links_tail_page() {
    let mut post = new_post(addr(2), 30);
    let page = CommentPage::allocate(&mut post, addr(1), addr(8)).unwrap();
    assert_eq!(page.page_index, 3);
    assert_eq!(page.post, addr(1));
    assert!(page.comments.is_empty());
    assert_eq!(post.last_comment_page, Some(addr(8)));
    assert_eq!(post.comment_count, 30);

    let mut post = new_post(addr(2), 34);
    assert_eq!(
        CommentPage::allocate(&mut post, addr(1), addr(8)),
        Err(ErrorCode::PageMismatch)
    );
    assert_eq!(post.last_comment_page, None);
}

#[test]
fn init_comment_page_rejects_off_boundary_count() {
    let post_key = addr(1);
    let mut ctx = InitCommentPage {
        post: Account { key: post_key, data: new_post(addr(2), 23) },
        new_page: Account { key: key_of(comment_page_address(&post_key, 2)), data: None },
        author: addr(2),
    };
    let before = ctx.clone();
    assert_eq!(init_comment_page(&mut ctx), Err(ErrorCode::PageMismatch));
    assert_eq!(ctx, before);
}

#[test]
fn post_create_on_records() {
    let mut profile = UserProfile::new(addr(2), 250);
    let post = Post::create(&mut profile, addr(2), 11, String::from("t"), String::from("c"));
    assert_eq!(post.as_ref().map(|p| p.comment_count), Ok(0));
    assert_eq!(post.as_ref().map(|p| p.timestamp), Ok(11));
    assert_eq!(profile.post_count, 1);
    assert_eq!(profile.bump, 250);
    assert_eq!(
        Post::create(&mut profile, addr(2), 11, String::from("t"), "z".repeat(300)),
        Err(ErrorCode::ContentTooLong)
    );
    assert_eq!(profile.post_count, 1);
}

#[test]
fn every_comment_is_found_from_its_global_index() {
    let author = addr(2);
    let post_key = addr(1);
    let mut post = Account { key: post_key, data: new_post(author, 0) };
    let mut pages: Vec<CommentPage> = Vec::new();
    for i in 0..25u64 {
        if i % 10 == 0 {
            let mut init = InitCommentPage {
                post: post.clone(),
                new_page: Account {
                    key: key_of(comment_page_address(&post_key, page_index(i))),
                    data: None,
                },
                author,
            };
            assert_eq!(init_comment_page(&mut init), Ok(()));
            post = init.post;
            pages.push(init.new_page.data.unwrap());
        }
        let k = page_index(i) as usize;
        let mut ctx = AddComment {
            post: post.clone(),
            comment_page: Account {
                key: key_of(comment_page_address(&post_key, page_index(i))),
                data: pages[k].clone(),
            },
            author,
        };
        assert_eq!(add_comment(&mut ctx, i as i64, format!("#{}", i), NO_PARENT), Ok(()));
        post = ctx.post;
        pages[k] = ctx.comment_page.data;
    }
    assert_eq!(post.data.comment_count, 25);
    assert_eq!(pages.len(), 3);
    assert_eq!(pages[0].comments.len(), 10);
    assert_eq!(pages[1].comments.len(), 10);
    assert_eq!(pages[2].comments.len(), 5);
    for i in 0..25u64 {
        let page = &pages[page_index(i) as usize];
        assert_eq!(page.page_index, i / 10);
        assert_eq!(page.comments[offset(i)].content, format!("#{}", i));
        assert_eq!(page.comments[offset(i)].timestamp, i as i64);
        assert_eq!(find_comment(&pages, i), Some(&page.comments[offset(i)]));
    }
    assert_eq!(find_comment(&pages, 25), None);
    assert_eq!(find_comment(&pages, 30), None);
    assert_eq!(find_comment(&pages, u64::MAX), None);

    let mut like = LikeComment {
        post: post.clone(),
        comment_page: Account {
            key: key_of(comment_page_address(&post_key, 1)),
            data: pages[1].clone(),
        },
        user_comment_likes: Account {
            key: key_of(user_comment_likes_address(&addr(3), &post_key)),
            data: None,
        },
        user: addr(3),
    };
    assert_eq!(like_comment(&mut like, 17), Ok(()));
    for i in 10..20u64 {
        let c = &like.comment_page.data.comments[offset(i)];
        assert_eq!(c.content, format!("#{}", i));
        assert_eq!(c.like_count, if i == 17 { 1 } else { 0 });
    }
}

#[test]
fn init_comment_page_off_boundary_collides_with_the_open_page() {
    let post_key = addr(1);
    let open = page_with(post_key, 0, 5);
    let mut ctx = InitCommentPage {
        post: Account { key: post_key, data: new_post(addr(2), 5) },
        new_page: Account { key: open.key, data: Some(open.data) },
        author: addr(2),
    };
    let before = ctx.clone();
    assert_eq!(init_comment_page(&mut ctx), Err(ErrorCode::AddressCollision));
    assert_eq!(ctx, before);
}

#[test]
fn tip_transfer_moves_the_amount_from_payer_to_author() {
    let author = addr(2);
    let ctx = TipPost {
        post: Account { key: addr(1), data: new_post(author, 0) },
        author,
        author_profile: profile_account(author),
        payer: addr(3),
    };
    assert_eq!(
        tip_transfer(&ctx, 777),
        Ok(Transfer { from: addr(3), to: author, lamports: 777 })
    );
    let mut wrong = ctx.clone();
    wrong.author = addr(5);
    assert_eq!(tip_transfer(&wrong, 777), Err(ErrorCode::ConstraintAddress));
    let mut misplaced = ctx.clone();
    misplaced.author_profile.key = addr(6);
    assert_eq!(tip_transfer(&misplaced, 777), Err(ErrorCode::ConstraintSeeds));
}

type StoredComment = ([u8; 32], i64, u64, String, u32);
type StoredPage = ([u8; 32], u64, Vec<StoredComment>);

fn stored(page: &CommentPage) -> StoredPage {
    let comments = page
        .comments
        .iter()
        .map(|c| (c.author.bytes, c.timestamp, c.parent_index, c.content.clone(), c.like_count))
        .collect();
    (page.post.bytes, page.page_index, comments)
}

fn restored(page: StoredPage) -> CommentPage {
    let comments = page
        .2
        .into_iter()
        .map(|c| CompactComment {
            author: Address { bytes: c.0 },
            timestamp: c.1,
            parent_index: c.2,
            content: c.3,
            like_count: c.4,
        })
        .collect();
    CommentPage { post: Address { bytes: page.0 }, page_index: page.1, comments }
}

#[test]
fn comment_page_survives_storage_round_trip() {
    let mut page = page_with(addr(1), 7, 3).data;
    page.comments[0].content = String::from("caf\u{e9}");
    page.comments[1].like_count = 41;
    page.comments[2].parent_index = 70;
    page.comments[2].timestamp = -5;

    let bytes = AnchorSerialize::try_to_vec(&stored(&page)).unwrap();
    let contents: usize = page.comments.iter().map(|c| c.content.len()).sum();
    assert_eq!(bytes.len(), 32 + 8 + 4 + 3 * (32 + 8 + 8 + 4 + 4) + contents);
    assert_eq!(&bytes[..32], &[1u8; 32]);
    assert_eq!(&bytes[32..40], &7u64.to_le_bytes());
    assert_eq!(&bytes[40..44], &3u32.to_le_bytes());

    let back = restored(<StoredPage as AnchorDeserialize>::try_from_slice(&bytes).unwrap());
    assert_eq!(back, page);
    assert_eq!(back.page_index, 7);
    assert_eq!(back.comments[1].like_count, 41);
    assert_eq!(back.comments[0].content, "caf\u{e9}");

    let empty = page_with(addr(1), 0, 0).data;
    let bytes = AnchorSerialize::try_to_vec(&stored(&empty)).unwrap();
    let back = restored(<StoredPage as AnchorDeserialize>::try_from_slice(&bytes).unwrap());
    assert_eq!(back, empty);
}

fn sample_page() -> CommentPage {
    let mut page = page_with(addr(1), 7, 3).data;
    page.comments[0].content = String::from("caf\u{e9}");
    page.comments[1].like_count = 41;
    page.comments[2].parent_index = 70;
    page.comments[2].timestamp = -5;
    page
}

#[test]
fn stored_page_reads_back() {
    let page = sample_page();
    assert!(page.is_well_formed());
    let bytes = to_bytes(&page);
    assert_eq!(from_bytes(&bytes), Some(page.clone()));

    let mut buffer = bytes.clone();
    buffer.resize(1692, 0);
    let back = from_bytes(&buffer).unwrap();
    assert_eq!(back, page);
    assert_eq!(back.page_index, 7);
    assert_eq!(back.comments[1].like_count, 41);
    assert_eq!(back.comments[2].timestamp, -5);

    let mut full = page_with(addr(4), u64::MAX, 10).data;
    for c in full.comments.iter_mut() {
        c.content = "z".repeat(100);
        c.like_count = u32::MAX;
        c.timestamp = i64::MIN;
    }
    assert_eq!(from_bytes(&to_bytes(&full)), Some(full));
    let empty = page_with(addr(1), 0, 0).data;
    assert_eq!(to_bytes(&empty).len(), 44);
    assert_eq!(from_bytes(&to_bytes(&empty)), Some(empty));
}

#[test]
fn stored_form_is_the_layout_of_the_fields() {
    let page = sample_page();
    let bytes = to_bytes(&page);
    assert_eq!(bytes, AnchorSerialize::try_to_vec(&stored(&page)).unwrap());
    assert_eq!(&bytes[..32], &[1u8; 32]);
    assert_eq!(&bytes[32..40], &[7, 0, 0, 0, 0, 0, 0, 0]);
    assert_eq!(&bytes[40..44], &[3, 0, 0, 0]);
    assert_eq!(&bytes[44..76], &[9u8; 32]);
    assert_eq!(&bytes[76..84], &7i64.to_le_bytes());
    assert_eq!(&bytes[84..92], &u64::MAX.to_le_bytes());
    assert_eq!(&bytes[92..96], &[5, 0, 0, 0]);
    assert_eq!(&bytes[96..101], "caf\u{e9}".as_bytes());
    assert_eq!(&bytes[101..105], &[0, 0, 0, 0]);
}

#[test]
fn zeroed_buffer_reads_as_empty_page() {
    let page = from_bytes(&[0u8; 1692]).unwrap();
    assert_eq!(page.post, addr(0));
    assert_eq!(page.page_index, 0);
    assert!(page.comments.is_empty());
}

#[test]
fn from_bytes_rejects_what_is_no_page() {
    let bytes = to_bytes(&sample_page());
    assert_eq!(from_bytes(&bytes[..43]), None);
    assert_eq!(from_bytes(&bytes[..bytes.len() - 1]), None);
    assert_eq!(from_bytes(&[]), None);

    let mut crowded = bytes.clone();
    crowded[40] = 11;
    crowded.resize(4000, 0);
    assert_eq!(from_bytes(&crowded), None);

    let mut long = bytes.clone();
    long[92] = 101;
    long.resize(4000, 0);
    assert_eq!(from_bytes(&long), None);

    let mut garbled = bytes.clone();
    garbled[96] = 0xff;
    assert_eq!(from_bytes(&garbled), None);
}

#[test]
fn well_formedness_is_decided() {
    assert!(page_with(addr(1), 0, 10).data.is_well_formed());
    assert!(!page_with(addr(1), 0, 11).data.is_well_formed());
    let mut page = page_with(addr(1), 0, 2).data;
    page.comments[1].content = "q".repeat(101);
    assert!(!page.is_well_formed());
    page.comments[1].content = "q".repeat(100);
    assert!(page.is_well_formed());
}
