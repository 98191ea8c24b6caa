//! The stored form of a comment page: the page's fields one after the other,
//! integers little-endian, a sequence or a string behind its length as four
//! bytes. A record's buffer may be longer than what is stored in it; reading
//! takes what it needs from the front.

use vstd::prelude::*;
use vstd::bytes::*;
use vstd::slice::*;
use vstd::string::*;
use vstd::utf8::*;
use crate::address::Address;
use crate::records::{CommentPage, CompactComment};

verus! {

/// A comment as plain values.
pub struct CommentView {
    pub author: Seq<u8>,
    pub timestamp: i64,
    pub parent_index: u64,
    pub content: Seq<char>,
    pub like_count: u32,
}

/// A page as plain values.
pub struct PageView {
    pub post: Seq<u8>,
    pub page_index: u64,
    pub comments: Seq<CommentView>,
}

impl View for CompactComment {
    type V = CommentView;

    open spec fn view(&self) -> CommentView {
        CommentView {
            author: self.author@,
            timestamp: self.timestamp,
            parent_index: self.parent_index,
            content: self.content@,
            like_count: self.like_count,
        }
    }
}

/// The comments of `comments`, each as plain values.
pub open spec fn comment_views(comments: Seq<CompactComment>) -> Seq<CommentView> {
    Seq::new(comments.len(), |i: int| comments[i]@)
}

impl View for CommentPage {
    type V = PageView;

    open spec fn view(&self) -> PageView {
        PageView {
            post: self.post@,
            page_index: self.page_index,
            comments: comment_views(self.comments@),
        }
    }
}

/// The 64 bits of `x` in two's complement.
pub open spec fn bits_of(x: i64) -> u64 {
    if x >= 0 {
        x as u64
    } else {
        (x + 0x1_0000_0000_0000_0000) as u64
    }
}

/// The integer whose 64 bits in two's complement are `u`.
pub open spec fn of_bits(u: u64) -> i64 {
    if u < 0x8000_0000_0000_0000 {
        u as i64
    } else {
        (u - 0x1_0000_0000_0000_0000) as i64
    }
}

/// Whether a comment can be stored: its author is an address and its content
/// fits its slot.
pub open spec fn storable_comment(c: CommentView) -> bool {
    &&& c.author.len() == 32
    &&& encode_utf8(c.content).len() <= 100
}

/// Whether a page can be stored: its post is an address, it holds at most 10
/// comments and each of them can be stored.
pub open spec fn storable(p: PageView) -> bool {
    &&& p.post.len() == 32
    &&& p.comments.len() <= 10
    &&& forall|i: int| 0 <= i < p.comments.len() ==> storable_comment(#[trigger] p.comments[i])
}

/// The stored form of a comment.
pub open spec fn comment_bytes(c: CommentView) -> Seq<u8> {
    c.author + spec_u64_to_le_bytes(bits_of(c.timestamp)) + spec_u64_to_le_bytes(c.parent_index)
        + spec_u32_to_le_bytes(encode_utf8(c.content).len() as u32) + encode_utf8(c.content)
        + spec_u32_to_le_bytes(c.like_count)
}

/// The stored forms of `comments`, one after the other.
pub open spec fn comments_bytes(comments: Seq<CommentView>) -> Seq<u8>
    decreases comments.len(),
{
    if comments.len() == 0 {
        Seq::empty()
    } else {
        comment_bytes(comments[0]) + comments_bytes(comments.drop_first())
    }
}

/// The stored form of a page.
pub open spec fn page_bytes(p: PageView) -> Seq<u8> {
    p.post + spec_u64_to_le_bytes(p.page_index) + spec_u32_to_le_bytes(p.comments.len() as u32)
        + comments_bytes(p.comments)
}

/// The comment stored in `s` from position `at` on, and where it ends;
/// `None` where `s` ends before the comment does, the content is longer than
/// 100 bytes or it is not UTF-8.
pub open spec fn parse_comment(s: Seq<u8>, at: int) -> Option<(CommentView, int)> {
    if at + 52 > s.len() {
        None
    } else {
        let n = spec_u32_from_le_bytes(s.subrange(at + 48, at + 52)) as int;
        if n > 100 || at + 56 + n > s.len() || !valid_utf8(s.subrange(at + 52, at + 52 + n)) {
            None
        } else {
            Some(
                (
                    CommentView {
                        author: s.subrange(at, at + 32),
                        timestamp: of_bits(spec_u64_from_le_bytes(s.subrange(at + 32, at + 40))),
                        parent_index: spec_u64_from_le_bytes(s.subrange(at + 40, at + 48)),
                        content: decode_utf8(s.subrange(at + 52, at + 52 + n)),
                        like_count: spec_u32_from_le_bytes(
                            s.subrange(at + 52 + n, at + 56 + n),
                        ),
                    },
                    at + 56 + n,
                ),
            )
        }
    }
}

/// The `n` comments stored in `s` from position `at` on, and where they end.
pub open spec fn parse_comments(s: Seq<u8>, at: int, n: nat) -> Option<(Seq<CommentView>, int)>
    decreases n,
{
    if n == 0 {
        Some((Seq::empty(), at))
    } else {
        match parse_comment(s, at) {
            None => None,
            Some((c, next)) => match parse_comments(s, next, (n - 1) as nat) {
                None => None,
                Some((rest, end)) => Some((seq![c] + rest, end)),
            },
        }
    }
}

/// The page stored at the front of `s`; `None` where `s` ends before the
/// page does, the page claims more than 10 comments or one of them cannot be
/// read.
pub open spec fn parse_page(s: Seq<u8>) -> Option<PageView> {
    if s.len() < 44 || spec_u32_from_le_bytes(s.subrange(40, 44)) > 10 {
        None
    } else {
        match parse_comments(s, 44, spec_u32_from_le_bytes(s.subrange(40, 44)) as nat) {
            None => None,
            Some((comments, end)) => Some(
                PageView {
                    post: s.subrange(0, 32),
                    page_index: spec_u64_from_le_bytes(s.subrange(32, 40)),
                    comments,
                },
            ),
        }
    }
}

proof fn lemma_bits_round_trip(x: i64)
    ensures
        of_bits(bits_of(x)) == x,
{
}

/// A stored comment is read back as it was, wherever it stands.
pub proof fn lemma_comment_round_trip(c: CommentView, before: Seq<u8>, after: Seq<u8>)
    requires
        storable_comment(c),
    ensures
        parse_comment(before + comment_bytes(c) + after, before.len() as int) == Some(
            (c, (before.len() + comment_bytes(c).len()) as int),
        ),
{
    lemma_auto_spec_u64_to_from_le_bytes();
    lemma_auto_spec_u32_to_from_le_bytes();
    encode_utf8_valid_utf8(c.content);
    encode_utf8_decode_utf8(c.content);
    lemma_bits_round_trip(c.timestamp);
    let s = before + comment_bytes(c) + after;
    let at = before.len() as int;
    let text = encode_utf8(c.content);
    let n = text.len() as int;
    assert(s.subrange(at, at + 32) =~= c.author);
    assert(s.subrange(at + 32, at + 40) =~= spec_u64_to_le_bytes(bits_of(c.timestamp)));
    assert(s.subrange(at + 40, at + 48) =~= spec_u64_to_le_bytes(c.parent_index));
    assert(s.subrange(at + 48, at + 52) =~= spec_u32_to_le_bytes(n as u32));
    assert(s.subrange(at + 52, at + 52 + n) =~= text);
    assert(s.subrange(at + 52 + n, at + 56 + n) =~= spec_u32_to_le_bytes(c.like_count));
}

/// Stored comments are read back as they were, in their order.
pub proof fn lemma_comments_round_trip(comments: Seq<CommentView>, before: Seq<u8>, after: Seq<u8>)
    requires
        forall|i: int| 0 <= i < comments.len() ==> storable_comment(#[trigger] comments[i]),
    ensures
        parse_comments(before + comments_bytes(comments) + after, before.len() as int, comments.len())
            == Some((comments, (before.len() + comments_bytes(comments).len()) as int)),
    decreases comments.len(),
{
    let s = before + comments_bytes(comments) + after;
    if comments.len() == 0 {
        assert(comments =~= Seq::empty());
    } else {
        let first = comment_bytes(comments[0]);
        let tail = comments.drop_first();
        lemma_comment_round_trip(comments[0], before, comments_bytes(tail) + after);
        assert(s =~= before + first + (comments_bytes(tail) + after));
        lemma_comments_round_trip(tail, before + first, after);
        assert(s =~= (before + first) + comments_bytes(tail) + after);
        assert(seq![comments[0]] + tail =~= comments);
    }
}

/// Storing a page and reading it back gives the page: its index and its
/// comments, each with its like count, in their order. What follows the
/// stored page in the buffer does not matter.
pub proof fn lemma_page_round_trip(p: PageView, after: Seq<u8>)
    requires
        storable(p),
    ensures
        parse_page(page_bytes(p) + after) == Some(p),
{
    lemma_auto_spec_u64_to_from_le_bytes();
    lemma_auto_spec_u32_to_from_le_bytes();
    let s = page_bytes(p) + after;
    let head = p.post + spec_u64_to_le_bytes(p.page_index) + spec_u32_to_le_bytes(
        p.comments.len() as u32,
    );
    assert(s =~= head + comments_bytes(p.comments) + after);
    assert(s.subrange(0, 32) =~= p.post);
    assert(s.subrange(32, 40) =~= spec_u64_to_le_bytes(p.page_index));
    assert(s.subrange(40, 44) =~= spec_u32_to_le_bytes(p.comments.len() as u32));
    lemma_comments_round_trip(p.comments, head, after);
}

/// `CommentPage::well_formed` is what it takes for a page to be stored.
pub proof fn lemma_well_formed_is_storable(page: CommentPage)
    ensures
        page.well_formed() <==> storable(page@),
{
    if page.well_formed() {
        assert forall|i: int| 0 <= i < page@.comments.len() implies storable_comment(
            #[trigger] page@.comments[i],
        ) by {
            assert(page.comments@[i].well_formed());
        }
    }
    if storable(page@) {
        assert forall|i: int| 0 <= i < page.comments@.len() implies (
        #[trigger] page.comments@[i]).well_formed() by {
            assert(storable_comment(page@.comments[i]));
        }
    }
}

/// Storing a well-formed page and reading it back gives the page: the same
/// post, page index and comments, each with its like count, in their order.
pub proof fn lemma_stored_page_reads_back(page: CommentPage, after: Seq<u8>)
    requires
        page.well_formed(),
    ensures
        parse_page(page_bytes(page@) + after) == Some(page@),
{
    lemma_well_formed_is_storable(page);
    lemma_page_round_trip(page@, after);
}

proof fn lemma_comments_bytes_push(comments: Seq<CommentView>, c: CommentView)
    ensures
        comments_bytes(comments.push(c)) == comments_bytes(comments) + comment_bytes(c),
    decreases comments.len(),
{
    if comments.len() == 0 {
        assert(comments.push(c).drop_first() =~= Seq::empty());
        assert(comments_bytes(comments.push(c).drop_first()) =~= Seq::empty());
        assert(comments.push(c)[0] == c);
        assert(comments_bytes(comments.push(c)) =~= comment_bytes(c));
        assert(comments_bytes(comments) + comment_bytes(c) =~= comment_bytes(c));
    } else {
        assert(comments.push(c).drop_first() =~= comments.drop_first().push(c));
        lemma_comments_bytes_push(comments.drop_first(), c);
        assert(comments_bytes(comments.push(c)) =~= comments_bytes(comments) + comment_bytes(c));
    }
}

/// Calls `String::from_utf8`. Nothing is proved of it; the contract claims
/// what its documentation says: bytes that are UTF-8 are accepted, and the
/// string that comes back consists of exactly the bytes handed in.
#[verifier::external_body]
fn string_from_utf8(bytes: Vec<u8>) -> (r: Option<String>)
    ensures
        valid_utf8(bytes@) ==> r is Some,
        r matches Some(s) ==> encode_utf8(s@) == bytes@,
{
    String::from_utf8(bytes).ok()
}

fn put(out: &mut Vec<u8>, piece: &[u8])
    ensures
        final(out)@ == old(out)@ + piece@,
{
    let mut i: usize = 0;
    while i < piece.len()
        invariant
            i <= piece@.len(),
            out@ == old(out)@ + piece@.subrange(0, i as int),
        decreases piece@.len() - i,
    {
        out.push(piece[i]);
        proof {
            assert(piece@.subrange(0, i + 1) =~= piece@.subrange(0, i as int).push(piece@[i as int]));
        }
        i = i + 1;
    }
    proof {
        assert(piece@.subrange(0, i as int) =~= piece@);
    }
}

fn to_bits(x: i64) -> (r: u64)
    ensures
        r == bits_of(x),
{
    if x >= 0 {
        x as u64
    } else {
        u64::MAX - ((-(x + 1)) as u64)
    }
}

fn from_bits(u: u64) -> (r: i64)
    ensures
        r == of_bits(u),
{
    if u < 0x8000_0000_0000_0000 {
        u as i64
    } else {
        -((u64::MAX - u) as i64) - 1
    }
}

fn put_comment(out: &mut Vec<u8>, c: &CompactComment)
    requires
        c.well_formed(),
    ensures
        final(out)@ == old(out)@ + comment_bytes(c@),
{
    let text = c.content.as_str().as_bytes();
    put(out, c.author.bytes.as_slice());
    put(out, u64_to_le_bytes(to_bits(c.timestamp)).as_slice());
    put(out, u64_to_le_bytes(c.parent_index).as_slice());
    put(out, u32_to_le_bytes(text.len() as u32).as_slice());
    put(out, text);
    put(out, u32_to_le_bytes(c.like_count).as_slice());
    proof {
        assert(out@ =~= old(out)@ + comment_bytes(c@));
    }
}

/// The stored form of `page`.
pub fn to_bytes(page: &CommentPage) -> (r: Vec<u8>)
    requires
        page.well_formed(),
    ensures
        r@ == page_bytes(page@),
{
    let mut out: Vec<u8> = Vec::new();
    put(&mut out, page.post.bytes.as_slice());
    put(&mut out, u64_to_le_bytes(page.page_index).as_slice());
    put(&mut out, u32_to_le_bytes(page.comments.len() as u32).as_slice());
    let ghost head = out@;
    let mut i: usize = 0;
    proof {
        assert(page@.comments.take(0) =~= Seq::empty());
    }
    while i < page.comments.len()
        invariant
            i <= page.comments@.len(),
            page.well_formed(),
            out@ == head + comments_bytes(page@.comments.take(i as int)),
        decreases page.comments@.len() - i,
    {
        let c = &page.comments[i];
        assert(page.comments@[i as int].well_formed());
        put_comment(&mut out, c);
        proof {
            lemma_comments_bytes_push(page@.comments.take(i as int), c@);
            assert(page@.comments.take(i + 1) =~= page@.comments.take(i as int).push(c@));
        }
        i = i + 1;
    }
    proof {
        assert(page@.comments.take(i as int) =~= page@.comments);
        assert(out@ =~= page_bytes(page@));
    }
    out
}

fn read_u32(bytes: &[u8], at: usize) -> (r: u32)
    requires
        at + 4 <= bytes@.len() <= usize::MAX,
    ensures
        r == spec_u32_from_le_bytes(bytes@.subrange(at as int, at + 4)),
{
    u32_from_le_bytes(slice_subrange(bytes, at, at + 4))
}

fn read_u64(bytes: &[u8], at: usize) -> (r: u64)
    requires
        at + 8 <= bytes@.len() <= usize::MAX,
    ensures
        r == spec_u64_from_le_bytes(bytes@.subrange(at as int, at + 8)),
{
    u64_from_le_bytes(slice_subrange(bytes, at, at + 8))
}

fn read_address(bytes: &[u8], at: usize) -> (r: Address)
    requires
        at + 32 <= bytes@.len() <= usize::MAX,
    ensures
        r@ == bytes@.subrange(at as int, at + 32),
{
    let mut a = [0u8; 32];
    let mut i: usize = 0;
    while i < 32
        invariant
            i <= 32,
            at + 32 <= bytes@.len() <= usize::MAX,
            forall|j: int| 0 <= j < i ==> a@[j] == bytes@[at + j],
        decreases 32 - i,
    {
        a[i] = bytes[at + i];
        i = i + 1;
    }
    let r = Address { bytes: a };
    proof {
        assert(r@ =~= bytes@.subrange(at as int, at + 32));
    }
    r
}

fn read_comment(bytes: &[u8], at: usize) -> (r: Option<(CompactComment, usize)>)
    requires
        at <= bytes@.len(),
    ensures
        match r {
            Some((c, next)) => parse_comment(bytes@, at as int) == Some((c@, next as int))
                && next <= bytes@.len(),
            None => parse_comment(bytes@, at as int) is None,
        },
{
    if bytes.len() - at < 52 {
        return None;
    }
    let n = read_u32(bytes, at + 48);
    if n > 100 || bytes.len() - at - 52 < n as usize + 4 {
        return None;
    }
    let len = n as usize;
    let text = slice_to_vec(slice_subrange(bytes, at + 52, at + 52 + len));
    match string_from_utf8(text) {
        None => None,
        Some(content) => {
            proof {
                encode_utf8_valid_utf8(content@);
                encode_utf8_decode_utf8(content@);
            }
            let c = CompactComment {
                author: read_address(bytes, at),
                timestamp: from_bits(read_u64(bytes, at + 32)),
                parent_index: read_u64(bytes, at + 40),
                content,
                like_count: read_u32(bytes, at + 52 + len),
            };
            Some((c, at + 56 + len))
        },
    }
}

fn read_comments(bytes: &[u8], at: usize, n: u32) -> (r: Option<(Vec<CompactComment>, usize)>)
    requires
        at <= bytes@.len(),
        n <= 10,
    ensures
        match r {
            Some((comments, end)) => parse_comments(bytes@, at as int, n as nat) == Some(
                (comment_views(comments@), end as int),
            ),
            None => parse_comments(bytes@, at as int, n as nat) is None,
        },
    decreases n,
{
    if n == 0 {
        let none: Vec<CompactComment> = Vec::new();
        proof {
            assert(comment_views(none@) =~= Seq::empty());
        }
        return Some((none, at));
    }
    match read_comment(bytes, at) {
        None => None,
        Some((c, next)) => match read_comments(bytes, next, n - 1) {
            None => None,
            Some((rest, end)) => {
                let mut comments = rest;
                let ghost tail = comment_views(comments@);
                comments.insert(0, c);
                proof {
                    assert(comment_views(comments@) =~= seq![c@] + tail);
                }
                Some((comments, end))
            },
        },
    }
}

/// The page stored at the front of `bytes`, where there is one.
pub fn from_bytes(bytes: &[u8]) -> (r: Option<CommentPage>)
    ensures
        match r {
            Some(page) => parse_page(bytes@) == Some(page@),
            None => parse_page(bytes@) is None,
        },
{
    if bytes.len() < 44 {
        return None;
    }
    let n = read_u32(bytes, 40);
    if n > 10 {
        return None;
    }
    match read_comments(bytes, 44, n) {
        None => None,
        Some((comments, _)) => Some(
            CommentPage {
                post: read_address(bytes, 0),
                page_index: read_u64(bytes, 32),
                comments,
            },
        ),
    }
}

} // verus!
