//! What a continuation asks of the store, and why following continuations
//! walks a listing from its first item to its last without gap or
//! repetition.
//!
//! The store is not part of this crate. `page_following` states what it
//! owes for the `page_after` and `limit` of a query, over the whole listing
//! in the order of that query; the laws below hold of every store that
//! answers so.

use vstd::prelude::*;
use crate::cursor::{decoded_cursor, key_of_item, lemma_decode_encode, SortKey};
use crate::listing::page_of;
use crate::types::{ListedItem, ListingError, SortType};

verus! {

/// The item that stands at a position.
pub open spec fn item_at(key: SortKey) -> ListedItem {
    ListedItem { id: key.id, rank: key.rank }
}

/// The end of the page of at most `limit` items that starts at `start` in
/// a listing of `len` items.
pub open spec fn page_end(start: int, limit: nat, len: nat) -> int {
    if start + limit <= len {
        start + limit
    } else {
        len as int
    }
}

/// The page that is owed for `after` and `limit` when the whole listing is
/// `listing`: the first `limit` items where no position is given, and the
/// `limit` items that follow the item at `after` where one is. The page is
/// shorter where the listing ends.
pub open spec fn page_following(listing: Seq<ListedItem>, after: Option<SortKey>, limit: nat) -> Seq<
    ListedItem,
> {
    let start = match after {
        None => 0,
        Some(key) => listing.index_of(item_at(key)) + 1,
    };
    listing.subrange(start, page_end(start, limit, listing.len()))
}

/// The position after which the page that starts at index `start` begins:
/// none for the first page, else that of the item before `start`.
pub open spec fn position_before(listing: Seq<ListedItem>, sort: SortType, start: int) -> Option<
    SortKey,
> {
    if start <= 0 {
        None
    } else {
        Some(key_of_item(listing[start - 1], sort))
    }
}

/// The items seen by a caller who asks for the page after `after` and then
/// follows the continuation of each page to the next, for at most `pages`
/// pages.
pub open spec fn pages_followed(
    listing: Seq<ListedItem>,
    sort: SortType,
    after: Option<SortKey>,
    limit: nat,
    pages: nat,
) -> Seq<ListedItem>
    decreases pages,
{
    if pages == 0 {
        Seq::empty()
    } else {
        let page = page_following(listing, after, limit);
        match page_of(page, sort).next_page {
            None => page,
            Some(token) => match decoded_cursor(token, sort) {
                Ok(key) => page + pages_followed(listing, sort, Some(key), limit, (pages - 1) as nat),
                Err(_) => page,
            },
        }
    }
}

/// In a listing without repetition, the page owed after the item before
/// index `start` is the stretch of the listing that starts at `start`.
pub proof fn lemma_page_following(listing: Seq<ListedItem>, sort: SortType, start: int, limit: nat)
    requires
        listing.no_duplicates(),
        0 <= start <= listing.len(),
    ensures
        page_following(listing, position_before(listing, sort, start), limit) == listing.subrange(
            start,
            page_end(start, limit, listing.len()),
        ),
{
    if start > 0 {
        let item = listing[start - 1];
        assert(item_at(key_of_item(item, sort)) == item);
        let found = listing.index_of(item);
        assert(0 <= found < listing.len() && listing[found] == item);
        assert(found == start - 1);
    }
}

/// The page that follows a page: where a page is the stretch of a listing
/// between two indices and holds an item, its continuation decodes, under
/// the sort order of the listing, to the position of its last item, and
/// the page owed after that position starts where this page ended. The two
/// pages share no item, and between them no item of the listing is left
/// out.
pub proof fn law_next_page_is_contiguous(
    listing: Seq<ListedItem>,
    sort: SortType,
    start: int,
    limit: nat,
    token: Seq<u8>,
)
    requires
        listing.no_duplicates(),
        0 <= start <= listing.len(),
        page_of(listing.subrange(start, page_end(start, limit, listing.len())), sort).next_page
            == Some(token),
    ensures
        start < page_end(start, limit, listing.len()),
        decoded_cursor(token, sort) == Ok::<SortKey, ListingError>(
            key_of_item(listing[page_end(start, limit, listing.len()) - 1], sort),
        ),
        page_following(
            listing,
            Some(key_of_item(listing[page_end(start, limit, listing.len()) - 1], sort)),
            limit,
        ) == listing.subrange(
            page_end(start, limit, listing.len()),
            page_end(page_end(start, limit, listing.len()), limit, listing.len()),
        ),
        listing.subrange(start, page_end(start, limit, listing.len())).disjoint(
            listing.subrange(
                page_end(start, limit, listing.len()),
                page_end(page_end(start, limit, listing.len()), limit, listing.len()),
            ),
        ),
        listing.subrange(start, page_end(start, limit, listing.len())) + listing.subrange(
            page_end(start, limit, listing.len()),
            page_end(page_end(start, limit, listing.len()), limit, listing.len()),
        ) == listing.subrange(
            start,
            page_end(page_end(start, limit, listing.len()), limit, listing.len()),
        ),
{
    let end = page_end(start, limit, listing.len());
    let page = listing.subrange(start, end);
    assert(page.last() == listing[end - 1]);
    lemma_decode_encode(key_of_item(listing[end - 1], sort));
    lemma_page_following(listing, sort, end, limit);
}

/// Following continuations from the page that starts at index `start`
/// shows the stretch of the listing from `start` on, `limit` items per
/// page, each item once and in order.
pub proof fn lemma_pages_followed_from(
    listing: Seq<ListedItem>,
    sort: SortType,
    start: int,
    limit: nat,
    pages: nat,
)
    requires
        listing.no_duplicates(),
        0 <= start <= listing.len(),
    ensures
        pages_followed(listing, sort, position_before(listing, sort, start), limit, pages)
            == listing.subrange(start, page_end(start, pages * limit, listing.len())),
    decreases pages,
{
    let after = position_before(listing, sort, start);
    let len = listing.len();
    if pages == 0 {
        assert(pages * limit == 0) by (nonlinear_arith)
            requires
                pages == 0,
        ;
        assert(listing.subrange(start, start) =~= Seq::<ListedItem>::empty());
    } else {
        let end = page_end(start, limit, len);
        let page = page_following(listing, after, limit);
        lemma_page_following(listing, sort, start, limit);
        assert(pages * limit == (pages - 1) * limit + limit && (pages - 1) * limit >= 0)
            by (nonlinear_arith)
            requires
                pages >= 1,
        ;
        if end == start {
            assert(page.len() == 0);
            assert(page_end(start, pages * limit, len) == start) by {
                if limit == 0 {
                    assert(pages * limit == 0) by (nonlinear_arith)
                        requires
                            limit == 0,
                    ;
                }
            }
            assert(listing.subrange(start, start) =~= page);
        } else {
            let last = key_of_item(listing[end - 1], sort);
            assert(page.last() == listing[end - 1]);
            lemma_decode_encode(last);
            assert(position_before(listing, sort, end) == Some(last));
            lemma_pages_followed_from(listing, sort, end, limit, (pages - 1) as nat);
            let rest = pages_followed(listing, sort, Some(last), limit, (pages - 1) as nat);
            let stop = page_end(end, ((pages - 1) * limit) as nat, len);
            assert(rest == listing.subrange(end, stop));
            assert(stop == page_end(start, pages * limit, len));
            assert(page + rest =~= listing.subrange(start, stop));
        }
    }
}

/// Pagination walks the listing: in a listing without repetition, a caller
/// who starts without cursor and follows the continuation of each page to
/// the next has seen, after `pages` pages of `limit` items, the first
/// `pages * limit` items of the listing, or all of it where it is shorter:
/// every item once, in order, none left out.
pub proof fn law_pages_walk_the_listing(
    listing: Seq<ListedItem>,
    sort: SortType,
    limit: nat,
    pages: nat,
)
    requires
        listing.no_duplicates(),
    ensures
        pages_followed(listing, sort, None, limit, pages) == listing.subrange(
            0,
            page_end(0, pages * limit, listing.len()),
        ),
{
    lemma_pages_followed_from(listing, sort, 0, limit, pages);
}

} // verus!
