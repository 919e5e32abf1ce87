//! Sort orders: how the post vocabulary maps onto the comment
//! vocabulary, and the numbering that pagination cursors use.

use vstd::prelude::*;
use crate::types::{CommentSortType, SortType};

verus! {

/// The comment sort order that stands for a post sort order when one sort
/// selection is applied to both kinds of content.
///
/// Orders by activity map to `Hot`, orders by recency to `New`, every `Top`
/// window to `Top`; `Old` and `Controversial` exist in both vocabularies.
pub open spec fn comment_sort_for(sort: SortType) -> CommentSortType {
    match sort {
        SortType::Active | SortType::Hot | SortType::Scaled => CommentSortType::Hot,
        SortType::New | SortType::NewComments | SortType::MostComments => CommentSortType::New,
        SortType::Old => CommentSortType::Old,
        SortType::Controversial => CommentSortType::Controversial,
        _ => CommentSortType::Top,
    }
}

/// Maps a post sort order onto the comment sort order used beside it.
pub fn post_to_comment_sort_type(sort: SortType) -> (comment_sort: CommentSortType)
    ensures
        comment_sort == comment_sort_for(sort),
{
    match sort {
        SortType::Active | SortType::Hot | SortType::Scaled => CommentSortType::Hot,
        SortType::New | SortType::NewComments | SortType::MostComments => CommentSortType::New,
        SortType::Old => CommentSortType::Old,
        SortType::Controversial => CommentSortType::Controversial,
        SortType::TopHour
        | SortType::TopSixHour
        | SortType::TopTwelveHour
        | SortType::TopDay
        | SortType::TopWeek
        | SortType::TopMonth
        | SortType::TopThreeMonths
        | SortType::TopSixMonths
        | SortType::TopNineMonths
        | SortType::TopYear
        | SortType::TopAll => CommentSortType::Top,
    }
}

/// The sort order of a post listing that names none.
pub open spec fn default_post_sort() -> SortType {
    SortType::Hot
}

/// The sort order a post listing runs under: the requested one, or `Hot`.
pub open spec fn effective_sort_of(requested: Option<SortType>) -> SortType {
    match requested {
        Some(sort) => sort,
        None => default_post_sort(),
    }
}

/// Resolves the sort order a post listing runs under.
pub fn effective_sort(requested: Option<SortType>) -> (sort: SortType)
    ensures
        sort == effective_sort_of(requested),
{
    match requested {
        Some(sort) => sort,
        None => SortType::Hot,
    }
}

/// Number of post sort orders; every sort code is below it.
pub const SORT_CODES: u8 = 19;

/// The number under which a sort order is written into a cursor.
pub open spec fn sort_code_of(sort: SortType) -> u8 {
    match sort {
        SortType::Active => 0,
        SortType::Hot => 1,
        SortType::New => 2,
        SortType::Old => 3,
        SortType::TopDay => 4,
        SortType::TopWeek => 5,
        SortType::TopMonth => 6,
        SortType::TopYear => 7,
        SortType::TopAll => 8,
        SortType::MostComments => 9,
        SortType::NewComments => 10,
        SortType::TopHour => 11,
        SortType::TopSixHour => 12,
        SortType::TopTwelveHour => 13,
        SortType::TopThreeMonths => 14,
        SortType::TopSixMonths => 15,
        SortType::TopNineMonths => 16,
        SortType::Controversial => 17,
        SortType::Scaled => 18,
    }
}

/// The code of a sort order: distinct orders have distinct codes.
pub fn sort_code(sort: SortType) -> (code: u8)
    ensures
        code == sort_code_of(sort),
        code < SORT_CODES,
{
    match sort {
        SortType::Active => 0,
        SortType::Hot => 1,
        SortType::New => 2,
        SortType::Old => 3,
        SortType::TopDay => 4,
        SortType::TopWeek => 5,
        SortType::TopMonth => 6,
        SortType::TopYear => 7,
        SortType::TopAll => 8,
        SortType::MostComments => 9,
        SortType::NewComments => 10,
        SortType::TopHour => 11,
        SortType::TopSixHour => 12,
        SortType::TopTwelveHour => 13,
        SortType::TopThreeMonths => 14,
        SortType::TopSixMonths => 15,
        SortType::TopNineMonths => 16,
        SortType::Controversial => 17,
        SortType::Scaled => 18,
    }
}

/// The sort order that carries `code`, if any does.
pub fn sort_from_code(code: u8) -> (sort: Option<SortType>)
    ensures
        sort is Some <==> code < SORT_CODES,
        sort matches Some(s) ==> sort_code_of(s) == code,
{
    match code {
        0 => Some(SortType::Active),
        1 => Some(SortType::Hot),
        2 => Some(SortType::New),
        3 => Some(SortType::Old),
        4 => Some(SortType::TopDay),
        5 => Some(SortType::TopWeek),
        6 => Some(SortType::TopMonth),
        7 => Some(SortType::TopYear),
        8 => Some(SortType::TopAll),
        9 => Some(SortType::MostComments),
        10 => Some(SortType::NewComments),
        11 => Some(SortType::TopHour),
        12 => Some(SortType::TopSixHour),
        13 => Some(SortType::TopTwelveHour),
        14 => Some(SortType::TopThreeMonths),
        15 => Some(SortType::TopSixMonths),
        16 => Some(SortType::TopNineMonths),
        17 => Some(SortType::Controversial),
        18 => Some(SortType::Scaled),
        _ => None,
    }
}

/// Sort codes identify sort orders: equal codes mean equal orders, and
/// every code is below `SORT_CODES`.
pub proof fn lemma_sort_code_injective(a: SortType, b: SortType)
    ensures
        sort_code_of(a) < SORT_CODES,
        sort_code_of(a) == sort_code_of(b) ==> a == b,
{
}

} // verus!
