use listing_gateway::cursor::{PaginationCursor, SortKey};
use listing_gateway::types::{ListedItem, ListingError, SortType};

#[test]
fn token_of_a_position_is_spelled_in_fixed_fields() {
    let key = SortKey { sort: SortType::New, rank: 5, id: 42 };
    let cursor = PaginationCursor::encode(&key);
    assert_eq!(cursor.0, b"P0280000000000000058000002a".to_vec());
}

#[test]
fn negative_rank_and_id_round_trip() {
    let key = SortKey { sort: SortType::TopAll, rank: -7, id: -1 };
    let cursor = PaginationCursor::encode(&key);
    assert_eq!(cursor.0, b"P087ffffffffffffff97fffffff".to_vec());
    assert_eq!(cursor.decode(SortType::TopAll), Ok(key));
}

#[test]
fn cursor_after_post_stands_for_the_item() {
    let item = ListedItem { id: 9, rank: 1_700_000_000 };
    let cursor = PaginationCursor::after_post(&item, SortType::Hot);
    assert_eq!(
        cursor.decode(SortType::Hot),
        Ok(SortKey { sort: SortType::Hot, rank: 1_700_000_000, id: 9 })
    );
}

#[test]
fn cursor_of_another_sort_order_is_invalid() {
    let key = SortKey { sort: SortType::New, rank: 5, id: 42 };
    let cursor = PaginationCursor::encode(&key);
    assert_eq!(cursor.decode(SortType::Old), Err(ListingError::InvalidCursor));
    assert_eq!(cursor.key(), Some(key));
}

#[test]
fn extreme_positions_round_trip() {
    let low = SortKey { sort: SortType::Active, rank: i64::MIN, id: i32::MIN };
    let high = SortKey { sort: SortType::Scaled, rank: i64::MAX, id: i32::MAX };
    let low_cursor = PaginationCursor::encode(&low);
    let high_cursor = PaginationCursor::encode(&high);
    assert_eq!(low_cursor.0, b"P00000000000000000000000000".to_vec());
    assert_eq!(high_cursor.0, b"P12ffffffffffffffffffffffff".to_vec());
    assert_eq!(low_cursor.decode(SortType::Active), Ok(low));
    assert_eq!(high_cursor.decode(SortType::Scaled), Ok(high));
}

#[test]
fn every_sort_order_round_trips_and_refuses_the_others() {
    let sorts = all_sorts();
    for made_under in sorts.iter() {
        let key = SortKey { sort: *made_under, rank: -3, id: 17 };
        let cursor = PaginationCursor::encode(&key);
        assert_eq!(cursor.0.len(), 27);
        for expected in sorts.iter() {
            if expected == made_under {
                assert_eq!(cursor.decode(*expected), Ok(key));
            } else {
                assert_eq!(cursor.decode(*expected), Err(ListingError::InvalidCursor));
            }
        }
    }
}

#[test]
fn malformed_tokens_are_invalid_cursors() {
    let malformed: Vec<&[u8]> = vec![
        b"",
        b"P",
        b"P1f",
        b"P0280000000000000058000002",
        b"P0280000000000000058000002a0",
        b"Q0280000000000000058000002a",
        b"p0280000000000000058000002a",
        b"P0280000000000000058000002A",
        b"P02800000000000000g8000002a",
        b"P0 80000000000000058000002a",
        b"P02-0000000000000058000002a",
        b"P1380000000000000058000002a",
        b"Pff80000000000000058000002a",
    ];
    for token in malformed {
        let cursor = PaginationCursor(token.to_vec());
        assert_eq!(cursor.key(), None);
        for sort in all_sorts() {
            assert_eq!(cursor.decode(sort), Err(ListingError::InvalidCursor));
        }
    }
}

#[test]
fn equal_ranks_are_told_apart_by_id() {
    let first = PaginationCursor::after_post(&ListedItem { id: 1, rank: 10 }, SortType::TopDay);
    let second = PaginationCursor::after_post(&ListedItem { id: 2, rank: 10 }, SortType::TopDay);
    assert_ne!(first, second);
    assert_eq!(first.decode(SortType::TopDay).map(|key| key.id), Ok(1));
    assert_eq!(second.decode(SortType::TopDay).map(|key| key.id), Ok(2));
}

fn all_sorts() -> Vec<SortType> {
    vec![
        SortType::Active,
        SortType::Hot,
        SortType::New,
        SortType::Old,
        SortType::TopDay,
        SortType::TopWeek,
        SortType::TopMonth,
        SortType::TopYear,
        SortType::TopAll,
        SortType::MostComments,
        SortType::NewComments,
        SortType::TopHour,
        SortType::TopSixHour,
        SortType::TopTwelveHour,
        SortType::TopThreeMonths,
        SortType::TopSixMonths,
        SortType::TopNineMonths,
        SortType::Controversial,
        SortType::Scaled,
    ]
}
