//! Pagination cursors: opaque tokens that stand for the position of the
//! last item of a page under one sort order.
//!
//! A token is 27 ASCII characters: the letter `P`, the sort order as two
//! hexadecimal digits, the value the item is ranked by as sixteen, and the
//! item's id as eight. Rank and id are written with their sign bit flipped,
//! so that a token needs no sign.

use vstd::prelude::*;
use crate::hex::{
    all_hex, hex_fixed, hex_value, lemma_hex_fixed_of_value, lemma_hex_fixed_shape,
    lemma_hex_value_bound, lemma_hex_value_of_fixed, lemma_pow16_values, parse_hex, push_hex,
};
use crate::sort::{lemma_sort_code_injective, sort_code, sort_code_of, sort_from_code};
use crate::types::{ListedItem, ListingError, SortType};

verus! {

/// Position of an item in a listing: the sort order of the listing, the
/// value the item is ranked by under it, and the item's id, which orders
/// items of equal rank.
#[derive(Clone, Copy, Debug, PartialEq, Eq, Structural)]
pub struct SortKey {
    pub sort: SortType,
    pub rank: i64,
    pub id: i32,
}

/// The position of `item` in a listing sorted by `sort`.
pub open spec fn key_of_item(item: ListedItem, sort: SortType) -> SortKey {
    SortKey { sort, rank: item.rank, id: item.id }
}

impl SortKey {
    /// The position of `item` in a listing sorted by `sort`.
    pub fn of_item(item: &ListedItem, sort: SortType) -> (key: SortKey)
        ensures
            key == key_of_item(*item, sort),
    {
        SortKey { sort, rank: item.rank, id: item.id }
    }
}

/// An opaque continuation token, as it travels in requests and responses.
#[derive(Clone, Debug, PartialEq, Eq)]
pub struct PaginationCursor(pub Vec<u8>);

impl View for PaginationCursor {
    type V = Seq<u8>;

    open spec fn view(&self) -> Seq<u8> {
        self.0@
    }
}

/// Length of every token.
pub const CURSOR_LEN: usize = 27;

/// The token that stands for `key`.
pub open spec fn cursor_token(key: SortKey) -> Seq<u8> {
    seq![0x50u8] + hex_fixed(sort_code_of(key.sort) as nat, 2) + hex_fixed(
        (key.rank + 0x8000_0000_0000_0000) as nat,
        16,
    ) + hex_fixed((key.id + 0x8000_0000) as nat, 8)
}

/// The position that `token` stands for, if it is the token of any.
pub open spec fn token_key(token: Seq<u8>) -> Option<SortKey> {
    if exists|key: SortKey| cursor_token(key) == token {
        Some(choose|key: SortKey| cursor_token(key) == token)
    } else {
        None
    }
}

/// What decoding `token` for a listing sorted by `expected` yields: the
/// position the token stands for, provided it was made under that very sort
/// order; `InvalidCursor` for every other sequence of bytes.
pub open spec fn decoded_cursor(token: Seq<u8>, expected: SortType) -> Result<SortKey, ListingError> {
    match token_key(token) {
        Some(key) if key.sort == expected => Ok(key),
        _ => Err(ListingError::InvalidCursor),
    }
}

/// The parts of a token: its length, its first letter and its three fields.
pub proof fn lemma_token_fields(key: SortKey)
    ensures
        cursor_token(key).len() == CURSOR_LEN,
        cursor_token(key)[0] == 0x50u8,
        cursor_token(key).subrange(1, 3) == hex_fixed(sort_code_of(key.sort) as nat, 2),
        cursor_token(key).subrange(3, 19) == hex_fixed(
            (key.rank + 0x8000_0000_0000_0000) as nat,
            16,
        ),
        cursor_token(key).subrange(19, 27) == hex_fixed((key.id + 0x8000_0000) as nat, 8),
{
    let a = hex_fixed(sort_code_of(key.sort) as nat, 2);
    let b = hex_fixed((key.rank + 0x8000_0000_0000_0000) as nat, 16);
    let c = hex_fixed((key.id + 0x8000_0000) as nat, 8);
    lemma_hex_fixed_shape(sort_code_of(key.sort) as nat, 2);
    lemma_hex_fixed_shape((key.id + 0x8000_0000) as nat, 8);
    lemma_hex_fixed_shape((key.rank + 0x8000_0000_0000_0000) as nat, 16);
    let t = cursor_token(key);
    assert(t.subrange(1, 3) =~= a);
    assert(t.subrange(3, 19) =~= b);
    assert(t.subrange(19, 27) =~= c);
}

/// The numbers that the three fields of a token read as.
pub proof fn lemma_token_values(key: SortKey)
    ensures
        hex_value(cursor_token(key).subrange(1, 3)) == sort_code_of(key.sort),
        hex_value(cursor_token(key).subrange(3, 19)) == key.rank + 0x8000_0000_0000_0000,
        hex_value(cursor_token(key).subrange(19, 27)) == key.id + 0x8000_0000,
        all_hex(cursor_token(key).subrange(1, 3)),
        all_hex(cursor_token(key).subrange(3, 19)),
        all_hex(cursor_token(key).subrange(19, 27)),
{
    lemma_token_fields(key);
    lemma_pow16_values();
    lemma_sort_code_injective(key.sort, key.sort);
    lemma_hex_value_of_fixed(sort_code_of(key.sort) as nat, 2);
    lemma_hex_value_of_fixed((key.id + 0x8000_0000) as nat, 8);
    lemma_hex_value_of_fixed((key.rank + 0x8000_0000_0000_0000) as nat, 16);
    lemma_hex_fixed_shape(sort_code_of(key.sort) as nat, 2);
    lemma_hex_fixed_shape((key.id + 0x8000_0000) as nat, 8);
    lemma_hex_fixed_shape((key.rank + 0x8000_0000_0000_0000) as nat, 16);
}

/// Two positions with one token are one position.
pub proof fn lemma_token_injective(a: SortKey, b: SortKey)
    requires
        cursor_token(a) == cursor_token(b),
    ensures
        a == b,
{
    lemma_token_values(a);
    lemma_token_values(b);
    lemma_sort_code_injective(a.sort, b.sort);
}

/// A token stands for the position it was made from, and for no other.
pub proof fn lemma_token_key(key: SortKey)
    ensures
        token_key(cursor_token(key)) == Some(key),
{
    let found = choose|k: SortKey| cursor_token(k) == cursor_token(key);
    lemma_token_injective(found, key);
}

/// Round trip: decoding the token of a position under the sort order of
/// that position gives the position back.
pub proof fn lemma_decode_encode(key: SortKey)
    ensures
        decoded_cursor(cursor_token(key), key.sort) == Ok::<SortKey, ListingError>(key),
{
    lemma_token_key(key);
}

/// A cursor made under one sort order is refused by a listing that runs
/// under another: decoding fails with `InvalidCursor` and never yields a
/// position.
pub proof fn lemma_decode_other_sort(key: SortKey, expected: SortType)
    requires
        key.sort != expected,
    ensures
        decoded_cursor(cursor_token(key), expected) == Err::<SortKey, ListingError>(
            ListingError::InvalidCursor,
        ),
{
    lemma_token_key(key);
}

/// Decoding succeeds on exactly the tokens of positions of the expected
/// sort order.
pub proof fn lemma_decode_exact(token: Seq<u8>, expected: SortType, key: SortKey)
    ensures
        decoded_cursor(token, expected) == Ok::<SortKey, ListingError>(key) <==> (token
            == cursor_token(key) && key.sort == expected),
        decoded_cursor(token, expected) is Err ==> decoded_cursor(token, expected) == Err::<
            SortKey,
            ListingError,
        >(ListingError::InvalidCursor),
{
    if token == cursor_token(key) {
        lemma_token_key(key);
    }
}

impl PaginationCursor {
    /// The cursor for the page that starts right after the item at `key`.
    pub fn encode(key: &SortKey) -> (cursor: PaginationCursor)
        ensures
            cursor@ == cursor_token(*key),
    {
        let mut out: Vec<u8> = Vec::new();
        out.push(0x50u8);
        push_hex(&mut out, sort_code(key.sort) as u64, 2);
        let shifted: u64 = if key.rank >= 0 {
            key.rank as u64 + 0x8000_0000_0000_0000
        } else {
            (key.rank + i64::MAX + 1) as u64
        };
        push_hex(&mut out, shifted, 16);
        push_hex(&mut out, (key.id as i64 + 0x8000_0000) as u64, 8);
        assert(out@ =~= cursor_token(*key));
        PaginationCursor(out)
    }

    /// The cursor for the page that starts right after `item` in a listing
    /// sorted by `sort`.
    pub fn after_post(item: &ListedItem, sort: SortType) -> (cursor: PaginationCursor)
        ensures
            cursor@ == cursor_token(key_of_item(*item, sort)),
    {
        let key = SortKey::of_item(item, sort);
        PaginationCursor::encode(&key)
    }

    /// The position that this cursor stands for, whatever its sort order.
    pub fn key(&self) -> (key: Option<SortKey>)
        ensures
            key == token_key(self@),
    {
        let bytes = &self.0;
        if bytes.len() != CURSOR_LEN || bytes[0] != 0x50u8 {
            proof {
                assert forall|k: SortKey| cursor_token(k) != self@ by {
                    lemma_token_fields(k);
                }
            }
            return None;
        }
        let code = parse_hex(bytes, 1, 2);
        let rank = parse_hex(bytes, 3, 16);
        let id = parse_hex(bytes, 19, 8);
        let (code, rank, id) = match (code, rank, id) {
            (Some(code), Some(rank), Some(id)) => (code, rank, id),
            _ => {
                proof {
                    assert forall|k: SortKey| cursor_token(k) != self@ by {
                        lemma_token_values(k);
                    }
                }
                return None;
            },
        };
        proof {
            lemma_pow16_values();
            lemma_hex_value_bound(self@.subrange(1, 3));
            lemma_hex_value_bound(self@.subrange(19, 27));
        }
        let sort = match sort_from_code(code as u8) {
            Some(sort) => sort,
            None => {
                proof {
                    assert forall|k: SortKey| cursor_token(k) != self@ by {
                        lemma_token_values(k);
                        lemma_sort_code_injective(k.sort, k.sort);
                    }
                }
                return None;
            },
        };
        let id: i32 = (id as i64 - 0x8000_0000) as i32;
        let rank: i64 = if rank >= 0x8000_0000_0000_0000 {
            (rank - 0x8000_0000_0000_0000) as i64
        } else {
            rank as i64 - i64::MAX - 1
        };
        let key = SortKey { sort, rank, id };
        proof {
            lemma_hex_fixed_of_value(self@.subrange(1, 3));
            lemma_hex_fixed_of_value(self@.subrange(3, 19));
            lemma_hex_fixed_of_value(self@.subrange(19, 27));
            assert(self@ =~= seq![0x50u8] + self@.subrange(1, 3) + self@.subrange(3, 19)
                + self@.subrange(19, 27));
            assert(self@ == cursor_token(key));
            lemma_token_key(key);
        }
        Some(key)
    }

    /// Decodes this cursor for a listing sorted by `expected_sort`.
    ///
    /// The cursor must come from a listing of the same kind of content: a
    /// token does not say whether it was made from a post or a comment.
    pub fn decode(&self, expected_sort: SortType) -> (key: Result<SortKey, ListingError>)
        ensures
            key == decoded_cursor(self@, expected_sort),
    {
        match self.key() {
            Some(key) => {
                if sort_code(key.sort) == sort_code(expected_sort) {
                    proof {
                        lemma_sort_code_injective(key.sort, expected_sort);
                    }
                    Ok(key)
                } else {
                    Err(ListingError::InvalidCursor)
                }
            },
            None => Err(ListingError::InvalidCursor),
        }
    }
}

} // verus!
