//! The decoded query string of a request, and the page of notes it asks for.

use crate::decimal::{decimal, is_numeral, lemma_decimal_round_trip, numeral_value, parse_numeral};
use vstd::prelude::*;
use vstd::string::*;

verus! {

/// The number of notes on a page. Clients cannot change it.
pub const PAGE_SIZE: i64 = 50;

/// The statement that lists a page of notes that are not deleted. Its first
/// parameter is the limit, its second the offset.
pub const LIST_NOTES: &'static str =
    "SELECT * FROM notes WHERE deleted_at IS NULL LIMIT $1 OFFSET $2";

/// The map that a run of name-value pairs denotes: where a name comes
/// twice, the later pair decides.
pub open spec fn pairs_map(pairs: Seq<(String, String)>) -> Map<Seq<char>, Seq<char>>
    decreases pairs.len(),
{
    if pairs.len() == 0 {
        Map::empty()
    } else {
        pairs_map(pairs.drop_last()).insert(pairs.last().0@, pairs.last().1@)
    }
}

/// The decoded query string of a request: a map from names to values.
#[derive(Clone, Debug)]
pub struct Query {
    pairs: Vec<(String, String)>,
}

impl View for Query {
    type V = Map<Seq<char>, Seq<char>>;

    closed spec fn view(&self) -> Map<Seq<char>, Seq<char>> {
        pairs_map(self.pairs@)
    }
}

impl Query {
    /// A query string without parameters.
    pub fn new() -> (query: Query)
        ensures
            query@ == Map::<Seq<char>, Seq<char>>::empty(),
    {
        Query { pairs: Vec::new() }
    }

    /// Sets `name` to `value`, whatever it was before.
    pub fn insert(&mut self, name: String, value: String)
        ensures
            final(self)@ == old(self)@.insert(name@, value@),
    {
        self.pairs.push((name, value));
        assert(self.pairs@.drop_last() =~= old(self).pairs@);
    }

    /// The value of `name`, if the query string has one.
    pub fn get(&self, name: &str) -> (value: Option<&String>)
        ensures
            match value {
                Some(v) => self@.contains_key(name@) && self@[name@] == v@,
                None => !self@.contains_key(name@),
            },
    {
        let key: String = name.to_owned();
        let mut i: usize = self.pairs.len();
        assert(self.pairs@.take(i as int) =~= self.pairs@);
        while i > 0
            invariant
                i <= self.pairs.len(),
                key@ == name@,
                pairs_map(self.pairs@).contains_key(name@) == pairs_map(
                    self.pairs@.take(i as int),
                ).contains_key(name@),
                pairs_map(self.pairs@).contains_key(name@) ==> pairs_map(self.pairs@)[name@]
                    == pairs_map(self.pairs@.take(i as int))[name@],
            decreases i,
        {
            let ghost prefix = self.pairs@.take(i as int);
            assert(prefix.drop_last() =~= self.pairs@.take(i - 1));
            assert(prefix.last() == self.pairs@[i - 1]);
            i = i - 1;
            if self.pairs[i].0 == key {
                return Some(&self.pairs[i].1);
            }
        }
        assert(self.pairs@.take(0) =~= Seq::<(String, String)>::empty());
        None
    }
}

/// The offset that the text of an `offset` parameter asks for: the number it
/// denotes where it is a numeral that fits in an `i64`, and zero otherwise.
pub open spec fn offset_of(text: Seq<char>) -> int {
    if is_numeral(text) && numeral_value(text) <= i64::MAX {
        numeral_value(text) as int
    } else {
        0
    }
}

/// The offset that a query string asks for. Without an `offset` parameter it
/// is zero.
pub open spec fn resolved_offset(query: Map<Seq<char>, Seq<char>>) -> int {
    if query.contains_key("offset"@) {
        offset_of(query["offset"@])
    } else {
        0
    }
}

/// The parameters of one run of the listing statement.
#[derive(Clone, Copy, Debug, PartialEq, Eq, Structural)]
pub struct PageQuery {
    /// At most this many notes come back.
    pub limit: i64,
    /// This many notes are passed over first.
    pub offset: i64,
}

/// The page that a query string asks for.
pub open spec fn page_of(query: Map<Seq<char>, Seq<char>>) -> PageQuery {
    PageQuery { limit: PAGE_SIZE, offset: resolved_offset(query) as i64 }
}

impl PageQuery {
    /// The text of the statement that the two parameters belong to.
    pub fn statement(&self) -> (text: &'static str)
        ensures
            text@ == LIST_NOTES@,
    {
        LIST_NOTES
    }
}

/// Reads the `offset` parameter. A missing or malformed one counts as zero.
pub fn resolve_offset(query: &Query) -> (offset: i64)
    ensures
        offset == resolved_offset(query@),
        offset >= 0,
{
    match query.get("offset") {
        Some(text) => match parse_numeral(text.as_str()) {
            Some(number) => number,
            None => 0,
        },
        None => 0,
    }
}

/// The listing that a request with this query string is answered from.
pub fn notes_query(query: &Query) -> (page: PageQuery)
    ensures
        page == page_of(query@),
{
    PageQuery { limit: PAGE_SIZE, offset: resolve_offset(query) }
}

/// A request whose `offset` parameter is the decimal form of a number that
/// fits in an `i64` is answered from exactly that offset, with the fixed page
/// size as the limit.
pub proof fn law_offset_is_taken_as_written(query: Map<Seq<char>, Seq<char>>, offset: nat)
    requires
        offset <= i64::MAX,
        query.contains_key("offset"@),
        query["offset"@] == decimal(offset),
    ensures
        page_of(query) == (PageQuery { limit: 50, offset: offset as i64 }),
{
    lemma_decimal_round_trip(offset);
}

/// Without an `offset` parameter, or with one that is not a numeral, the
/// listing starts at the first note.
pub proof fn law_offset_defaults_to_zero(query: Map<Seq<char>, Seq<char>>)
    requires
        !query.contains_key("offset"@) || !is_numeral(query["offset"@]),
    ensures
        page_of(query) == (PageQuery { limit: 50, offset: 0 }),
{
}

} // verus!
