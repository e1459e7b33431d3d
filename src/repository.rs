//! Storage of token records: the repository capability, the flattened row
//! that a relational store holds, and an in-memory repository.

use vstd::prelude::*;
use vstd::string::*;

use crate::caip::{TokenId, TokenIdView};
use crate::evm::{is_address, is_evm_address};
use crate::token::{EvmTokenDetails, Token, evm_id, evm_token_id};

verus! {

/// What a repository reports besides a record.
#[derive(Debug, Clone)]
pub enum RepoError {
    /// A record expected to be stored is not.
    NotFound,
    /// The store failed, or a stored row does not describe a valid record.
    Backend(String),
    /// A record with the same identifier is already stored.
    Conflict,
}

/// Storage of records keyed by their identifier. `get` tells "not found"
/// (`Ok(None)`) apart from a failure; `save` inserts and never overwrites:
/// saving a record whose identifier is stored already is a `Conflict`, and
/// a failed save changes nothing.
pub trait Repository<T> {
    /// The stored record with the identifier, if any.
    spec fn lookup(&self, id: TokenIdView) -> Option<T>;

    /// The identifier that a record is stored under.
    spec fn key(t: T) -> TokenIdView;

    fn get(&self, id: &TokenId) -> (r: Result<Option<T>, RepoError>)
        ensures
            r is Ok ==> r == Ok::<Option<T>, RepoError>(self.lookup(id@)),
    ;

    fn save(&mut self, token: &T) -> (r: Result<(), RepoError>)
        ensures
            r is Ok ==> old(self).lookup(Self::key(*token)) is None && final(self).lookup(
                Self::key(*token),
            ) == Some(*token),
            r is Ok ==> forall|k: TokenIdView|
                k != Self::key(*token) ==> #[trigger] final(self).lookup(k) == old(self).lookup(k),
            r matches Err(RepoError::Conflict) ==> old(self).lookup(Self::key(*token)) is Some,
            r is Err ==> forall|k: TokenIdView| #[trigger] final(self).lookup(k) == old(self).lookup(k),
    ;
}

/// A stored row: a flattened EVM token record. `decimals` is widened for
/// the store and holds a value in `0..=255`.
#[derive(Debug, Clone)]
pub struct DbEvmToken {
    pub id: String,
    pub chain_id: i32,
    pub address: String,
    pub symbol: String,
    pub decimals: i32,
    pub name: String,
}

/// A row describes a valid record: its chain id and decimals are in range,
/// its address is an EVM address, and its key is the identifier that the
/// chain id and address give.
pub open spec fn row_is_valid(row: DbEvmToken) -> bool {
    &&& 0 <= row.chain_id
    &&& 0 <= row.decimals <= 255
    &&& is_evm_address(row.address@)
    &&& row.id@ == evm_id(row.chain_id as u64, row.address@).text()
}

fn backend(msg: &str) -> (r: RepoError)
    ensures
        r is Backend,
{
    RepoError::Backend(String::from_str(msg))
}

pub open spec fn is_digit(c: char) -> bool {
    '0' <= c && c <= '9'
}

/// The number that a run of decimal digits spells.
pub open spec fn digits_value(s: Seq<char>) -> int
    decreases s.len(),
{
    if s.len() == 0 {
        0
    } else {
        10 * digits_value(s.drop_last()) + (s.last() as int - '0' as int)
    }
}

/// The `i32` that a text spells: an optional `+` or `-` sign followed by one
/// or more decimal digits, with a value in range; `None` for any other text.
pub open spec fn i32_of_text(s: Seq<char>) -> Option<i32> {
    let signed = s.len() > 0 && (s[0] == '+' || s[0] == '-');
    let body = if signed {
        s.drop_first()
    } else {
        s
    };
    let v = if s.len() > 0 && s[0] == '-' {
        -digits_value(body)
    } else {
        digits_value(body)
    };
    if body.len() > 0 && (forall|i: int| 0 <= i < body.len() ==> is_digit(#[trigger] body[i]))
        && i32::MIN <= v <= i32::MAX {
        Some(v as i32)
    } else {
        None
    }
}

/// Relies on `i32::from_str` (`str::parse::<i32>`): it accepts an optional
/// `+` or `-` sign followed by decimal digits only, and fails on an empty
/// text, any other character, or a value out of range.
#[verifier::external_body]
fn parse_i32(s: &str) -> (r: Option<i32>)
    ensures
        r == i32_of_text(s@),
{
    s.parse::<i32>().ok()
}

impl DbEvmToken {
    /// The row of a token. The key, chain id and address columns come from
    /// the identifier: the chain id is its reference read as an `i32`. Fails
    /// with `Backend` when the reference is not one.
    pub fn from_token(token: &Token<EvmTokenDetails>) -> (r: Result<DbEvmToken, RepoError>)
        ensures
            (r is Ok) == (i32_of_text(token.id@.reference) is Some),
            r matches Ok(row) ==> {
                &&& row.id@ == token.id@.text()
                &&& Some(row.chain_id) == i32_of_text(token.id@.reference)
                &&& row.address@ == token.id@.address
                &&& row.symbol@ == token.symbol@
                &&& row.name@ == token.name@
                &&& row.decimals == token.decimals as i32
            },
            r matches Err(e) ==> e matches RepoError::Backend(m) && m@ == "Failed to parse chain id: "@
                + token.id@.reference,
    {
        let chain_id = match parse_i32(token.id.reference()) {
            Some(c) => c,
            None => {
                let mut m = String::from_str("Failed to parse chain id: ");
                m.append(token.id.reference());
                return Err(RepoError::Backend(m));
            },
        };
        Ok(
            DbEvmToken {
                id: token.id.to_string(),
                chain_id,
                address: String::from_str(token.id.address()),
                symbol: token.symbol.clone(),
                decimals: token.decimals as i32,
                name: token.name.clone(),
            },
        )
    }

    /// The record that a row describes, given the identifier built from its
    /// chain id and address: it is the record exactly when that identifier's
    /// text is the row's key.
    pub fn record_with_id(&self, id: TokenId) -> (r: Result<Token<EvmTokenDetails>, RepoError>)
        requires
            0 <= self.chain_id,
            0 <= self.decimals <= 255,
            id@ == evm_id(self.chain_id as u64, self.address@),
        ensures
            (r is Ok) == (id@.text() == self.id@),
            r matches Ok(t) ==> {
                &&& t.id == id
                &&& t.name == self.name
                &&& t.symbol == self.symbol
                &&& t.decimals as i32 == self.decimals
                &&& t.details.chain_id == self.chain_id as u64
                &&& t.details.address == self.address
            },
            r matches Err(e) ==> e matches RepoError::Backend(m) && m@
                == "stored key does not match chain id and address"@,
    {
        let text = id.to_string();
        if text != self.id {
            return Err(
                RepoError::Backend(
                    String::from_str("stored key does not match chain id and address"),
                ),
            );
        }
        Ok(
            Token {
                id,
                name: self.name.clone(),
                symbol: self.symbol.clone(),
                decimals: self.decimals as u8,
                details: EvmTokenDetails {
                    chain_id: self.chain_id as u64,
                    address: self.address.clone(),
                },
            },
        )
    }

    /// The record that a row describes. A row that does not describe a valid
    /// record is a `Backend` error, never a record with wrapped values. On a
    /// valid row the only possible failure is tap-caip refusing the identifier.
    pub fn to_token(&self) -> (r: Result<Token<EvmTokenDetails>, RepoError>)
        ensures
            r is Ok ==> row_is_valid(*self),
            row_is_valid(*self) && r is Err ==> (r matches Err(RepoError::Backend(m)) && m@
                == "stored address is refused as an identifier"@),
            r matches Ok(t) ==> {
                &&& t.consistent()
                &&& t.id@.text() == self.id@
                &&& t.details.chain_id == self.chain_id as u64
                &&& t.details.address == self.address
                &&& t.name == self.name
                &&& t.symbol == self.symbol
                &&& t.decimals as i32 == self.decimals
            },
            r matches Err(e) ==> e is Backend,
    {
        if self.chain_id < 0 {
            return Err(backend("stored chain id is negative"));
        }
        if self.decimals < 0 || self.decimals > 255 {
            return Err(backend("stored decimals are out of range"));
        }
        if !is_address(self.address.as_str()) {
            return Err(backend("stored address is not an EVM address"));
        }
        match evm_token_id(self.chain_id as u64, self.address.as_str()) {
            Ok(id) => self.record_with_id(id),
            Err(_) => Err(
                RepoError::Backend(String::from_str("stored address is refused as an identifier")),
            ),
        }
    }
}

/// The last stored record with the given identifier.
pub open spec fn find_record(rows: Seq<Token<EvmTokenDetails>>, id: TokenIdView) -> Option<
    Token<EvmTokenDetails>,
>
    decreases rows.len(),
{
    if rows.len() == 0 {
        None
    } else if rows.last().id@ == id {
        Some(rows.last())
    } else {
        find_record(rows.drop_last(), id)
    }
}

/// How many stored records have the given identifier.
pub open spec fn count_records(rows: Seq<Token<EvmTokenDetails>>, id: TokenIdView) -> nat
    decreases rows.len(),
{
    if rows.len() == 0 {
        0
    } else {
        count_records(rows.drop_last(), id) + if rows.last().id@ == id {
            1nat
        } else {
            0nat
        }
    }
}

pub proof fn lemma_absent_has_no_rows(rows: Seq<Token<EvmTokenDetails>>, id: TokenIdView)
    ensures
        (find_record(rows, id) is None) == (count_records(rows, id) == 0),
    decreases rows.len(),
{
    if rows.len() > 0 {
        lemma_absent_has_no_rows(rows.drop_last(), id);
    }
}

/// The store and whether it was written, after one insert: a record whose
/// identifier is stored already is refused and changes nothing.
pub open spec fn insert_outcome(rows: Seq<Token<EvmTokenDetails>>, t: Token<EvmTokenDetails>) -> (
    Seq<Token<EvmTokenDetails>>,
    bool,
) {
    if find_record(rows, t.id@) is Some {
        (rows, false)
    } else {
        (rows.push(t), true)
    }
}

/// The store after inserting the records one after another.
pub open spec fn insert_all(rows: Seq<Token<EvmTokenDetails>>, ts: Seq<Token<EvmTokenDetails>>) -> Seq<
    Token<EvmTokenDetails>,
>
    decreases ts.len(),
{
    if ts.len() == 0 {
        rows
    } else {
        insert_all(insert_outcome(rows, ts[0]).0, ts.drop_first())
    }
}

proof fn lemma_insert_all_present(
    rows: Seq<Token<EvmTokenDetails>>,
    ts: Seq<Token<EvmTokenDetails>>,
    id: TokenIdView,
)
    requires
        find_record(rows, id) is Some,
        forall|i: int| 0 <= i < ts.len() ==> (#[trigger] ts[i]).id@ == id,
    ensures
        insert_all(rows, ts) == rows,
        forall|i: int| 0 <= i < ts.len() ==> !(#[trigger] insert_outcome(rows, ts[i]).1),
    decreases ts.len(),
{
    if ts.len() > 0 {
        let rest = ts.drop_first();
        assert forall|i: int| 0 <= i < rest.len() implies (#[trigger] rest[i]).id@ == id by {
            assert(rest[i] == ts[i + 1]);
        }
        lemma_insert_all_present(rows, rest, id);
    }
}

/// Racing inserts of one identifier: when several records with the same
/// identifier are inserted one after another into a store that lacks it,
/// the first is written and every later one is refused, so the store ends
/// with exactly one row for the identifier, the first record.
pub proof fn lemma_one_row_per_identifier(
    rows: Seq<Token<EvmTokenDetails>>,
    ts: Seq<Token<EvmTokenDetails>>,
    id: TokenIdView,
)
    requires
        find_record(rows, id) is None,
        ts.len() >= 1,
        forall|i: int| 0 <= i < ts.len() ==> (#[trigger] ts[i]).id@ == id,
    ensures
        insert_outcome(rows, ts[0]).1,
        forall|i: int|
            1 <= i < ts.len() ==> !(#[trigger] insert_outcome(rows.push(ts[0]), ts[i]).1),
        insert_all(rows, ts) == rows.push(ts[0]),
        find_record(insert_all(rows, ts), id) == Some(ts[0]),
        count_records(insert_all(rows, ts), id) == 1,
{
    let first = rows.push(ts[0]);
    assert(ts[0].id@ == id);
    assert(first.drop_last() =~= rows);
    lemma_absent_has_no_rows(rows, id);
    let rest = ts.drop_first();
    assert forall|i: int| 0 <= i < rest.len() implies (#[trigger] rest[i]).id@ == id by {
        assert(rest[i] == ts[i + 1]);
    }
    lemma_insert_all_present(first, rest, id);
    assert forall|i: int| 1 <= i < ts.len() implies !(#[trigger] insert_outcome(first, ts[i]).1) by {
        assert(ts[i] == rest[i - 1]);
    }
}

/// A repository held in memory, with the same contract as a durable one.
pub struct MemoryRepository {
    rows: Vec<Token<EvmTokenDetails>>,
}

impl View for MemoryRepository {
    type V = Seq<Token<EvmTokenDetails>>;

    closed spec fn view(&self) -> Seq<Token<EvmTokenDetails>> {
        self.rows@
    }
}

impl MemoryRepository {
    /// No identifier is stored twice.
    pub open spec fn wf(&self) -> bool {
        forall|id: TokenIdView| #[trigger] count_records(self@, id) <= 1
    }

    pub fn new() -> (r: MemoryRepository)
        ensures
            r@ == Seq::<Token<EvmTokenDetails>>::empty(),
            r.wf(),
    {
        MemoryRepository { rows: Vec::new() }
    }

    pub fn len(&self) -> (r: usize)
        ensures
            r == self@.len(),
    {
        self.rows.len()
    }

    /// The stored record with the identifier, if any.
    pub fn find(&self, id: &TokenId) -> (r: Option<Token<EvmTokenDetails>>)
        ensures
            r == find_record(self@, id@),
    {
        let mut i = self.rows.len();
        assert(self.rows@.subrange(0, i as int) =~= self.rows@);
        while i > 0
            invariant
                i <= self.rows@.len(),
                find_record(self.rows@, id@) == find_record(self.rows@.subrange(0, i as int), id@),
            decreases i,
        {
            let ghost prefix = self.rows@.subrange(0, i as int);
            assert(prefix.drop_last() =~= self.rows@.subrange(0, i - 1));
            if self.rows[i - 1].id.same_as(id) {
                return Some(self.rows[i - 1].duplicate());
            }
            i = i - 1;
        }
        assert(self.rows@.subrange(0, 0) =~= Seq::<Token<EvmTokenDetails>>::empty());
        None
    }

    /// Inserts a record whose identifier is not stored yet; otherwise reports
    /// a `Conflict` and leaves the store as it was.
    pub fn insert(&mut self, token: &Token<EvmTokenDetails>) -> (r: Result<(), RepoError>)
        ensures
            (final(self)@, r is Ok) == insert_outcome(old(self)@, *token),
            old(self).wf() ==> final(self).wf(),
            find_record(old(self)@, token.id@) is Some ==> ((r matches Err(RepoError::Conflict))
                && final(self)@ == old(self)@),
            find_record(old(self)@, token.id@) is None ==> r is Ok && final(self)@ == old(
                self,
            )@.push(*token),
    {
        if self.find(&token.id).is_some() {
            return Err(RepoError::Conflict);
        }
        let ghost before = self@;
        self.rows.push(token.duplicate());
        proof {
            lemma_absent_has_no_rows(before, token.id@);
            assert(self@.drop_last() =~= before);
            if forall|id: TokenIdView| #[trigger] count_records(before, id) <= 1 {
                assert forall|id: TokenIdView| #[trigger] count_records(self@, id) <= 1 by {
                    assert(count_records(before, id) <= 1);
                }
            }
        }
        Ok(())
    }
}

impl Repository<Token<EvmTokenDetails>> for MemoryRepository {
    open spec fn lookup(&self, id: TokenIdView) -> Option<Token<EvmTokenDetails>> {
        find_record(self@, id)
    }

    open spec fn key(t: Token<EvmTokenDetails>) -> TokenIdView {
        t.id@
    }

    fn get(&self, id: &TokenId) -> (r: Result<Option<Token<EvmTokenDetails>>, RepoError>) {
        Ok(self.find(id))
    }

    fn save(&mut self, token: &Token<EvmTokenDetails>) -> (r: Result<(), RepoError>) {
        let r = self.insert(token);
        proof {
            if r is Ok {
                assert(self@.drop_last() =~= old(self)@);
            }
        }
        r
    }
}

} // verus!
