//! Cache-aside resolution of EVM token metadata, as a state machine.
//!
//! A resolution builds the canonical identifier, then asks for one piece of
//! outside work at a time (a repository read, the endpoint's chain id, the
//! batched metadata read, a repository write) and decides from each answer
//! what comes next, until it finishes with a record or an error. Whoever runs
//! it performs each `Action` and hands the outcome back as an `Event`.

use vstd::prelude::*;

use crate::caip::{CaipError, TokenId};
use crate::evm::{address_bytes, checksum_text, is_evm_address, normalize_address};
use crate::repository::{RepoError, count_records, find_record, insert_outcome};
use crate::token::{EvmTokenDetails, Token, evm_id, evm_token_id};

verus! {

/// Why a resolution failed; each kind keeps what caused it.
#[derive(Debug, Clone)]
pub enum EvmTokenServiceError {
    /// The repository failed.
    Repository(RepoError),
    /// The endpoint could not be reached or asked for its chain id.
    Chain(String),
    /// The batched read of name, symbol and decimals failed.
    Multicall(String),
    /// The endpoint serves another chain: (expected, actual).
    ChainIdMismatch(u64, u64),
    /// The chain id and address do not make a valid identifier.
    CaipIdBuildFailed(CaipError),
}

/// The three metadata fields of a token contract, read in one batch.
#[derive(Debug, Clone)]
pub struct TokenMetadata {
    pub name: String,
    pub symbol: String,
    pub decimals: u8,
}

/// Where a resolution stands.
#[derive(Debug, Clone)]
pub enum Stage {
    /// Waiting for the repository read of the identifier.
    Lookup,
    /// Waiting for the chain id that the endpoint reports.
    Connect,
    /// Waiting for the batched metadata read.
    Batch,
    /// Waiting for the write of this record.
    Persist(Token<EvmTokenDetails>),
    /// Waiting for the re-read after a conflicting write.
    Reread,
    /// Finished.
    Done,
}

/// The outcome of the outside work that an `Action` asked for.
#[derive(Debug)]
pub enum Event {
    /// The repository read: a record, no record, or a failure.
    Found(Result<Option<Token<EvmTokenDetails>>, RepoError>),
    /// The chain id that the endpoint reports, or why it could not be had.
    ChainReported(Result<u64, String>),
    /// The batched metadata read, or why it failed.
    BatchRead(Result<TokenMetadata, String>),
    /// The repository write.
    Saved(Result<(), RepoError>),
}

/// The next piece of outside work, or the result.
#[derive(Debug)]
pub enum Action {
    /// Read the record with this identifier.
    Load(TokenId),
    /// Connect to the endpoint and ask for its chain id.
    QueryChain,
    /// Read name, symbol and decimals of the contract at this address in one batch.
    ReadMetadata(String),
    /// Insert this record.
    Save(Token<EvmTokenDetails>),
    /// Read the record with this identifier again, after a conflicting write.
    Reload(TokenId),
    /// The resolution is over.
    Finish(Result<Token<EvmTokenDetails>, EvmTokenServiceError>),
}

/// One resolution of a token: the chain id and normalized address asked
/// for, their identifier, and the stage reached.
#[derive(Debug, Clone)]
pub struct Resolution {
    pub id: TokenId,
    pub chain_id: u64,
    pub address: String,
    pub stage: Stage,
}

pub open spec fn with_stage(r: Resolution, stage: Stage) -> Resolution {
    Resolution { id: r.id, chain_id: r.chain_id, address: r.address, stage }
}

/// The record assembled from fetched metadata: the identifier and details
/// come from the same chain id and address.
pub open spec fn assemble(r: Resolution, md: TokenMetadata) -> Token<EvmTokenDetails> {
    Token {
        id: r.id,
        name: md.name,
        symbol: md.symbol,
        decimals: md.decimals,
        details: EvmTokenDetails { chain_id: r.chain_id, address: r.address },
    }
}

pub open spec fn finish(r: Resolution, result: Result<Token<EvmTokenDetails>, EvmTokenServiceError>) -> (
    Resolution,
    Action,
) {
    (with_stage(r, Stage::Done), Action::Finish(result))
}

/// Whether the event answers the action that the stage waits for.
pub open spec fn accepts(r: Resolution, e: Event) -> bool {
    match r.stage {
        Stage::Lookup => e is Found,
        Stage::Connect => e is ChainReported,
        Stage::Batch => e is BatchRead,
        Stage::Persist(_) => e is Saved,
        Stage::Reread => e is Found,
        Stage::Done => false,
    }
}

/// The transition of a resolution on an event, and the action it asks for next.
pub open spec fn next(r: Resolution, e: Event) -> (Resolution, Action) {
    match (r.stage, e) {
        (Stage::Lookup, Event::Found(Ok(Some(t)))) => finish(r, Ok(t)),
        (Stage::Lookup, Event::Found(Ok(None))) => (with_stage(r, Stage::Connect), Action::QueryChain),
        (Stage::Lookup, Event::Found(Err(err))) => finish(
            r,
            Err(EvmTokenServiceError::Repository(err)),
        ),
        (Stage::Connect, Event::ChainReported(Ok(actual))) => if actual == r.chain_id {
            (with_stage(r, Stage::Batch), Action::ReadMetadata(r.address))
        } else {
            finish(r, Err(EvmTokenServiceError::ChainIdMismatch(r.chain_id, actual)))
        },
        (Stage::Connect, Event::ChainReported(Err(msg))) => finish(
            r,
            Err(EvmTokenServiceError::Chain(msg)),
        ),
        (Stage::Batch, Event::BatchRead(Ok(md))) => (
            with_stage(r, Stage::Persist(assemble(r, md))),
            Action::Save(assemble(r, md)),
        ),
        (Stage::Batch, Event::BatchRead(Err(msg))) => finish(
            r,
            Err(EvmTokenServiceError::Multicall(msg)),
        ),
        (Stage::Persist(t), Event::Saved(Ok(()))) => finish(r, Ok(t)),
        (Stage::Persist(_), Event::Saved(Err(RepoError::Conflict))) => (
            with_stage(r, Stage::Reread),
            Action::Reload(r.id),
        ),
        (Stage::Persist(_), Event::Saved(Err(err))) => finish(
            r,
            Err(EvmTokenServiceError::Repository(err)),
        ),
        (Stage::Reread, Event::Found(Ok(Some(t)))) => finish(r, Ok(t)),
        (Stage::Reread, Event::Found(Ok(None))) => finish(
            r,
            Err(EvmTokenServiceError::Repository(RepoError::NotFound)),
        ),
        (Stage::Reread, Event::Found(Err(err))) => finish(
            r,
            Err(EvmTokenServiceError::Repository(err)),
        ),
        _ => (r, Action::Finish(Err(EvmTokenServiceError::Repository(RepoError::NotFound)))),
    }
}

impl Resolution {
    /// The identifier agrees with the chain id and address.
    pub open spec fn wf(&self) -> bool {
        self.id@ == evm_id(self.chain_id, self.address@)
    }

    /// Starts a resolution: normalizes the address and builds the identifier,
    /// before any storage or network work. The first action is the
    /// repository read of that identifier.
    pub fn start(chain_id: u64, address: &str) -> (r: Result<(Resolution, Action), EvmTokenServiceError>)
        ensures
            !is_evm_address(address@) ==> r matches Err(
                EvmTokenServiceError::CaipIdBuildFailed(CaipError::InvalidAddress),
            ),
            r matches Err(e) ==> e matches EvmTokenServiceError::CaipIdBuildFailed(
                CaipError::InvalidAddress,
            ),
            r matches Ok((res, a)) ==> {
                &&& is_evm_address(address@)
                &&& res.wf()
                &&& res.chain_id == chain_id
                &&& res.address@ == checksum_text(address_bytes(address@))
                &&& is_evm_address(res.address@)
                &&& address_bytes(res.address@) == address_bytes(address@)
                &&& res.stage is Lookup
                &&& a == Action::Load(res.id)
            },
    {
        let normalized = match normalize_address(address) {
            Some(a) => a,
            None => {
                return Err(EvmTokenServiceError::CaipIdBuildFailed(CaipError::InvalidAddress));
            },
        };
        let id = match evm_token_id(chain_id, normalized.as_str()) {
            Ok(id) => id,
            Err(e) => {
                return Err(EvmTokenServiceError::CaipIdBuildFailed(e));
            },
        };
        let load = Action::Load(id.duplicate());
        Ok((Resolution { id, chain_id, address: normalized, stage: Stage::Lookup }, load))
    }

    /// Whether the event answers what this resolution waits for.
    pub fn expects(&self, e: &Event) -> (b: bool)
        ensures
            b == accepts(*self, *e),
    {
        match self.stage {
            Stage::Lookup => matches!(e, Event::Found(_)),
            Stage::Connect => matches!(e, Event::ChainReported(_)),
            Stage::Batch => matches!(e, Event::BatchRead(_)),
            Stage::Persist(_) => matches!(e, Event::Saved(_)),
            Stage::Reread => matches!(e, Event::Found(_)),
            Stage::Done => false,
        }
    }

    /// Takes the outcome of the last action and decides what comes next.
    pub fn step(self, e: Event) -> (r: (Resolution, Action))
        requires
            accepts(self, e),
        ensures
            r == next(self, e),
    {
        let Resolution { id, chain_id, address, stage } = self;
        match stage {
            Stage::Lookup | Stage::Reread => {
                let lookup = matches!(stage, Stage::Lookup);
                let res = Resolution { id, chain_id, address, stage: Stage::Done };
                match e {
                    Event::Found(Ok(Some(t))) => (res, Action::Finish(Ok(t))),
                    Event::Found(Ok(None)) => {
                        if lookup {
                            (
                                Resolution {
                                    id: res.id,
                                    chain_id,
                                    address: res.address,
                                    stage: Stage::Connect,
                                },
                                Action::QueryChain,
                            )
                        } else {
                            (
                                res,
                                Action::Finish(
                                    Err(EvmTokenServiceError::Repository(RepoError::NotFound)),
                                ),
                            )
                        }
                    },
                    Event::Found(Err(err)) => (
                        res,
                        Action::Finish(Err(EvmTokenServiceError::Repository(err))),
                    ),
                    _ => (res, Action::QueryChain),
                }
            },
            Stage::Connect => {
                match e {
                    Event::ChainReported(Ok(actual)) => {
                        if actual == chain_id {
                            let read = Action::ReadMetadata(address.clone());
                            (Resolution { id, chain_id, address, stage: Stage::Batch }, read)
                        } else {
                            (
                                Resolution { id, chain_id, address, stage: Stage::Done },
                                Action::Finish(
                                    Err(EvmTokenServiceError::ChainIdMismatch(chain_id, actual)),
                                ),
                            )
                        }
                    },
                    Event::ChainReported(Err(msg)) => (
                        Resolution { id, chain_id, address, stage: Stage::Done },
                        Action::Finish(Err(EvmTokenServiceError::Chain(msg))),
                    ),
                    _ => (Resolution { id, chain_id, address, stage }, Action::QueryChain),
                }
            },
            Stage::Batch => {
                match e {
                    Event::BatchRead(Ok(md)) => {
                        let token = Token {
                            id: id.duplicate(),
                            name: md.name,
                            symbol: md.symbol,
                            decimals: md.decimals,
                            details: EvmTokenDetails { chain_id, address: address.clone() },
                        };
                        let save = Action::Save(token.duplicate());
                        (Resolution { id, chain_id, address, stage: Stage::Persist(token) }, save)
                    },
                    Event::BatchRead(Err(msg)) => (
                        Resolution { id, chain_id, address, stage: Stage::Done },
                        Action::Finish(Err(EvmTokenServiceError::Multicall(msg))),
                    ),
                    _ => (Resolution { id, chain_id, address, stage }, Action::QueryChain),
                }
            },
            Stage::Persist(t) => {
                match e {
                    Event::Saved(Ok(())) => (
                        Resolution { id, chain_id, address, stage: Stage::Done },
                        Action::Finish(Ok(t)),
                    ),
                    Event::Saved(Err(RepoError::Conflict)) => {
                        let reload = Action::Reload(id.duplicate());
                        (Resolution { id, chain_id, address, stage: Stage::Reread }, reload)
                    },
                    Event::Saved(Err(err)) => (
                        Resolution { id, chain_id, address, stage: Stage::Done },
                        Action::Finish(Err(EvmTokenServiceError::Repository(err))),
                    ),
                    _ => (
                        Resolution { id, chain_id, address, stage: Stage::Persist(t) },
                        Action::QueryChain,
                    ),
                }
            },
            Stage::Done => (Resolution { id, chain_id, address, stage }, Action::QueryChain),
        }
    }
}

/// Cache-aside on a store that lacks the identifier, from a resolution as
/// `Resolution::start` returns it: the first resolution
/// misses, asks the endpoint for its chain id once, reads the metadata once,
/// asks for exactly one write of the assembled record and returns that
/// record; once it is stored (one row for the identifier), a second
/// resolution for the same identifier returns an equal record from its first
/// read, with no fetch at all.
pub proof fn lemma_cache_aside(r0: Resolution, rows: Seq<Token<EvmTokenDetails>>, md: TokenMetadata)
    requires
        r0.wf(),
        r0.stage is Lookup,
        find_record(rows, r0.id@) is None,
    ensures
        ({
            let t = assemble(r0, md);
            let (r1, a1) = next(r0, Event::Found(Ok(None)));
            let (r2, a2) = next(r1, Event::ChainReported(Ok(r0.chain_id)));
            let (r3, a3) = next(r2, Event::BatchRead(Ok(md)));
            let stored = rows.push(t);
            let (r4, a4) = next(r3, Event::Saved(Ok(())));
            let (s1, b1) = next(r0, Event::Found(Ok(find_record(stored, r0.id@))));
            &&& a1 == Action::QueryChain && accepts(r1, Event::ChainReported(Ok(r0.chain_id)))
            &&& a2 == Action::ReadMetadata(r0.address) && accepts(r2, Event::BatchRead(Ok(md)))
            &&& a3 == Action::Save(t) && accepts(r3, Event::Saved(Ok(())))
            &&& t.consistent() && t.id == r0.id
            &&& insert_outcome(rows, t) == (stored, true)
            &&& find_record(stored, r0.id@) == Some(t)
            &&& count_records(stored, r0.id@) == 1
            &&& a4 == Action::Finish(Ok(t)) && r4.stage is Done
            &&& b1 == Action::Finish(Ok(t)) && s1.stage is Done
        }),
{
    crate::repository::lemma_absent_has_no_rows(rows, r0.id@);
    let t = assemble(r0, md);
    assert(rows.push(t).drop_last() =~= rows);
}

/// Concurrent misses converge: resolutions of the same chain id and address
/// that fetched the same metadata assemble records with the same identifier,
/// name, symbol and decimals. When one of those records is stored already,
/// another's write is a conflict; that resolution then re-reads and returns
/// the stored record, so every one of them returns an equal record.
pub proof fn lemma_concurrent_miss(
    a: Resolution,
    b: Resolution,
    md: TokenMetadata,
    rows: Seq<Token<EvmTokenDetails>>,
)
    requires
        a.wf(),
        b.wf(),
        a.chain_id == b.chain_id,
        a.address@ == b.address@,
        a.stage == Stage::Persist(assemble(a, md)),
        find_record(rows, b.id@) == Some(assemble(b, md)),
    ensures
        assemble(a, md).id@ == assemble(b, md).id@,
        assemble(a, md).name == assemble(b, md).name,
        assemble(a, md).symbol == assemble(b, md).symbol,
        assemble(a, md).decimals == assemble(b, md).decimals,
        find_record(rows, a.id@) is Some,
        insert_outcome(rows, assemble(a, md)) == (rows, false),
        ({
            let (r1, a1) = next(a, Event::Saved(Err(RepoError::Conflict)));
            let (r2, a2) = next(r1, Event::Found(Ok(find_record(rows, a.id@))));
            &&& a1 == Action::Reload(a.id)
            &&& accepts(r1, Event::Found(Ok(find_record(rows, a.id@))))
            &&& a2 == Action::Finish(Ok(assemble(b, md)))
            &&& r2.stage is Done
        }),
{
}

/// The resolution service: the repository that resolutions read and write.
pub struct EvmTokenService<R> {
    pub repository: R,
}

impl<R> EvmTokenService<R> {
    pub fn new(repository: R) -> (r: EvmTokenService<R>)
        ensures
            r.repository == repository,
    {
        EvmTokenService { repository }
    }

    /// Starts the resolution of a token; see `Resolution::start`.
    pub fn begin(&self, chain_id: u64, address: &str) -> (r: Result<(Resolution, Action), EvmTokenServiceError>)
        ensures
            !is_evm_address(address@) ==> r matches Err(
                EvmTokenServiceError::CaipIdBuildFailed(CaipError::InvalidAddress),
            ),
            r matches Err(e) ==> e matches EvmTokenServiceError::CaipIdBuildFailed(
                CaipError::InvalidAddress,
            ),
            r matches Ok((res, a)) ==> {
                &&& is_evm_address(address@)
                &&& res.wf()
                &&& res.chain_id == chain_id
                &&& res.address@ == checksum_text(address_bytes(address@))
                &&& is_evm_address(res.address@)
                &&& address_bytes(res.address@) == address_bytes(address@)
                &&& res.stage is Lookup
                &&& a == Action::Load(res.id)
            },
    {
        Resolution::start(chain_id, address)
    }
}

} // verus!
