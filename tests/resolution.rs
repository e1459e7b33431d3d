use token_api::caip::CaipError;
use token_api::repository::{DbEvmToken, MemoryRepository, RepoError, Repository};
use token_api::service::{
    Action, Event, EvmTokenService, EvmTokenServiceError, Resolution, TokenMetadata,
};
use token_api::token::{evm_token_id, EvmTokenDetails, Token};

const USDC_LOWER: &str = "0xa0b86991c6218b36c1d19d4a2e9eb0ce3606eb48";
const USDC: &str = "0xA0b86991c6218b36c1d19D4a2e9Eb0cE3606eB48";

fn usdc_metadata() -> TokenMetadata {
    TokenMetadata { name: "USD Coin".to_string(), symbol: "USDC".to_string(), decimals: 6 }
}

/// What the outside world answers, and how often it was asked.
struct World {
    reported_chain: Result<u64, String>,
    metadata: Result<TokenMetadata, String>,
    chain_queries: usize,
    fetches: usize,
    saves: usize,
}

impl World {
    fn new(reported_chain: Result<u64, String>, metadata: Result<TokenMetadata, String>) -> World {
        World { reported_chain, metadata, chain_queries: 0, fetches: 0, saves: 0 }
    }
}

fn run<R: Repository<Token<EvmTokenDetails>>>(
    repo: &mut R,
    world: &mut World,
    chain_id: u64,
    address: &str,
) -> Result<Token<EvmTokenDetails>, EvmTokenServiceError> {
    let (mut res, mut action) = Resolution::start(chain_id, address)?;
    loop {
        let event = match action {
            Action::Load(id) | Action::Reload(id) => Event::Found(repo.get(&id)),
            Action::QueryChain => {
                world.chain_queries += 1;
                Event::ChainReported(world.reported_chain.clone())
            }
            Action::ReadMetadata(_) => {
                world.fetches += 1;
                Event::BatchRead(world.metadata.clone())
            }
            Action::Save(token) => {
                world.saves += 1;
                Event::Saved(repo.save(&token))
            }
            Action::Finish(result) => return result,
        };
        assert!(res.expects(&event));
        let (next, next_action) = res.step(event);
        res = next;
        action = next_action;
    }
}

#[test]
fn resolve_scenario_on_empty_store() {
    let mut repo = MemoryRepository::new();
    let mut world = World::new(Ok(1), Ok(usdc_metadata()));
    let token = run(&mut repo, &mut world, 1, USDC).unwrap();
    assert_eq!(token.id.to_string(), format!("eip155:1:{}", USDC));
    assert_eq!(token.name, "USD Coin");
    assert_eq!(token.symbol, "USDC");
    assert_eq!(token.decimals, 6);
    assert_eq!(token.details.chain_id, 1);
    assert_eq!(token.details.address, USDC);
    assert_eq!(world.fetches, 1);
    assert_eq!(world.saves, 1);
    assert_eq!(repo.len(), 1);
    let stored = repo.find(&token.id).unwrap();
    assert_eq!(stored.name, "USD Coin");
    assert_eq!(stored.decimals, 6);

    let again = run(&mut repo, &mut world, 1, USDC).unwrap();
    assert_eq!(world.fetches, 1);
    assert_eq!(world.chain_queries, 1);
    assert_eq!(world.saves, 1);
    assert!(again.id.same_as(&token.id));
    assert_eq!(again.name, token.name);
    assert_eq!(again.symbol, token.symbol);
    assert_eq!(again.decimals, 6);
}

#[test]
fn cache_aside_normalizes_the_address_case() {
    let mut repo = MemoryRepository::new();
    let mut world = World::new(Ok(1), Ok(usdc_metadata()));
    let first = run(&mut repo, &mut world, 1, USDC_LOWER).unwrap();
    let second = run(&mut repo, &mut world, 1, USDC).unwrap();
    assert_eq!(world.fetches, 1);
    assert_eq!(first.id.to_string(), format!("eip155:1:{}", USDC));
    assert!(second.id.same_as(&first.id));
    assert_eq!(repo.len(), 1);
}

#[test]
fn chain_mismatch_is_rejected_without_write() {
    let mut repo = MemoryRepository::new();
    let mut world = World::new(Ok(137), Ok(usdc_metadata()));
    let result = run(&mut repo, &mut world, 1, USDC);
    assert!(matches!(result, Err(EvmTokenServiceError::ChainIdMismatch(1, 137))));
    assert_eq!(world.fetches, 0);
    assert_eq!(world.saves, 0);
    assert_eq!(repo.len(), 0);
}

#[test]
fn malformed_address_is_rejected_before_any_work() {
    let mut repo = MemoryRepository::new();
    let mut world = World::new(Ok(1), Ok(usdc_metadata()));
    let result = run(&mut repo, &mut world, 1, "not-an-address");
    assert!(matches!(
        result,
        Err(EvmTokenServiceError::CaipIdBuildFailed(CaipError::InvalidAddress))
    ));
    assert_eq!(world.chain_queries, 0);
    assert_eq!(world.fetches, 0);
    assert_eq!(repo.len(), 0);
    assert!(Resolution::start(1, "not-an-address").is_err());
}

#[test]
fn concurrent_misses_converge_on_one_row() {
    let mut repo = MemoryRepository::new();
    let (a, load_a) = Resolution::start(1, USDC).unwrap();
    let (b, load_b) = Resolution::start(1, USDC_LOWER).unwrap();
    let (Action::Load(id_a), Action::Load(id_b)) = (load_a, load_b) else { panic!("expected loads") };
    // Both miss before either writes.
    let (a, _) = a.step(Event::Found(repo.get(&id_a)));
    let (b, _) = b.step(Event::Found(repo.get(&id_b)));
    let (a, _) = a.step(Event::ChainReported(Ok(1)));
    let (b, _) = b.step(Event::ChainReported(Ok(1)));
    let (a, save_a) = a.step(Event::BatchRead(Ok(usdc_metadata())));
    let (b, save_b) = b.step(Event::BatchRead(Ok(usdc_metadata())));
    let Action::Save(ta) = save_a else { panic!("expected a save") };
    let Action::Save(tb) = save_b else { panic!("expected a save") };
    let (_, done_a) = a.step(Event::Saved(repo.save(&ta)));
    let conflict = repo.save(&tb);
    assert!(matches!(conflict, Err(RepoError::Conflict)));
    let (b, reload) = b.step(Event::Saved(conflict));
    let Action::Reload(id) = reload else { panic!("expected a reload") };
    let (_, done_b) = b.step(Event::Found(repo.get(&id)));
    let Action::Finish(Ok(ra)) = done_a else { panic!("a failed") };
    let Action::Finish(Ok(rb)) = done_b else { panic!("b failed") };
    assert!(ra.id.same_as(&rb.id));
    assert_eq!(ra.name, rb.name);
    assert_eq!(ra.symbol, rb.symbol);
    assert_eq!(ra.decimals, rb.decimals);
    assert_eq!(repo.len(), 1);
}

#[test]
fn many_concurrent_misses_return_identical_records() {
    let mut repo = MemoryRepository::new();
    let mut pending = Vec::new();
    for _ in 0..4 {
        let (r, load) = Resolution::start(1, USDC).unwrap();
        let Action::Load(id) = load else { panic!("expected a load") };
        let (r, _) = r.step(Event::Found(repo.get(&id)));
        let (r, _) = r.step(Event::ChainReported(Ok(1)));
        pending.push(r.step(Event::BatchRead(Ok(usdc_metadata()))));
    }
    let mut results = Vec::new();
    for (r, action) in pending {
        let Action::Save(t) = action else { panic!("expected a save") };
        let (mut r, mut action) = r.step(Event::Saved(repo.save(&t)));
        while let Action::Reload(id) = action {
            let (nr, na) = r.step(Event::Found(repo.get(&id)));
            r = nr;
            action = na;
        }
        let Action::Finish(Ok(token)) = action else { panic!("resolution failed") };
        results.push(token);
    }
    assert_eq!(repo.len(), 1);
    for t in &results {
        assert!(t.id.same_as(&results[0].id));
        assert_eq!(t.name, "USD Coin");
        assert_eq!(t.symbol, "USDC");
        assert_eq!(t.decimals, 6);
    }
}

#[test]
fn connect_failure_is_a_chain_error() {
    let mut repo = MemoryRepository::new();
    let mut world = World::new(Err("connection refused".to_string()), Ok(usdc_metadata()));
    let result = run(&mut repo, &mut world, 1, USDC);
    assert!(matches!(result, Err(EvmTokenServiceError::Chain(m)) if m == "connection refused"));
    assert_eq!(world.fetches, 0);
    assert_eq!(repo.len(), 0);
}

#[test]
fn batch_failure_is_a_multicall_error() {
    let mut repo = MemoryRepository::new();
    let mut world = World::new(Ok(1), Err("execution reverted".to_string()));
    let result = run(&mut repo, &mut world, 1, USDC);
    assert!(matches!(result, Err(EvmTokenServiceError::Multicall(m)) if m == "execution reverted"));
    assert_eq!(world.fetches, 1);
    assert_eq!(world.saves, 0);
    assert_eq!(repo.len(), 0);
}

#[test]
fn storage_failure_on_lookup_is_reported() {
    let (r, _) = Resolution::start(1, USDC).unwrap();
    let (r, action) = r.step(Event::Found(Err(RepoError::Backend("pool exhausted".to_string()))));
    assert!(matches!(
        action,
        Action::Finish(Err(EvmTokenServiceError::Repository(RepoError::Backend(_))))
    ));
    assert!(!r.expects(&Event::Found(Ok(None))));
}

#[test]
fn storage_failure_on_save_is_reported() {
    let (r, _) = Resolution::start(1, USDC).unwrap();
    let (r, _) = r.step(Event::Found(Ok(None)));
    let (r, _) = r.step(Event::ChainReported(Ok(1)));
    let (r, _) = r.step(Event::BatchRead(Ok(usdc_metadata())));
    let (_, action) = r.step(Event::Saved(Err(RepoError::Backend("disk full".to_string()))));
    assert!(matches!(
        action,
        Action::Finish(Err(EvmTokenServiceError::Repository(RepoError::Backend(_))))
    ));
}

#[test]
fn conflict_then_missing_record_is_not_found() {
    let (r, _) = Resolution::start(1, USDC).unwrap();
    let (r, _) = r.step(Event::Found(Ok(None)));
    let (r, _) = r.step(Event::ChainReported(Ok(1)));
    let (r, _) = r.step(Event::BatchRead(Ok(usdc_metadata())));
    let (r, action) = r.step(Event::Saved(Err(RepoError::Conflict)));
    assert!(matches!(action, Action::Reload(_)));
    let (_, action) = r.step(Event::Found(Ok(None)));
    assert!(matches!(
        action,
        Action::Finish(Err(EvmTokenServiceError::Repository(RepoError::NotFound)))
    ));
}

#[test]
fn service_begins_with_a_load() {
    let service = EvmTokenService::new(MemoryRepository::new());
    let (res, action) = service.begin(10, USDC_LOWER).unwrap();
    assert_eq!(res.address, USDC);
    assert!(matches!(action, Action::Load(id) if id.to_string() == format!("eip155:10:{}", USDC)));
    assert!(service.begin(10, "0x00").is_err());
}

fn usdc_token(chain_id: u64) -> Token<EvmTokenDetails> {
    Token {
        id: evm_token_id(chain_id, USDC).unwrap(),
        name: "USD Coin".to_string(),
        symbol: "USDC".to_string(),
        decimals: 6,
        details: EvmTokenDetails { chain_id, address: USDC.to_string() },
    }
}

#[test]
fn memory_repository_refuses_a_second_insert() {
    let mut repo = MemoryRepository::new();
    assert!(repo.insert(&usdc_token(1)).is_ok());
    assert!(matches!(repo.insert(&usdc_token(1)), Err(RepoError::Conflict)));
    assert!(repo.insert(&usdc_token(137)).is_ok());
    assert_eq!(repo.len(), 2);
    assert!(repo.get(&evm_token_id(5, USDC).unwrap()).unwrap().is_none());
}

#[test]
fn row_round_trip() {
    let token = usdc_token(137);
    let row = DbEvmToken::from_token(&token).unwrap();
    assert_eq!(row.id, format!("eip155:137:{}", USDC));
    assert_eq!(row.chain_id, 137);
    assert_eq!(row.address, USDC);
    assert_eq!(row.decimals, 6);
    let back = row.to_token().unwrap();
    assert!(back.id.same_as(&token.id));
    assert_eq!(back.name, "USD Coin");
    assert_eq!(back.symbol, "USDC");
    assert_eq!(back.decimals, 6);
    assert_eq!(back.details.chain_id, 137);
}

#[test]
fn row_rejects_chain_ids_beyond_the_column() {
    let token = usdc_token(1u64 << 31);
    match DbEvmToken::from_token(&token) {
        Err(RepoError::Backend(m)) => assert_eq!(m, "Failed to parse chain id: 2147483648"),
        other => panic!("unexpected {:?}", other),
    }
    let token = usdc_token(4294967296);
    assert!(matches!(DbEvmToken::from_token(&token), Err(RepoError::Backend(_))));
    assert_eq!(DbEvmToken::from_token(&usdc_token(i32::MAX as u64)).unwrap().chain_id, i32::MAX);
}

#[test]
fn row_columns_come_from_the_identifier() {
    let mut token = usdc_token(137);
    token.details.chain_id = 5;
    token.details.address = "0x4b20993Bc481177ec7E8f571ceCaE8A9e22C02db".to_string();
    let row = DbEvmToken::from_token(&token).unwrap();
    assert_eq!(row.id, format!("eip155:137:{}", USDC));
    assert_eq!(row.chain_id, 137);
    assert_eq!(row.address, USDC);
    let mut repo = MemoryRepository::new();
    assert!(repo.insert(&token).is_ok());
}

#[test]
fn corrupt_rows_are_backend_errors() {
    let good = DbEvmToken::from_token(&usdc_token(1)).unwrap();
    let mut wide = good.clone();
    wide.decimals = 256;
    assert!(matches!(wide.to_token(), Err(RepoError::Backend(_))));
    let mut negative = good.clone();
    negative.decimals = -1;
    assert!(matches!(negative.to_token(), Err(RepoError::Backend(_))));
    let mut chain = good.clone();
    chain.chain_id = -1;
    assert!(matches!(chain.to_token(), Err(RepoError::Backend(_))));
    let mut key = good.clone();
    key.chain_id = 2;
    assert!(matches!(key.to_token(), Err(RepoError::Backend(_))));
    let mut address = good.clone();
    address.address = "nowhere".to_string();
    assert!(matches!(address.to_token(), Err(RepoError::Backend(_))));
    let mut edge = good.clone();
    edge.decimals = 255;
    assert_eq!(edge.to_token().unwrap().decimals, 255);
}

#[test]
fn stored_usdc_row_reads_back() {
    let row = DbEvmToken {
        id: format!("eip155:1:{}", USDC),
        chain_id: 1,
        address: USDC.to_string(),
        symbol: "USDC".to_string(),
        decimals: 6,
        name: "USD Coin".to_string(),
    };
    let t = row.to_token().unwrap();
    assert_eq!(t.id.to_string(), format!("eip155:1:{}", USDC));
    assert_eq!(t.name, "USD Coin");
    assert_eq!(t.symbol, "USDC");
    assert_eq!(t.decimals, 6);
    assert_eq!(t.details.chain_id, 1);
    assert_eq!(t.details.address, USDC);
}

#[test]
fn record_with_id_checks_the_key() {
    let row = DbEvmToken::from_token(&usdc_token(1)).unwrap();
    let t = row.record_with_id(evm_token_id(1, USDC).unwrap()).unwrap();
    assert_eq!(t.name, "USD Coin");
    let mut other = row.clone();
    other.id = format!("eip155:2:{}", USDC);
    match other.record_with_id(evm_token_id(1, USDC).unwrap()) {
        Err(RepoError::Backend(m)) => assert_eq!(m, "stored key does not match chain id and address"),
        r => panic!("unexpected {:?}", r),
    }
}
