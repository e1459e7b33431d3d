//! Token records: universal fields plus ecosystem-specific details.

use vstd::prelude::*;
use vstd::string::*;

use crate::caip::{TokenId, TokenIdView, CaipError, valid_address, valid_namespace, valid_reference};
use crate::evm::{decimal, decimal_text};

verus! {

/// The namespace of EVM chains.
pub const EVM_NAMESPACE: &'static str = "eip155";

pub open spec fn evm_namespace() -> Seq<char> {
    seq!['e', 'i', 'p', '1', '5', '5']
}

/// The identifier of an EVM account: `eip155`, the decimal chain id, the address text.
pub open spec fn evm_id(chain_id: u64, address: Seq<char>) -> TokenIdView {
    TokenIdView { namespace: evm_namespace(), reference: decimal(chain_id as nat), address }
}

pub open spec fn pow10(k: nat) -> nat
    decreases k,
{
    if k == 0 {
        1
    } else {
        10 * pow10((k - 1) as nat)
    }
}

proof fn lemma_decimal_len(n: nat, k: nat)
    requires
        n < pow10(k),
        k >= 1,
    ensures
        decimal(n).len() <= k,
        decimal(n).len() >= 1,
        forall|i: int| 0 <= i < decimal(n).len() ==> '0' <= #[trigger] decimal(n)[i] <= '9',
    decreases n,
{
    if n >= 10 {
        let j = (k - 1) as nat;
        assert(pow10(k) == 10 * pow10(j));
        assert(n / 10 < pow10(j)) by (nonlinear_arith)
            requires
                n < 10 * pow10(j),
        ;
        assert(j >= 1) by {
            if j == 0 {
                assert(pow10(0) == 1);
            }
        }
        lemma_decimal_len(n / 10, j);
        let d = decimal(n);
        assert forall|i: int| 0 <= i < d.len() implies '0' <= #[trigger] d[i] <= '9' by {
            if i < d.len() - 1 {
                assert(d[i] == decimal(n / 10)[i]);
            }
        }
    }
}

/// The decimal text of a chain id is a valid chain reference.
pub proof fn lemma_decimal_reference(n: u64)
    ensures
        valid_reference(decimal(n as nat)),
{
    reveal_with_fuel(pow10, 21);
    assert(pow10(20) == 100000000000000000000nat);
    lemma_decimal_len(n as nat, 20);
}

/// Builds the identifier of an EVM account from a chain id and an address
/// text. Only the address can be refused.
pub fn evm_token_id(chain_id: u64, address: &str) -> (r: Result<TokenId, CaipError>)
    ensures
        r matches Ok(id) ==> id@ == evm_id(chain_id, address@),
        r is Err ==> r == Err::<TokenId, CaipError>(CaipError::InvalidAddress),
        !valid_address(address@) ==> r is Err,
{
    let reference = decimal_text(chain_id);
    proof {
        reveal_strlit("eip155");
        assert(EVM_NAMESPACE@ =~= evm_namespace());
        assert(valid_namespace(evm_namespace()));
        lemma_decimal_reference(chain_id);
    }
    TokenId::new(EVM_NAMESPACE, reference.as_str(), address)
}

/// EVM-specific details of a token: the chain id and the checksummed contract address.
#[derive(Debug, Clone)]
pub struct EvmTokenDetails {
    pub chain_id: u64,
    pub address: String,
}

impl EvmTokenDetails {
    pub fn duplicate(&self) -> (r: EvmTokenDetails)
        ensures
            r == *self,
    {
        EvmTokenDetails { chain_id: self.chain_id, address: self.address.clone() }
    }
}

/// Solana-specific details of a token: the base58 address text.
#[derive(Debug, Clone)]
pub struct SolanaTokenDetails {
    address: String,
}

impl View for SolanaTokenDetails {
    type V = Seq<char>;

    closed spec fn view(&self) -> Seq<char> {
        self.address@
    }
}

impl SolanaTokenDetails {
    pub fn new(address: String) -> (r: SolanaTokenDetails)
        ensures
            r@ == address@,
    {
        SolanaTokenDetails { address }
    }

    pub fn address(&self) -> (r: &str)
        ensures
            r@ == self@,
    {
        self.address.as_str()
    }
}

/// A token record: identifier, name, symbol, decimal precision, and the
/// details of its ecosystem.
#[derive(Debug, Clone)]
pub struct Token<T> {
    pub id: TokenId,
    pub name: String,
    pub symbol: String,
    pub decimals: u8,
    pub details: T,
}

impl Token<EvmTokenDetails> {
    /// The identifier agrees with the chain id and address of the details.
    pub open spec fn consistent(&self) -> bool {
        self.id@ == evm_id(self.details.chain_id, self.details.address@)
    }

    pub fn duplicate(&self) -> (r: Token<EvmTokenDetails>)
        ensures
            r == *self,
    {
        Token {
            id: self.id.duplicate(),
            name: self.name.clone(),
            symbol: self.symbol.clone(),
            decimals: self.decimals,
            details: self.details.duplicate(),
        }
    }
}

} // verus!
