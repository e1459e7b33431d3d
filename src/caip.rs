//! Chain-agnostic account identifiers of the form `namespace:reference:address`.

use vstd::prelude::*;
use vstd::string::*;

verus! {

/// A character allowed in a namespace: a lower-case ASCII letter, a digit or `-`.
pub open spec fn is_namespace_char(c: char) -> bool {
    ('a' <= c && c <= 'z') || ('0' <= c && c <= '9') || c == '-'
}

/// A character allowed in a chain reference or an account address:
/// an ASCII letter of either case, a digit or `-`.
pub open spec fn is_reference_char(c: char) -> bool {
    ('a' <= c && c <= 'z') || ('A' <= c && c <= 'Z') || ('0' <= c && c <= '9') || c == '-'
}

pub open spec fn valid_namespace(s: Seq<char>) -> bool {
    3 <= s.len() <= 8 && forall|i: int| 0 <= i < s.len() ==> is_namespace_char(#[trigger] s[i])
}

pub open spec fn valid_reference(s: Seq<char>) -> bool {
    1 <= s.len() <= 32 && forall|i: int| 0 <= i < s.len() ==> is_reference_char(#[trigger] s[i])
}

pub open spec fn valid_address(s: Seq<char>) -> bool {
    1 <= s.len() <= 64 && forall|i: int| 0 <= i < s.len() ==> is_reference_char(#[trigger] s[i])
}

/// The reference syntax that a chain identifier alone admits (up to 64 characters).
pub open spec fn valid_chain_reference(s: Seq<char>) -> bool {
    1 <= s.len() <= 64 && forall|i: int| 0 <= i < s.len() ==> is_reference_char(#[trigger] s[i])
}

/// The three parts of an account identifier.
pub struct TokenIdView {
    pub namespace: Seq<char>,
    pub reference: Seq<char>,
    pub address: Seq<char>,
}

impl TokenIdView {
    pub open spec fn wf(self) -> bool {
        valid_namespace(self.namespace) && valid_reference(self.reference) && valid_address(
            self.address,
        )
    }

    /// The canonical text `namespace:reference:address`.
    pub open spec fn text(self) -> Seq<char> {
        self.namespace + seq![':'] + self.reference + seq![':'] + self.address
    }
}

/// Whether `s` is the canonical text of some well-formed identifier.
pub open spec fn is_account_text(s: Seq<char>) -> bool {
    exists|v: TokenIdView| v.wf() && v.text() == s
}

/// Why an identifier could not be built or read.
#[derive(Debug, Clone, Copy, PartialEq, Eq, Structural)]
pub enum CaipError {
    InvalidNamespace,
    InvalidReference,
    InvalidAddress,
    InvalidAccountId,
}

/// A chain-agnostic account identifier, the key of a token; its parts always satisfy the grammar.
#[derive(Debug, Clone)]
pub struct TokenId {
    namespace: String,
    reference: String,
    address: String,
}

impl View for TokenId {
    type V = TokenIdView;

    closed spec fn view(&self) -> TokenIdView {
        TokenIdView { namespace: self.namespace@, reference: self.reference@, address: self.address@ }
    }
}

fn all_chars(s: &str, lower_only: bool) -> (r: bool)
    ensures
        r == (forall|i: int|
            0 <= i < s@.len() ==> (if lower_only {
                is_namespace_char(#[trigger] s@[i])
            } else {
                is_reference_char(s@[i])
            })),
{
    let n = s.unicode_len();
    let mut i: usize = 0;
    while i < n
        invariant
            n == s@.len(),
            i <= n,
            forall|k: int|
                0 <= k < i ==> (if lower_only {
                    is_namespace_char(#[trigger] s@[k])
                } else {
                    is_reference_char(s@[k])
                }),
        decreases n - i,
    {
        let c = s.get_char(i);
        let ok = if lower_only {
            ('a' <= c && c <= 'z') || ('0' <= c && c <= '9') || c == '-'
        } else {
            ('a' <= c && c <= 'z') || ('A' <= c && c <= 'Z') || ('0' <= c && c <= '9') || c
                == '-'
        };
        if !ok {
            return false;
        }
        i = i + 1;
    }
    true
}

pub fn is_valid_namespace(s: &str) -> (r: bool)
    ensures
        r == valid_namespace(s@),
{
    let n = s.unicode_len();
    3 <= n && n <= 8 && all_chars(s, true)
}

pub fn is_valid_reference(s: &str) -> (r: bool)
    ensures
        r == valid_reference(s@),
{
    let n = s.unicode_len();
    1 <= n && n <= 32 && all_chars(s, false)
}

pub fn is_valid_address(s: &str) -> (r: bool)
    ensures
        r == valid_address(s@),
{
    let n = s.unicode_len();
    1 <= n && n <= 64 && all_chars(s, false)
}


#[verifier::external_type_specification]
#[verifier::external_body]
pub struct ExCaipChainId(tap_caip::ChainId);

#[verifier::external_type_specification]
#[verifier::external_body]
pub struct ExCaipAccountId(tap_caip::AccountId);

#[verifier::external_type_specification]
#[verifier::external_body]
pub struct ExCaipError(tap_caip::Error);

/// Relies on `tap_caip::ChainId::new`: it accepts exactly a namespace matching
/// `^[-a-z0-9]{3,8}$` together with a reference matching `^[-a-zA-Z0-9]{1,64}$`.
pub assume_specification[ tap_caip::ChainId::new ](
    namespace: &str,
    reference: &str,
) -> (r: Result<tap_caip::ChainId, tap_caip::Error>)
    ensures
        (r is Ok) == (valid_namespace(namespace@) && valid_chain_reference(reference@)),
;

/// Relies on `tap_caip::AccountId::new`: an address it accepts matches
/// `^[-a-zA-Z0-9]{1,64}$`; the validator registered for the namespace
/// (for `eip155`: `0x` and 40 hex digits) may refuse more.
pub assume_specification[ tap_caip::AccountId::new ](
    chain_id: tap_caip::ChainId,
    address: &str,
) -> (r: Result<tap_caip::AccountId, tap_caip::Error>)
    ensures
        r is Ok ==> valid_address(address@),
;

/// Relies on `tap_caip::AccountId`'s `from_str`: it first requires the whole
/// text to match `^[-a-z0-9]{3,8}:[-a-zA-Z0-9]{1,32}:[-a-zA-Z0-9]{1,64}$`
/// (then the namespace's registered validator may refuse the address).
pub assume_specification[ <tap_caip::AccountId as core::str::FromStr>::from_str ](
    s: &str,
) -> (r: Result<tap_caip::AccountId, <tap_caip::AccountId as core::str::FromStr>::Err>)
    ensures
        r is Ok ==> is_account_text(s@),
;

/// The facts about the canonical text of a well-formed identifier that
/// reading it relies on: where its two separators stand and that no other
/// character is a separator.
pub proof fn lemma_text_layout(v: TokenIdView)
    requires
        v.wf(),
    ensures
        ({
            let s = v.text();
            let a = v.namespace.len() as int;
            let b = a + 1 + v.reference.len();
            &&& s.len() == b + 1 + v.address.len()
            &&& s[a] == ':'
            &&& s[b] == ':'
            &&& forall|m: int| 0 <= m < a ==> s[m] != ':'
            &&& forall|m: int| a < m < b ==> s[m] != ':'
            &&& forall|m: int| b < m < s.len() ==> s[m] != ':'
            &&& s.subrange(0, a) == v.namespace
            &&& s.subrange(a + 1, b) == v.reference
            &&& s.subrange(b + 1, s.len() as int) == v.address
        }),
{
    let s = v.text();
    let a = v.namespace.len() as int;
    let b = a + 1 + v.reference.len();
    assert forall|m: int| 0 <= m < a implies s[m] != ':' by {
        assert(s[m] == v.namespace[m]);
        assert(is_namespace_char(v.namespace[m]));
    }
    assert forall|m: int| a < m < b implies s[m] != ':' by {
        assert(s[m] == v.reference[m - a - 1]);
        assert(is_reference_char(v.reference[m - a - 1]));
    }
    assert forall|m: int| b < m < s.len() implies s[m] != ':' by {
        assert(s[m] == v.address[m - b - 1]);
        assert(is_reference_char(v.address[m - b - 1]));
    }
    assert(s.subrange(0, a) =~= v.namespace);
    assert(s.subrange(a + 1, b) =~= v.reference);
    assert(s.subrange(b + 1, s.len() as int) =~= v.address);
}

/// Round trip of the canonical text: the text of a well-formed identifier is
/// accepted by the grammar, and every well-formed identifier with that text
/// is the same identifier, so reading it back yields the same parts.
pub proof fn lemma_round_trip(v: TokenIdView, w: TokenIdView)
    requires
        v.wf(),
        w.wf(),
        w.text() == v.text(),
    ensures
        is_account_text(v.text()),
        w == v,
{
    lemma_text_layout(v);
    lemma_text_layout(w);
    let s = v.text();
    let av = v.namespace.len() as int;
    let aw = w.namespace.len() as int;
    if av < aw {
        assert(s[av] == ':');
    } else if aw < av {
        assert(s[aw] == ':');
    }
    let bv = av + 1 + v.reference.len();
    let bw = aw + 1 + w.reference.len();
    if bv < bw {
        assert(s[bv] == ':');
    } else if bw < bv {
        assert(s[bw] == ':');
    }
}

/// The first `:` at or after `from`, if any.
fn find_colon(s: &str, from: usize) -> (r: Option<usize>)
    requires
        from <= s@.len(),
    ensures
        match r {
            Some(k) => from <= k < s@.len() && s@[k as int] == ':' && forall|m: int|
                from <= m < k ==> s@[m] != ':',
            None => forall|m: int| from <= m < s@.len() ==> s@[m] != ':',
        },
{
    let n = s.unicode_len();
    let mut i = from;
    while i < n
        invariant
            n == s@.len(),
            from <= i <= n,
            forall|m: int| from <= m < i ==> s@[m] != ':',
        decreases n - i,
    {
        if s.get_char(i) == ':' {
            return Some(i);
        }
        i = i + 1;
    }
    None
}

impl TokenId {
    /// A copy equal to this identifier.
    pub fn duplicate(&self) -> (r: TokenId)
        ensures
            r == *self,
    {
        TokenId {
            namespace: self.namespace.clone(),
            reference: self.reference.clone(),
            address: self.address.clone(),
        }
    }

    /// Whether two identifiers have the same parts.
    pub fn same_as(&self, other: &TokenId) -> (r: bool)
        ensures
            r == (self@ == other@),
    {
        self.namespace == other.namespace && self.reference == other.reference && self.address
            == other.address
    }

    pub fn namespace(&self) -> (r: &str)
        ensures
            r@ == self@.namespace,
    {
        self.namespace.as_str()
    }

    pub fn reference(&self) -> (r: &str)
        ensures
            r@ == self@.reference,
    {
        self.reference.as_str()
    }

    pub fn address(&self) -> (r: &str)
        ensures
            r@ == self@.address,
    {
        self.address.as_str()
    }

    /// Builds an identifier from its three parts. Each part is checked against
    /// the grammar, and the identifier is then checked by tap-caip, whose
    /// validator for the namespace may refuse the address further.
    pub fn new(namespace: &str, reference: &str, address: &str) -> (r: Result<TokenId, CaipError>)
        ensures
            !valid_namespace(namespace@) ==> r == Err::<TokenId, CaipError>(
                CaipError::InvalidNamespace,
            ),
            valid_namespace(namespace@) && !valid_reference(reference@) ==> r == Err::<
                TokenId,
                CaipError,
            >(CaipError::InvalidReference),
            valid_namespace(namespace@) && valid_reference(reference@) && !valid_address(address@)
                ==> r == Err::<TokenId, CaipError>(CaipError::InvalidAddress),
            r is Err && valid_namespace(namespace@) && valid_reference(reference@) && valid_address(
                address@,
            ) ==> r == Err::<TokenId, CaipError>(CaipError::InvalidAddress),
            r matches Ok(id) ==> id@ == (TokenIdView {
                namespace: namespace@,
                reference: reference@,
                address: address@,
            }),
    {
        if !is_valid_namespace(namespace) {
            return Err(CaipError::InvalidNamespace);
        }
        if !is_valid_reference(reference) {
            return Err(CaipError::InvalidReference);
        }
        if !is_valid_address(address) {
            return Err(CaipError::InvalidAddress);
        }
        let chain = match tap_caip::ChainId::new(namespace, reference) {
            Ok(c) => c,
            Err(_) => {
                return Err(CaipError::InvalidReference);
            },
        };
        match tap_caip::AccountId::new(chain, address) {
            Ok(_) => {},
            Err(_) => {
                return Err(CaipError::InvalidAddress);
            },
        }
        Ok(
            TokenId {
                namespace: String::from_str(namespace),
                reference: String::from_str(reference),
                address: String::from_str(address),
            },
        )
    }

    /// The canonical text `namespace:reference:address`.
    pub fn to_string(&self) -> (r: String)
        ensures
            r@ == self@.text(),
    {
        let sep = ":";
        proof {
            reveal_strlit(":");
        }
        let mut r = String::from_str(self.namespace.as_str());
        r.append(sep);
        r.append(self.reference.as_str());
        r.append(sep);
        r.append(self.address.as_str());
        assert(r@ =~= self@.text());
        r
    }

    /// Reads the canonical text. tap-caip checks it (the three-part grammar,
    /// then the namespace's address validator); the parts are then split out
    /// by `split_account_text`. Fails on any text outside the grammar.
    pub fn parse(s: &str) -> (r: Result<TokenId, CaipError>)
        ensures
            r matches Ok(id) ==> id@.wf() && id@.text() == s@,
            !is_account_text(s@) ==> r is Err,
            r is Err ==> r == Err::<TokenId, CaipError>(CaipError::InvalidAccountId),
    {
        match <tap_caip::AccountId as std::str::FromStr>::from_str(s) {
            Ok(_) => {},
            Err(_) => {
                return Err(CaipError::InvalidAccountId);
            },
        }
        match split_account_text(s) {
            Some(id) => Ok(id),
            None => Err(CaipError::InvalidAccountId),
        }
    }
}

/// Splits a canonical text into the identifier it spells: `Some` exactly on
/// the texts of the three-part grammar, with the parts whose text it is.
pub fn split_account_text(s: &str) -> (r: Option<TokenId>)
    ensures
        (r is Some) == is_account_text(s@),
        r matches Some(id) ==> id@.wf() && id@.text() == s@,
{
    let n = s.unicode_len();
    let i = match find_colon(s, 0) {
        Some(i) => i,
        None => {
            proof {
                if is_account_text(s@) {
                    let v = choose|v: TokenIdView| v.wf() && v.text() == s@;
                    lemma_text_layout(v);
                    assert(s@[v.namespace.len() as int] == ':');
                }
            }
            return None;
        },
    };
    let j = match find_colon(s, i + 1) {
        Some(j) => j,
        None => {
            proof {
                if is_account_text(s@) {
                    let v = choose|v: TokenIdView| v.wf() && v.text() == s@;
                    lemma_text_layout(v);
                    let a = v.namespace.len() as int;
                    assert(s@[a] == ':');
                    assert(i == a);
                    assert(s@[a + 1 + v.reference.len()] == ':');
                }
            }
            return None;
        },
    };
    let ns = s.substring_char(0, i);
    let reference = s.substring_char(i + 1, j);
    let address = s.substring_char(j + 1, n);
    let ghost parts = TokenIdView { namespace: ns@, reference: reference@, address: address@ };
    if is_valid_namespace(ns) && is_valid_reference(reference) && is_valid_address(address) {
        assert(parts.text() =~= s@);
        Some(
            TokenId {
                namespace: String::from_str(ns),
                reference: String::from_str(reference),
                address: String::from_str(address),
            },
        )
    } else {
        proof {
            if is_account_text(s@) {
                let v = choose|v: TokenIdView| v.wf() && v.text() == s@;
                lemma_text_layout(v);
                let a = v.namespace.len() as int;
                let b = a + 1 + v.reference.len();
                assert(s@[a] == ':');
                assert(i == a);
                assert(s@[b] == ':');
                assert(j == b);
                assert(ns@ == v.namespace);
                assert(reference@ == v.reference);
                assert(address@ == v.address);
            }
        }
        None
    }
}

} // verus!
