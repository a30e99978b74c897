//! Network tags, their canonical names and codes, and the adapter interface.

use num::{BigRational, BigUint};
use vstd::prelude::*;
use vstd::string::StrSliceExecFns;

verus! {

/// The network that an adapter targets.
#[derive(Debug, Copy, Clone, Hash, PartialEq, Eq, Structural)]
pub enum CurrencyType {
    Arweave,
    Solana,
    Ethereum,
    Erc20,
    Cosmos,
}

/// Why an operation of this layer failed.
#[derive(Debug, Copy, Clone, Hash, PartialEq, Eq, Structural)]
pub enum CurrencyError {
    /// The text is not the canonical name of a supported network.
    UnsupportedCurrency,
    /// The key cannot be decoded under the network's key scheme.
    MalformedKey,
    /// The network or its provider failed; `transient` tells a failure that
    /// may pass on a later attempt from one that will not.
    ProviderError { transient: bool },
    /// The amount or the fee is below what the network accepts.
    InsufficientAmount,
}

/// The text that `from_str` maps to a network, if any: the five canonical
/// lowercase names, compared character for character.
pub open spec fn parse(text: Seq<char>) -> Option<CurrencyType> {
    if text == "arweave"@ {
        Some(CurrencyType::Arweave)
    } else if text == "solana"@ {
        Some(CurrencyType::Solana)
    } else if text == "ethereum"@ {
        Some(CurrencyType::Ethereum)
    } else if text == "erc20"@ {
        Some(CurrencyType::Erc20)
    } else if text == "cosmos"@ {
        Some(CurrencyType::Cosmos)
    } else {
        None
    }
}

/// The network that carries the code `code`, if any.
pub open spec fn from_code(code: int) -> Option<CurrencyType> {
    if code == 1 {
        Some(CurrencyType::Arweave)
    } else if code == 2 {
        Some(CurrencyType::Solana)
    } else if code == 3 {
        Some(CurrencyType::Ethereum)
    } else if code == 4 {
        Some(CurrencyType::Erc20)
    } else if code == 5 {
        Some(CurrencyType::Cosmos)
    } else {
        None
    }
}

/// Whether two strings hold the same characters.
fn same_text(a: &str, b: &str) -> (same: bool)
    ensures
        same == (a@ == b@),
{
    let n: usize = a.unicode_len();
    if n != b.unicode_len() {
        return false;
    }
    let mut i: usize = 0;
    while i < n
        invariant
            n == a@.len(),
            n == b@.len(),
            i <= n,
            forall|j: int| 0 <= j < i ==> a@[j] == b@[j],
        decreases n - i,
    {
        if a.get_char(i) != b.get_char(i) {
            return false;
        }
        i += 1;
    }
    proof {
        assert(a@ =~= b@);
    }
    true
}

impl CurrencyType {
    /// The canonical lowercase name of the network.
    pub open spec fn spec_name(self) -> Seq<char> {
        match self {
            CurrencyType::Arweave => "arweave"@,
            CurrencyType::Solana => "solana"@,
            CurrencyType::Ethereum => "ethereum"@,
            CurrencyType::Erc20 => "erc20"@,
            CurrencyType::Cosmos => "cosmos"@,
        }
    }

    /// The fixed code of the network, as it is stored and sent.
    pub open spec fn spec_code(self) -> int {
        match self {
            CurrencyType::Arweave => 1,
            CurrencyType::Solana => 2,
            CurrencyType::Ethereum => 3,
            CurrencyType::Erc20 => 4,
            CurrencyType::Cosmos => 5,
        }
    }

    /// Reads a network from its canonical name. The match is exact: another
    /// casing, an alias or surrounding white space is refused.
    pub fn from_str(input: &str) -> (r: Result<CurrencyType, CurrencyError>)
        ensures
            r == match parse(input@) {
                Some(kind) => Ok::<CurrencyType, CurrencyError>(kind),
                None => Err(CurrencyError::UnsupportedCurrency),
            },
            forall|kind: CurrencyType|
                r == Ok::<CurrencyType, CurrencyError>(kind) <==> input@ == #[trigger] kind.spec_name(),
            r is Err <==> forall|kind: CurrencyType| input@ != #[trigger] kind.spec_name(),
    {
        proof {
            assert forall|kind: CurrencyType|
                parse(input@) == Some(kind) <==> input@ == #[trigger] kind.spec_name() by {
                lemma_parse_exact(input@, kind);
            }
            lemma_parse_exact(input@, CurrencyType::Arweave);
        }
        if same_text(input, "arweave") {
            Ok(CurrencyType::Arweave)
        } else if same_text(input, "solana") {
            Ok(CurrencyType::Solana)
        } else if same_text(input, "ethereum") {
            Ok(CurrencyType::Ethereum)
        } else if same_text(input, "erc20") {
            Ok(CurrencyType::Erc20)
        } else if same_text(input, "cosmos") {
            Ok(CurrencyType::Cosmos)
        } else {
            Err(CurrencyError::UnsupportedCurrency)
        }
    }

    /// The canonical name, as an owned string.
    pub fn to_string(&self) -> (s: String)
        ensures
            s@ == self.spec_name(),
    {
        match self {
            CurrencyType::Arweave => "arweave".to_owned(),
            CurrencyType::Solana => "solana".to_owned(),
            CurrencyType::Ethereum => "ethereum".to_owned(),
            CurrencyType::Erc20 => "erc20".to_owned(),
            CurrencyType::Cosmos => "cosmos".to_owned(),
        }
    }

    /// The fixed code of the network.
    pub fn code(&self) -> (c: u8)
        ensures
            c == self.spec_code(),
    {
        match self {
            CurrencyType::Arweave => 1,
            CurrencyType::Solana => 2,
            CurrencyType::Ethereum => 3,
            CurrencyType::Erc20 => 4,
            CurrencyType::Cosmos => 5,
        }
    }

    /// The network with the code `n`; `None` where no network has it.
    pub fn from_u64(n: u64) -> (r: Option<CurrencyType>)
        ensures
            r == from_code(n as int),
    {
        if n == 1 {
            Some(CurrencyType::Arweave)
        } else if n == 2 {
            Some(CurrencyType::Solana)
        } else if n == 3 {
            Some(CurrencyType::Ethereum)
        } else if n == 4 {
            Some(CurrencyType::Erc20)
        } else if n == 5 {
            Some(CurrencyType::Cosmos)
        } else {
            None
        }
    }

    /// The network with the code `n`; `None` where no network has it, so for
    /// every negative `n`.
    pub fn from_i64(n: i64) -> (r: Option<CurrencyType>)
        ensures
            r == from_code(n as int),
    {
        if 1 <= n && n <= 5 {
            Self::from_u64(n as u64)
        } else {
            None
        }
    }
}

impl core::str::FromStr for CurrencyType {
    type Err = CurrencyError;

    fn from_str(input: &str) -> (r: Result<CurrencyType, CurrencyError>)
        ensures
            r == match parse(input@) {
                Some(kind) => Ok::<CurrencyType, CurrencyError>(kind),
                None => Err(CurrencyError::UnsupportedCurrency),
            },
    {
        CurrencyType::from_str(input)
    }
}

/// `num::BigUint`, an unsigned integer of any size: the type of amounts, fees
/// and heights. Nothing is stated of its value here; it is handed through.
#[verifier::external_type_specification]
#[verifier::external_body]
pub struct ExBigUint(num::BigUint);

/// `num::BigInt`, a signed integer of any size: the numerator and denominator
/// of a fee multiplier.
#[verifier::external_type_specification]
#[verifier::external_body]
pub struct ExBigInt(num::BigInt);

/// `num::rational::Ratio`, an exact fraction: the type of a fee multiplier.
#[verifier::external_type_specification]
#[verifier::external_body]
#[verifier::reject_recursive_types(T)]
pub struct ExRatio<T>(num::rational::Ratio<T>);

impl CurrencyError {
    /// Whether the failure lies with the network or its provider.
    pub open spec fn is_provider_failure(self) -> bool {
        self is ProviderError
    }

    /// Whether the failure is one that building or sending a transaction may
    /// give: a provider's failure, or an amount below the network's minimum.
    pub open spec fn is_submission_failure(self) -> bool {
        self is ProviderError || self is InsufficientAmount
    }
}

/// What every network adapter offers: identity, pricing, fees, and the
/// building and sending of transactions. An adapter holds its configuration
/// and a borrowed signer and nothing that a call changes, so every operation
/// takes `&self`. Amounts, fees and heights are unsigned integers of any
/// size, so none is ever negative, and a fee multiplier is an exact fraction.
///
/// The clauses below bind an implementation that is verified; of any other
/// they say what its callers expect.
pub trait Currency {
    /// The chain-agnostic description of a transaction.
    type Tx;

    /// The signing capability that the adapter borrows.
    type Signer;

    /// The network that this adapter targets.
    fn get_type(&self) -> CurrencyType;

    /// Whether the network asks for a fee apart from the amount sent.
    fn needs_fee(&self) -> bool;

    /// Describes the transaction `tx_id` from what the adapter holds of it.
    fn get_tx(&self, tx_id: String) -> Result<Self::Tx, CurrencyError>;

    /// The wallet address that belongs to the public key `owner`. A key that
    /// the network's scheme cannot decode is refused as malformed, and
    /// nothing else is.
    fn owner_to_address(&self, owner: String) -> (r: Result<String, CurrencyError>)
        ensures
            r matches Err(e) ==> e == CurrencyError::MalformedKey,
    ;

    /// The signer that this adapter uses.
    fn get_signer(&self) -> &Self::Signer;

    /// The identifier that the network gives the item.
    fn get_id(&self, item: ()) -> (r: Result<String, CurrencyError>)
        ensures
            r matches Err(e) ==> e.is_provider_failure(),
    ;

    /// The current price of the currency, as decimal text.
    fn price(&self) -> (r: Result<String, CurrencyError>)
        ensures
            r matches Err(e) ==> e.is_provider_failure(),
    ;

    /// The current height of the ledger.
    fn get_current_height(&self) -> (r: Result<BigUint, CurrencyError>)
        ensures
            r matches Err(e) ==> e.is_provider_failure(),
    ;

    /// The fee for sending `amount` to `to`, in the unit of `amount`, scaled
    /// by `multiplier`; without a multiplier the fee is not scaled.
    fn get_fee(&self, amount: &BigUint, to: &str, multiplier: Option<BigRational>) -> (r: Result<
        BigUint,
        CurrencyError,
    >)
        ensures
            r matches Err(e) ==> e.is_provider_failure(),
    ;

    /// Builds the transaction that sends `amount` to `to` for the fee `fee`.
    fn create_tx(&self, amount: &BigUint, to: &str, fee: &BigUint) -> (r: Result<
        Self::Tx,
        CurrencyError,
    >)
        ensures
            r matches Err(e) ==> e.is_submission_failure(),
    ;

    /// Hands the serialized transaction to the network, once. `Ok` means that
    /// the network took it, so it never holds `false`.
    fn send_tx(&self, data: Vec<u8>) -> (r: Result<bool, CurrencyError>)
        ensures
            r matches Ok(accepted) ==> accepted,
            r matches Err(e) ==> e.is_submission_failure(),
    ;
}

/// Two networks have the same name only if they are the same network.
pub proof fn lemma_names_distinct(a: CurrencyType, b: CurrencyType)
    ensures
        a.spec_name() == b.spec_name() <==> a == b,
{
    reveal_strlit("arweave");
    reveal_strlit("solana");
    reveal_strlit("ethereum");
    reveal_strlit("erc20");
    reveal_strlit("cosmos");
    if a != b && a.spec_name().len() == b.spec_name().len() {
        assert(a.spec_name()[0] != b.spec_name()[0]);
    }
}

/// Reading the name of a network gives that network back.
pub proof fn lemma_parse_name(kind: CurrencyType)
    ensures
        parse(kind.spec_name()) == Some(kind),
{
    lemma_names_distinct(kind, CurrencyType::Arweave);
    lemma_names_distinct(kind, CurrencyType::Solana);
    lemma_names_distinct(kind, CurrencyType::Ethereum);
    lemma_names_distinct(kind, CurrencyType::Erc20);
    lemma_names_distinct(kind, CurrencyType::Cosmos);
}

/// A text reads as a network exactly when it is that network's name; any
/// other text reads as none.
pub proof fn lemma_parse_exact(text: Seq<char>, kind: CurrencyType)
    ensures
        parse(text) == Some(kind) <==> text == kind.spec_name(),
        parse(text) is None <==> forall|k: CurrencyType| text != #[trigger] k.spec_name(),
{
    lemma_parse_name(kind);
    if parse(text) is None {
        assert forall|k: CurrencyType| text != #[trigger] k.spec_name() by {
            lemma_parse_name(k);
        }
    } else {
        assert(text == parse(text).unwrap().spec_name());
    }
}

/// A text that is none of the five canonical names reads as no network,
/// whatever else it is: another casing, another currency, the empty text.
pub proof fn lemma_parse_rejects_other_text(text: Seq<char>)
    requires
        text != "arweave"@,
        text != "solana"@,
        text != "ethereum"@,
        text != "erc20"@,
        text != "cosmos"@,
    ensures
        parse(text) is None,
{
}

/// Every code lies between 1 and 5, no two networks share one, and the code
/// finds its network again.
pub proof fn lemma_codes(a: CurrencyType, b: CurrencyType)
    ensures
        1 <= a.spec_code() <= 5,
        a.spec_code() == b.spec_code() <==> a == b,
        from_code(a.spec_code()) == Some(a),
{
}

/// A number is the code of a network exactly when `from_code` finds that
/// network for it.
pub proof fn lemma_from_code_exact(code: int, kind: CurrencyType)
    ensures
        from_code(code) == Some(kind) <==> code == kind.spec_code(),
        from_code(code) is None <==> !(1 <= code <= 5),
{
}

} // verus!
