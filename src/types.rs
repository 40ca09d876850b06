use vstd::prelude::*;

verus! {

/// The identity of an account or a contract, held by its textual strkey form.
///
/// Two addresses are the same identity exactly when their strkeys agree.
#[derive(Clone, Debug, PartialEq, Eq)]
pub struct Address {
    key: String,
}

impl View for Address {
    type V = Seq<char>;

    closed spec fn view(&self) -> Seq<char> {
        self.key@
    }
}

impl Address {
    /// Wraps a strkey as an address.
    pub fn new(key: String) -> (r: Address)
        ensures
            r@ == key@,
    {
        Address { key }
    }

    /// The strkey of this address.
    pub fn as_str(&self) -> (r: &str)
        ensures
            r@ == self@,
    {
        self.key.as_str()
    }

    /// Whether both addresses name the same identity.
    pub fn same_as(&self, other: &Address) -> (r: bool)
        ensures
            r == (self@ == other@),
    {
        self.key == other.key
    }

    /// An identical copy of this address.
    pub fn duplicate(&self) -> (r: Address)
        ensures
            r == *self,
    {
        Address { key: self.key.clone() }
    }
}

/// A copy of an optional string that equals the original.
pub fn duplicate_text(s: &Option<String>) -> (r: Option<String>)
    ensures
        r == *s,
{
    match s {
        Some(t) => Some(t.clone()),
        None => None,
    }
}

/// Configuration read by the access-control and fee layers.
#[derive(Clone, Debug, PartialEq, Eq)]
pub struct FactoryState {
    pub admin: Address,
    pub treasury: Address,
    pub base_fee: i128,
    pub metadata_fee: i128,
}

/// One issued token: its identity, metadata, supply and burn statistics.
#[derive(Clone, Debug, PartialEq, Eq)]
pub struct TokenInfo {
    pub address: Address,
    pub creator: Address,
    pub name: String,
    pub symbol: String,
    pub decimals: u32,
    pub total_supply: i128,
    pub initial_supply: i128,
    pub total_burned: i128,
    pub burn_count: u32,
    pub metadata_uri: Option<String>,
    pub created_at: u64,
}

impl TokenInfo {
    /// An identical copy of this record.
    pub fn duplicate(&self) -> (r: TokenInfo)
        ensures
            r == *self,
    {
        TokenInfo {
            address: self.address.duplicate(),
            creator: self.creator.duplicate(),
            name: self.name.clone(),
            symbol: self.symbol.clone(),
            decimals: self.decimals,
            total_supply: self.total_supply,
            initial_supply: self.initial_supply,
            total_burned: self.total_burned,
            burn_count: self.burn_count,
            metadata_uri: duplicate_text(&self.metadata_uri),
            created_at: self.created_at,
        }
    }
}

/// One burn event; never changed once it is in the ledger.
#[derive(Clone, Debug, PartialEq, Eq)]
pub struct BurnRecord {
    pub token_address: Address,
    pub from: Address,
    pub amount: i128,
    pub burned_by: Address,
    pub timestamp: u64,
    pub is_admin_burn: bool,
}

impl BurnRecord {
    /// An identical copy of this record.
    pub fn duplicate(&self) -> (r: BurnRecord)
        ensures
            r == *self,
    {
        BurnRecord {
            token_address: self.token_address.duplicate(),
            from: self.from.duplicate(),
            amount: self.amount,
            burned_by: self.burned_by.duplicate(),
            timestamp: self.timestamp,
            is_admin_burn: self.is_admin_burn,
        }
    }
}

/// The keys of the flat key-value namespace that holds the store.
#[derive(Clone, Copy, Debug, PartialEq, Eq, Structural)]
pub enum DataKey {
    Admin,
    Treasury,
    BaseFee,
    MetadataFee,
    TokenCount,
    Token(u32),
    BurnRecord(u32),
    BurnCount,
}

/// The failures that the store's operations report.
#[derive(Clone, Copy, Debug, PartialEq, Eq, Structural)]
pub enum Error {
    InsufficientFee,
    Unauthorized,
    InvalidParameters,
    TokenNotFound,
    MetadataAlreadySet,
    AlreadyInitialized,
    /// A supply change would leave the supply below zero.
    SupplyUnderflow,
    /// A counter or total would leave the range of its type.
    Overflow,
    /// A token with that address is already registered.
    DuplicateToken,
}

} // verus!
