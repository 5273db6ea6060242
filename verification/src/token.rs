use vstd::prelude::*;
use crate::address::Address;
use crate::address::is_zero_bytes;

verus! {

/// What a resolved token looks like at the specification level.
pub struct TokenView {
    pub address: Seq<u8>,
    pub symbol: Seq<char>,
    pub decimals: u8,
}

/// A token descriptor: identity, human symbol and decimal count.
#[derive(Clone, Debug, PartialEq, Eq)]
pub struct Token {
    pub address: Address,
    pub symbol: String,
    pub decimals: u8,
}

impl View for Token {
    type V = TokenView;

    open spec fn view(&self) -> TokenView {
        TokenView { address: self.address@, symbol: self.symbol@, decimals: self.decimals }
    }
}

impl Token {
    pub fn new(address: Address, symbol: String, decimals: u8) -> (r: Token)
        ensures
            r@ == (TokenView { address: address@, symbol: symbol@, decimals }),
    {
        Token { address, symbol, decimals }
    }
}

/// How one leg's token identity is to be obtained: the zero address stands
/// for the native asset and is never sent to the resolver; any other address
/// is looked up.
#[derive(Clone, Copy, Debug, PartialEq, Eq)]
pub enum TokenQuery {
    Native,
    Lookup(Address),
}

/// The query at the specification level.
pub enum TokenQueryView {
    Native,
    Lookup(Seq<u8>),
}

impl View for TokenQuery {
    type V = TokenQueryView;

    open spec fn view(&self) -> TokenQueryView {
        match self {
            TokenQuery::Native => TokenQueryView::Native,
            TokenQuery::Lookup(a) => TokenQueryView::Lookup(a@),
        }
    }
}

/// The query for one leg's token address.
pub open spec fn token_query_spec(token: Seq<u8>) -> TokenQueryView {
    if is_zero_bytes(token) {
        TokenQueryView::Native
    } else {
        TokenQueryView::Lookup(token)
    }
}

/// Decides how a leg's token identity is obtained, without consulting anyone.
pub fn token_query_of(token: &Address) -> (r: TokenQuery)
    ensures
        r@ == token_query_spec(token@),
{
    if token.is_zero() {
        TokenQuery::Native
    } else {
        TokenQuery::Lookup(*token)
    }
}

/// Start-up constants: the fee recipient that marks fee legs, the sentinel
/// token standing for the native asset, and the wrapped-native address used
/// to price it.
#[derive(Clone, Debug)]
pub struct IndexerConfig {
    pub fee_recipient: Address,
    pub native_token: Token,
    pub native_coin: Address,
}

/// The configuration at the specification level.
pub struct ConfigView {
    pub fee_recipient: Seq<u8>,
    pub native_token: TokenView,
    pub native_coin: Seq<u8>,
}

impl View for IndexerConfig {
    type V = ConfigView;

    open spec fn view(&self) -> ConfigView {
        ConfigView {
            fee_recipient: self.fee_recipient@,
            native_token: self.native_token@,
            native_coin: self.native_coin@,
        }
    }
}

} // verus!
