//! The action executor: which venue call carries out an action.
//!
//! The executor decides and rejects; the call itself is the caller's work.

use crate::strategy::{ActionView, StrategyAction};
use crate::text::same_text;
use vstd::prelude::*;
use vstd::string::StringExecFns;

verus! {

/// Number of quantity units in one share.
pub const MICROS_PER_SHARE: u64 = 1_000_000;

/// The price of one share, in cents, that is assumed where nothing else is
/// configured.
pub const DEFAULT_REFERENCE_PRICE_CENTS: u64 = 10_000;

/// A market order for the crypto venue.
#[derive(Clone, Debug)]
pub struct CryptoOrder {
    pub user_id: String,
    pub symbol: String,
    pub side: String,
    pub amount_cents: u64,
    pub order_type: String,
}

/// An order for the brokerage. The quantity is in millionths of a share.
#[derive(Clone, Debug)]
pub struct StockOrder {
    pub symbol: String,
    pub side: String,
    pub quantity_micros: u128,
    pub order_type: String,
    pub limit_price_cents: Option<u64>,
    pub stop_price_cents: Option<u64>,
    pub time_in_force: String,
}

/// A call that a venue is asked to carry out.
#[derive(Clone, Debug)]
pub enum VenueCall {
    /// Place an order at the crypto venue; it answers with a transaction hash.
    PlaceCryptoOrder(CryptoOrder),
    /// Place an order at the brokerage; it answers with an order identifier.
    PlaceStockOrder(StockOrder),
    /// Breed a collectible from these parents; the venue answers with a token identifier.
    BreedNft { parent_ids: String },
    /// Buy a collectible for at most this price; the venue answers with a transaction hash.
    BuyNft { token_id: String, max_price_cents: u64 },
    /// Lock a collectible as collateral; the venue answers with a position identifier.
    LockNftCollateral { token_id: String },
}

/// The mathematical content of a [`VenueCall`].
pub enum VenueCallView {
    PlaceCryptoOrder {
        user_id: Seq<char>,
        symbol: Seq<char>,
        side: Seq<char>,
        amount_cents: u64,
        order_type: Seq<char>,
    },
    PlaceStockOrder {
        symbol: Seq<char>,
        side: Seq<char>,
        quantity_micros: u128,
        order_type: Seq<char>,
        limit_price_cents: Option<u64>,
        stop_price_cents: Option<u64>,
        time_in_force: Seq<char>,
    },
    BreedNft { parent_ids: Seq<char> },
    BuyNft { token_id: Seq<char>, max_price_cents: u64 },
    LockNftCollateral { token_id: Seq<char> },
}

impl DeepView for VenueCall {
    type V = VenueCallView;

    open spec fn deep_view(&self) -> VenueCallView {
        match self {
            VenueCall::PlaceCryptoOrder(order) => VenueCallView::PlaceCryptoOrder {
                user_id: order.user_id@,
                symbol: order.symbol@,
                side: order.side@,
                amount_cents: order.amount_cents,
                order_type: order.order_type@,
            },
            VenueCall::PlaceStockOrder(order) => VenueCallView::PlaceStockOrder {
                symbol: order.symbol@,
                side: order.side@,
                quantity_micros: order.quantity_micros,
                order_type: order.order_type@,
                limit_price_cents: order.limit_price_cents,
                stop_price_cents: order.stop_price_cents,
                time_in_force: order.time_in_force@,
            },
            VenueCall::BreedNft { parent_ids } => VenueCallView::BreedNft { parent_ids: parent_ids@ },
            VenueCall::BuyNft { token_id, max_price_cents } => VenueCallView::BuyNft {
                token_id: token_id@,
                max_price_cents: *max_price_cents,
            },
            VenueCall::LockNftCollateral { token_id } => VenueCallView::LockNftCollateral {
                token_id: token_id@,
            },
        }
    }
}

/// Why an action was not carried out.
#[derive(Clone, Debug)]
pub enum ExecutionError {
    /// The asset class is none that a venue trades. No venue was called.
    UnsupportedAssetClass(String),
    /// The collectibles venue has no such action. No venue was called.
    UnsupportedAction(String),
    /// The venue was called and failed; this is its error text.
    Venue(String),
}

/// The mathematical content of an [`ExecutionError`].
pub enum ExecutionErrorView {
    UnsupportedAssetClass(Seq<char>),
    UnsupportedAction(Seq<char>),
    Venue(Seq<char>),
}

impl DeepView for ExecutionError {
    type V = ExecutionErrorView;

    open spec fn deep_view(&self) -> ExecutionErrorView {
        match self {
            ExecutionError::UnsupportedAssetClass(class) => ExecutionErrorView::UnsupportedAssetClass(
                class@,
            ),
            ExecutionError::UnsupportedAction(kind) => ExecutionErrorView::UnsupportedAction(kind@),
            ExecutionError::Venue(text) => ExecutionErrorView::Venue(text@),
        }
    }
}

/// The text under which an error is recorded.
pub open spec fn error_text(error: ExecutionErrorView) -> Seq<char> {
    match error {
        ExecutionErrorView::UnsupportedAssetClass(class) => "Unknown asset class: "@ + class,
        ExecutionErrorView::UnsupportedAction(kind) => "Unknown NFT action: "@ + kind,
        ExecutionErrorView::Venue(text) => text,
    }
}

impl ExecutionError {
    /// The text under which the error is recorded.
    pub fn message(&self) -> (text: String)
        ensures
            text@ == error_text(self.deep_view()),
    {
        match self {
            ExecutionError::UnsupportedAssetClass(class) => String::from_str(
                "Unknown asset class: ",
            ).concat(class.as_str()),
            ExecutionError::UnsupportedAction(kind) => String::from_str(
                "Unknown NFT action: ",
            ).concat(kind.as_str()),
            ExecutionError::Venue(text) => text.clone(),
        }
    }
}

/// The number of millionths of a share that an amount buys at a price.
pub open spec fn share_quantity(amount_cents: u64, price_cents: u64) -> int {
    amount_cents * MICROS_PER_SHARE / (price_cents as int)
}

/// The market order that carries out a crypto action for a user.
pub open spec fn crypto_order_for(action: ActionView, user_id: Seq<char>) -> VenueCallView {
    VenueCallView::PlaceCryptoOrder {
        user_id,
        symbol: action.symbol,
        side: action.side,
        amount_cents: action.amount_cents,
        order_type: "market"@,
    }
}

/// The day order at market that carries out an equity action: the amount is
/// converted to a quantity at the reference price.
pub open spec fn stock_order_for(action: ActionView, price_cents: u64) -> VenueCallView {
    VenueCallView::PlaceStockOrder {
        symbol: action.symbol,
        side: action.side,
        quantity_micros: share_quantity(action.amount_cents, price_cents) as u128,
        order_type: "market"@,
        limit_price_cents: None,
        stop_price_cents: None,
        time_in_force: "day"@,
    }
}

/// The call that carries out a collectibles action, by its kind.
pub open spec fn nft_call_for(action: ActionView) -> Result<VenueCallView, ExecutionErrorView> {
    if action.action_type == "breed"@ {
        Ok(VenueCallView::BreedNft { parent_ids: action.symbol })
    } else if action.action_type == "buy"@ {
        Ok(VenueCallView::BuyNft { token_id: action.symbol, max_price_cents: action.amount_cents })
    } else if action.action_type == "lock_collateral"@ {
        Ok(VenueCallView::LockNftCollateral { token_id: action.symbol })
    } else {
        Err(ExecutionErrorView::UnsupportedAction(action.action_type))
    }
}

/// The call that carries out an action, chosen by the asset class alone, or
/// the reason why no venue is called.
pub open spec fn venue_call_for(action: ActionView, user_id: Seq<char>, price_cents: u64) -> Result<
    VenueCallView,
    ExecutionErrorView,
> {
    if action.asset_class == "crypto"@ {
        Ok(crypto_order_for(action, user_id))
    } else if action.asset_class == "stocks"@ {
        Ok(stock_order_for(action, price_cents))
    } else if action.asset_class == "nft"@ {
        nft_call_for(action)
    } else {
        Err(ExecutionErrorView::UnsupportedAssetClass(action.asset_class))
    }
}

/// A decision of the executor as the contracts read it.
pub open spec fn decision_view(decision: Result<VenueCall, ExecutionError>) -> Result<
    VenueCallView,
    ExecutionErrorView,
> {
    match decision {
        Ok(call) => Ok(call.deep_view()),
        Err(error) => Err(error.deep_view()),
    }
}

/// Executes the actions of strategies against the venues.
///
/// Equity quantities are an approximation: an amount is converted to shares
/// at the configured reference price, not at a live quote.
#[derive(Clone, Copy, Debug)]
pub struct ApolloExecutor {
    reference_price_cents: u64,
}

impl ApolloExecutor {
    #[verifier::type_invariant]
    spec fn priced(self) -> bool {
        self.reference_price_cents > 0
    }

    /// The reference price of one share, in cents.
    pub closed spec fn price(self) -> u64 {
        self.reference_price_cents
    }

    /// An executor that converts at the default reference price.
    pub fn new() -> (executor: ApolloExecutor)
        ensures
            executor.price() == DEFAULT_REFERENCE_PRICE_CENTS,
    {
        ApolloExecutor { reference_price_cents: DEFAULT_REFERENCE_PRICE_CENTS }
    }

    /// An executor that converts at `price_cents` a share, if that is a price.
    pub fn with_reference_price(price_cents: u64) -> (executor: Option<ApolloExecutor>)
        ensures
            executor is Some <==> price_cents > 0,
            executor matches Some(e) ==> e.price() == price_cents,
    {
        if price_cents > 0 {
            Some(ApolloExecutor { reference_price_cents: price_cents })
        } else {
            None
        }
    }

    /// The reference price of one share, in cents.
    pub fn reference_price_cents(&self) -> (price_cents: u64)
        ensures
            price_cents == self.price(),
            price_cents > 0,
    {
        proof {
            use_type_invariant(self);
        }
        self.reference_price_cents
    }

    /// Chooses the venue call for an action of `user_id`, by the asset class
    /// alone. An unknown asset class, or an unknown action on a collectible,
    /// is rejected before any venue is called.
    pub fn execute_action(&self, action: &StrategyAction, user_id: &str) -> (decision: Result<
        VenueCall,
        ExecutionError,
    >)
        ensures
            decision_view(decision) == venue_call_for(action.deep_view(), user_id@, self.price()),
    {
        if same_text(action.asset_class.as_str(), "crypto") {
            Ok(self.execute_crypto_action(action, user_id))
        } else if same_text(action.asset_class.as_str(), "stocks") {
            Ok(self.execute_stock_action(action))
        } else if same_text(action.asset_class.as_str(), "nft") {
            self.execute_nft_action(action)
        } else {
            Err(ExecutionError::UnsupportedAssetClass(action.asset_class.clone()))
        }
    }

    /// The market order at the crypto venue for an action.
    pub fn execute_crypto_action(&self, action: &StrategyAction, user_id: &str) -> (call: VenueCall)
        ensures
            call.deep_view() == crypto_order_for(action.deep_view(), user_id@),
    {
        VenueCall::PlaceCryptoOrder(
            CryptoOrder {
                user_id: String::from_str(user_id),
                symbol: action.symbol.clone(),
                side: action.side.clone(),
                amount_cents: action.amount_cents,
                order_type: String::from_str("market"),
            },
        )
    }

    /// The brokerage order for an action: a day order at market for the
    /// quantity that the amount buys at the reference price.
    pub fn execute_stock_action(&self, action: &StrategyAction) -> (call: VenueCall)
        ensures
            call.deep_view() == stock_order_for(action.deep_view(), self.price()),
    {
        proof {
            use_type_invariant(self);
        }
        let scaled: u128 = action.amount_cents as u128 * MICROS_PER_SHARE as u128;
        let quantity_micros: u128 = scaled / self.reference_price_cents as u128;
        VenueCall::PlaceStockOrder(
            StockOrder {
                symbol: action.symbol.clone(),
                side: action.side.clone(),
                quantity_micros,
                order_type: String::from_str("market"),
                limit_price_cents: None,
                stop_price_cents: None,
                time_in_force: String::from_str("day"),
            },
        )
    }

    /// The call at the collectibles venue for an action, by its kind.
    pub fn execute_nft_action(&self, action: &StrategyAction) -> (decision: Result<
        VenueCall,
        ExecutionError,
    >)
        ensures
            decision_view(decision) == nft_call_for(action.deep_view()),
    {
        if same_text(action.action_type.as_str(), "breed") {
            Ok(VenueCall::BreedNft { parent_ids: action.symbol.clone() })
        } else if same_text(action.action_type.as_str(), "buy") {
            Ok(
                VenueCall::BuyNft {
                    token_id: action.symbol.clone(),
                    max_price_cents: action.amount_cents,
                },
            )
        } else if same_text(action.action_type.as_str(), "lock_collateral") {
            Ok(VenueCall::LockNftCollateral { token_id: action.symbol.clone() })
        } else {
            Err(ExecutionError::UnsupportedAction(action.action_type.clone()))
        }
    }
}

} // verus!
