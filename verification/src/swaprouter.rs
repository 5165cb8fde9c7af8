//! The messages of the swap router that the strategy trades through.

use vstd::prelude::*;
use crate::types::{Coin, CoinView, Decimal};

verus! {

/// What creates a router.
#[derive(Clone, Debug, PartialEq, Eq)]
pub struct InstantiateMsg {
    pub owner: String,
}

/// How far the price of a swap may move against the sender.
#[derive(Clone, Copy, Debug, PartialEq, Eq, Structural)]
pub enum Slippage {
    /// At most this share below the router's reference price.
    MaxSlippagePercentage(Decimal),
    /// At least this amount out.
    MinOutputAmount(u128),
    /// At most this share below the price that the router averages over a
    /// window of so many seconds.
    Twap { window_seconds: Option<u64>, slippage_percentage: Decimal },
}

/// One hop of a route: the pool to trade in and the asset to leave it with.
#[derive(Clone, Debug, PartialEq, Eq)]
pub struct SwapAmountInRoute {
    pub pool_id: u64,
    pub token_out_denom: String,
}

/// The model of a [`SwapAmountInRoute`].
pub struct SwapAmountInRouteView {
    pub pool_id: u64,
    pub token_out_denom: Seq<char>,
}

impl DeepView for SwapAmountInRoute {
    type V = SwapAmountInRouteView;

    open spec fn deep_view(&self) -> SwapAmountInRouteView {
        SwapAmountInRouteView { pool_id: self.pool_id, token_out_denom: self.token_out_denom@ }
    }
}

/// What a router can be asked to do.
#[derive(Clone, Debug, PartialEq, Eq)]
pub enum ExecuteMsg {
    TransferOwnership { new_owner: String },
    SetRoute { input_denom: String, output_denom: String, pool_route: Vec<SwapAmountInRoute> },
    /// Trade `input_coin`, sent along, for `output_denom`.
    Swap { input_coin: Coin, output_denom: String, slippage: Slippage },
}

/// The model of an [`ExecuteMsg`].
pub enum ExecuteMsgView {
    TransferOwnership { new_owner: Seq<char> },
    SetRoute {
        input_denom: Seq<char>,
        output_denom: Seq<char>,
        pool_route: Seq<SwapAmountInRouteView>,
    },
    Swap { input_coin: CoinView, output_denom: Seq<char>, slippage: Slippage },
}

impl DeepView for ExecuteMsg {
    type V = ExecuteMsgView;

    open spec fn deep_view(&self) -> ExecuteMsgView {
        match self {
            ExecuteMsg::TransferOwnership { new_owner } => ExecuteMsgView::TransferOwnership {
                new_owner: new_owner@,
            },
            ExecuteMsg::SetRoute { input_denom, output_denom, pool_route } => {
                ExecuteMsgView::SetRoute {
                    input_denom: input_denom@,
                    output_denom: output_denom@,
                    pool_route: pool_route.deep_view(),
                }
            },
            ExecuteMsg::Swap { input_coin, output_denom, slippage } => ExecuteMsgView::Swap {
                input_coin: input_coin@,
                output_denom: output_denom@,
                slippage: *slippage,
            },
        }
    }
}

impl View for ExecuteMsg {
    type V = ExecuteMsgView;

    open spec fn view(&self) -> ExecuteMsgView {
        self.deep_view()
    }
}

/// What a router can be asked about.
#[derive(Clone, Debug, PartialEq, Eq)]
pub enum QueryMsg {
    GetOwner {},
    GetRoute { input_denom: String, output_denom: String },
}

/// Answer to [`QueryMsg::GetOwner`].
#[derive(Clone, Debug, PartialEq, Eq)]
pub struct GetOwnerResponse {
    pub owner: String,
}

/// Answer to [`QueryMsg::GetRoute`].
#[derive(Clone, Debug, PartialEq, Eq)]
pub struct GetRouteResponse {
    pub pool_route: Vec<SwapAmountInRoute>,
}

/// What a router reports of a swap it made.
#[derive(Clone, Debug, PartialEq, Eq)]
pub struct SwapResponse {
    pub original_sender: String,
    pub token_out_denom: String,
    pub amount: u128,
}

} // verus!
