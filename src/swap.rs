//! Choosing the exchange route for converting tokens to lamports.
//!
//! The routes form an ordered list, the first being the primary venue and
//! the rest fallbacks. The host runs the route that the decision names and
//! reports whether it succeeded; the first success ends the swap, and when
//! every route has failed the swap fails as a whole.
use vstd::prelude::*;
use crate::error::TaxRewardError;

verus! {

/// What the host does next while converting tokens.
#[derive(Clone, Copy, Debug, PartialEq, Eq, Structural)]
pub enum SwapAction {
    /// Run the route at this position of the list.
    TryRoute(usize),
    /// A route succeeded: the swap is done.
    Completed,
    /// The swap is refused or every route failed.
    Failed(TaxRewardError),
}

/// The first decision of a swap of `token_amount` tokens over `route_count`
/// routes: nothing to swap is refused, an empty list fails, otherwise the
/// primary route is tried.
pub fn swap_start(token_amount: u64, route_count: usize) -> (r: SwapAction)
    ensures
        token_amount == 0 ==> r == SwapAction::Failed(TaxRewardError::InvalidInstruction),
        token_amount > 0 && route_count == 0 ==> r == SwapAction::Failed(TaxRewardError::SwapFailed),
        token_amount > 0 && route_count > 0 ==> r == SwapAction::TryRoute(0),
{
    if token_amount == 0 {
        SwapAction::Failed(TaxRewardError::InvalidInstruction)
    } else if route_count == 0 {
        SwapAction::Failed(TaxRewardError::SwapFailed)
    } else {
        SwapAction::TryRoute(0)
    }
}

/// The decision after the route at `route` reported `succeeded`: done on
/// success, else the next route, else failure once the list is exhausted.
pub fn swap_next(route: usize, succeeded: bool, route_count: usize) -> (r: SwapAction)
    requires
        route < route_count,
    ensures
        succeeded ==> r == SwapAction::Completed,
        !succeeded && route + 1 < route_count ==> r == SwapAction::TryRoute((route + 1) as usize),
        !succeeded && route + 1 == route_count ==> r == SwapAction::Failed(TaxRewardError::SwapFailed),
{
    if succeeded {
        SwapAction::Completed
    } else if route + 1 < route_count {
        SwapAction::TryRoute(route + 1)
    } else {
        SwapAction::Failed(TaxRewardError::SwapFailed)
    }
}

} // verus!
