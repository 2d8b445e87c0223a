use vstd::prelude::*;

verus! {

/// The requests that the interface hands to the network worker, in order.
#[derive(Debug)]
pub enum IoEvent {
    RefreshAuthentication,
    GetSearchResults(String),
    GetDowJones,
    GetNasdaq,
    GetSandP,
    GetPortfolio,
    GetAccountsList,
    GetAccountBalance,
    GetTicker(String),
    GetNotifications,
    GetNotification(String),
    SubmitPreviewRequest,
    GetCurrentSavedTickers(Option<u32>),
    CurrentUserSavedTickerDelete(String),
    CurrentUserSavedTickerAdd(String),
}

} // verus!
