//! The bank-link requests the client relays to the local backend, which
//! owns every call to Plaid.
use vstd::prelude::*;

verus! {

/// A link token, as the backend returns it.
pub struct LinkTokenResponse {
    pub link_token: String,
    pub expiration: String,
    pub request_id: String,
}

/// The body of a token exchange.
pub struct ExchangeTokenRequest {
    pub public_token: String,
}

/// The result of a token exchange, as the backend returns it.
pub struct ExchangeTokenResponse {
    pub access_token: String,
    pub item_id: String,
}

/// The local backend.
pub open spec fn backend_base() -> Seq<char> {
    "http://localhost:3001"@
}

fn base_text() -> (t: String)
    ensures
        t@ == backend_base(),
{
    String::from_str("http://localhost:3001")
}

/// The message of a failed request to the backend.
pub fn req_err(error: &str) -> (msg: String)
    ensures
        msg@ == "HTTP request failed: "@ + error@,
{
    String::from_str("HTTP request failed: ").concat(error)
}

/// Where a link token is created.
pub fn link_token_url() -> (url: String)
    ensures
        url@ == backend_base() + "/plaid/link-token"@,
{
    base_text().concat("/plaid/link-token")
}

/// Where a public token is exchanged.
pub fn exchange_token_url() -> (url: String)
    ensures
        url@ == backend_base() + "/plaid/exchange-token"@,
{
    base_text().concat("/plaid/exchange-token")
}

/// Where a linked item's transactions are synced.
pub fn sync_transactions_url() -> (url: String)
    ensures
        url@ == backend_base() + "/plaid/transactions/sync"@,
{
    base_text().concat("/plaid/transactions/sync")
}

/// The stored transactions of an item, between optional dates.
pub open spec fn transactions_query(
    item_id: Seq<char>,
    start_date: Option<Seq<char>>,
    end_date: Option<Seq<char>>,
) -> Seq<char> {
    let base = backend_base() + "/plaid/transactions?item_id="@ + item_id;
    let with_start = match start_date {
        Some(s) => base + "&start_date="@ + s,
        None => base,
    };
    match end_date {
        Some(e) => with_start + "&end_date="@ + e,
        None => with_start,
    }
}

/// Where the stored transactions of an item are read, between optional
/// dates (the values are put in the query as they are).
pub fn transactions_url(item_id: &str, start_date: Option<String>, end_date: Option<String>) -> (url: String)
    ensures
        url@ == transactions_query(
            item_id@,
            match start_date {
                Some(s) => Some(s@),
                None => None,
            },
            match end_date {
                Some(e) => Some(e@),
                None => None,
            },
        ),
{
    let mut url = base_text().concat("/plaid/transactions?item_id=").concat(item_id);
    match start_date {
        Some(s) => {
            url = url.concat("&start_date=").concat(s.as_str());
        },
        None => {},
    }
    match end_date {
        Some(e) => {
            url = url.concat("&end_date=").concat(e.as_str());
        },
        None => {},
    }
    url
}

/// Where an item's live balances are read.
pub fn balances_url(item_id: &str) -> (url: String)
    ensures
        url@ == backend_base() + "/plaid/balances?item_id="@ + item_id@,
{
    base_text().concat("/plaid/balances?item_id=").concat(item_id)
}

/// The page that opens Plaid Link with a token.
pub fn link_page_url(token: &str) -> (url: String)
    ensures
        url@ == backend_base() + "/plaid/link-page?token="@ + token@,
{
    base_text().concat("/plaid/link-page?token=").concat(token)
}

/// The outcome of opening Plaid Link from the backend's reply: with the
/// reply's `link_token`, the token and the page that opens Link with it;
/// without one, the error `No link_token`.
pub fn link_page_for(link_token: Option<String>) -> (r: Result<(String, String), String>)
    ensures
        match link_token {
            Some(t) => (r matches Ok((token, url)) && token@ == t@ && url@ == backend_base()
                + "/plaid/link-page?token="@ + t@),
            None => (r matches Err(e) && e@ == "No link_token"@),
        },
{
    match link_token {
        Some(t) => {
            let url = link_page_url(t.as_str());
            Ok((t, url))
        },
        None => Err(String::from_str("No link_token")),
    }
}

/// Where the linked accounts are read.
pub fn accounts_url() -> (url: String)
    ensures
        url@ == backend_base() + "/plaid/accounts"@,
{
    base_text().concat("/plaid/accounts")
}

/// Where the latest transactions (at most 500) are read.
pub fn recent_transactions_url() -> (url: String)
    ensures
        url@ == backend_base() + "/plaid/transactions?limit=500"@,
{
    base_text().concat("/plaid/transactions?limit=500")
}

} // verus!
