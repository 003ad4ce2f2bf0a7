use crate::address::{spec_base58, Address, STEP_MINT};
use crate::amount::{parse_base_units, parse_base_units_spec};
use crate::error::ComposeError;
use crate::text::{decimal_text, push_decimal, push_str};
use vstd::prelude::*;
use vstd::string::StringSliceAdditionalSpecFns;

verus! {

/// The largest number of accounts that the swap may use, so that the
/// staking instructions still fit in the transaction.
pub const MAX_ACCOUNTS: u8 = 9;

/// What is asked of the quote service: how much of the output mint an
/// amount of the input mint buys.
#[derive(Clone, Copy, Debug, PartialEq, Eq)]
pub struct QuoteRequest {
    pub input_mint: Address,
    pub output_mint: Address,
    /// The amount of the input mint, in base units.
    pub amount: u64,
    /// The slippage tolerated, in basis points, where one is set.
    pub slippage_bps: Option<u16>,
    /// The largest number of accounts of the route, where one is set.
    pub max_accounts: Option<u8>,
}

/// One hop of a route: the pool and the share of the amount that goes
/// through it, in percent.
#[derive(Clone, Debug, PartialEq, Eq)]
pub struct RouteHop {
    pub amm_key: String,
    pub label: String,
    pub percent: u32,
}

/// The answer of the quote service. Amounts are decimal texts in base
/// units, so that no digit is lost.
#[derive(Clone, Debug, PartialEq, Eq)]
pub struct Quote {
    pub input_mint: String,
    pub in_amount: String,
    pub output_mint: String,
    pub out_amount: String,
    pub slippage_bps: u32,
    pub route_plan: Vec<RouteHop>,
}

/// The request for a quote from `input_mint` into STEP, with the route
/// limited to `MAX_ACCOUNTS` accounts and the service's own slippage.
pub fn quote_request(input_mint: Address, amount: u64) -> (request: QuoteRequest)
    ensures
        request.input_mint == input_mint,
        request.output_mint@ == STEP_MINT@,
        request.amount == amount,
        request.slippage_bps is None,
        request.max_accounts == Some(MAX_ACCOUNTS),
{
    QuoteRequest {
        input_mint,
        output_mint: Address::new(STEP_MINT),
        amount,
        slippage_bps: None,
        max_accounts: Some(MAX_ACCOUNTS),
    }
}

/// A parameter of a query that may be missing: `name` with the number
/// behind it where the number is there, nothing where it is not.
pub open spec fn optional_parameter(name: Seq<char>, value: Option<nat>) -> Seq<char> {
    match value {
        Some(value) => name + decimal_text(value),
        None => Seq::<char>::empty(),
    }
}

/// The slippage of a request as a number.
pub open spec fn slippage_of(request: QuoteRequest) -> Option<nat> {
    match request.slippage_bps {
        Some(bps) => Some(bps as nat),
        None => None,
    }
}

/// The account limit of a request as a number.
pub open spec fn max_accounts_of(request: QuoteRequest) -> Option<nat> {
    match request.max_accounts {
        Some(limit) => Some(limit as nat),
        None => None,
    }
}

/// The address at which a quote is asked for: the quote endpoint with the
/// parameters `inputMint`, `outputMint` and `amount`, and with
/// `slippageBps` and `maxAccounts` where they are set.
pub open spec fn quote_url(request: QuoteRequest) -> Seq<char> {
    "https://quote-api.jup.ag/v6/quote?inputMint="@ + spec_base58(request.input_mint@)
        + "&outputMint="@ + spec_base58(request.output_mint@) + "&amount="@ + decimal_text(
        request.amount as nat,
    ) + optional_parameter("&slippageBps="@, slippage_of(request)) + optional_parameter(
        "&maxAccounts="@,
        max_accounts_of(request),
    )
}

/// The address to which a quote is sent for the instructions of its swap.
pub open spec fn swap_instructions_url_spec() -> Seq<char> {
    "https://quote-api.jup.ag/v6/swap-instructions"@
}

impl QuoteRequest {
    /// The address at which this quote is asked for, with a GET.
    pub fn url(&self) -> (url: String)
        ensures
            url@ == quote_url(*self),
    {
        let mut url = "https://quote-api.jup.ag/v6/quote?inputMint=".to_owned();
        push_str(&mut url, self.input_mint.to_base58().as_str());
        push_str(&mut url, "&outputMint=");
        push_str(&mut url, self.output_mint.to_base58().as_str());
        push_str(&mut url, "&amount=");
        push_decimal(&mut url, self.amount);
        let ghost required = url@;
        match self.slippage_bps {
            Some(bps) => {
                push_str(&mut url, "&slippageBps=");
                push_decimal(&mut url, bps as u64);
                assert(url@ =~= required + optional_parameter(
                    "&slippageBps="@,
                    slippage_of(*self),
                ));
            },
            None => {
                assert(url@ =~= required + optional_parameter(
                    "&slippageBps="@,
                    slippage_of(*self),
                ));
            },
        }
        let ghost with_slippage = url@;
        match self.max_accounts {
            Some(limit) => {
                push_str(&mut url, "&maxAccounts=");
                push_decimal(&mut url, limit as u64);
                assert(url@ =~= with_slippage + optional_parameter(
                    "&maxAccounts="@,
                    max_accounts_of(*self),
                ));
            },
            None => {
                assert(url@ =~= with_slippage + optional_parameter(
                    "&maxAccounts="@,
                    max_accounts_of(*self),
                ));
            },
        }
        url
    }
}

/// The address to which a quote is sent, with a POST, for the instructions
/// of its swap.
pub fn swap_instructions_url() -> (url: String)
    ensures
        url@ == swap_instructions_url_spec(),
{
    "https://quote-api.jup.ag/v6/swap-instructions".to_owned()
}

/// What `staked_amount` returns: `QuoteNotFound` for a quote without a
/// route; else the output amount of the quote, and zero where that text is
/// no 64-bit number.
pub open spec fn staked_amount_spec(quote: Quote) -> Result<u64, ComposeError> {
    if quote.route_plan@.len() == 0 {
        Err(ComposeError::QuoteNotFound)
    } else {
        match parse_base_units_spec(vstd::utf8::encode_utf8(quote.out_amount@)) {
            Some(amount) => Ok(amount),
            None => Ok(0u64),
        }
    }
}

/// The amount of STEP that a quote promises, which is the amount to stake.
///
/// Fails with `QuoteNotFound` exactly when the quote has no route.
pub fn staked_amount(quote: &Quote) -> (res: Result<u64, ComposeError>)
    ensures
        res == staked_amount_spec(*quote),
{
    if quote.route_plan.len() == 0 {
        return Err(ComposeError::QuoteNotFound);
    }
    match parse_base_units(quote.out_amount.as_str()) {
        Some(amount) => Ok(amount),
        None => Ok(0),
    }
}

} // verus!
