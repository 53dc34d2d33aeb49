//! The explorer client's decisions: which request to send for an address,
//! and what an answer means for the scheduler.

use crate::amount::{amount_parts, decimal_checked_div, decimal_from_str_exact, divide_decimal, parse_decimal, Amount};
use crate::text::{parse_u64, parse_u64_spec};
use vstd::prelude::*;

verus! {

/// The delay, in milliseconds, that a throttled answer asks for when it
/// names none that can be read.
pub const DEFAULT_RETRY_AFTER_MS: u64 = 1000;

/// The status codes that the upstream API answers with when it throttles
/// or times out: forbidden, request timeout, gateway timeout.
pub open spec fn default_retryable_statuses() -> Seq<u16> {
    seq![403u16, 408u16, 504u16]
}

/// The number by which a raw quantity is divided: 1000000.0, as mantissa
/// and scale.
pub open spec fn quantity_divisor() -> Amount {
    Amount { mantissa: 10_000_000, scale: 1 }
}

/// One transfer as the upstream API reports it.
#[derive(Clone, Debug, PartialEq, Eq)]
pub struct TokenTransfer {
    pub transaction_id: String,
    pub quant: String,
}

/// The mathematical value of a [`TokenTransfer`].
pub struct TokenTransferView {
    pub transaction_id: Seq<char>,
    pub quant: Seq<char>,
}

impl View for TokenTransfer {
    type V = TokenTransferView;

    open spec fn view(&self) -> TokenTransferView {
        TokenTransferView { transaction_id: self.transaction_id@, quant: self.quant@ }
    }
}

/// Why a query gave no transactions.
#[derive(Clone, Debug, PartialEq, Eq)]
pub enum GetTransactionError {
    /// The request itself failed; the text says how.
    Request(String),
    /// The upstream API throttled the request and asks to wait this many
    /// milliseconds.
    RetryAfter(Option<u64>),
}

/// The mathematical value of a [`GetTransactionError`].
pub enum GetTransactionErrorView {
    Request(Seq<char>),
    RetryAfter(Option<u64>),
}

impl View for GetTransactionError {
    type V = GetTransactionErrorView;

    open spec fn view(&self) -> GetTransactionErrorView {
        match self {
            GetTransactionError::Request(text) => GetTransactionErrorView::Request(text@),
            GetTransactionError::RetryAfter(hint) => GetTransactionErrorView::RetryAfter(*hint),
        }
    }
}

/// The delay that a `retry-after` header asks for: the integer it spells,
/// and the default where the header is missing or spells none.
pub open spec fn retry_after_ms(header: Option<Seq<u8>>) -> u64 {
    match header {
        Some(bytes) => match parse_u64_spec(bytes) {
            Some(ms) => ms,
            None => DEFAULT_RETRY_AFTER_MS,
        },
        None => DEFAULT_RETRY_AFTER_MS,
    }
}

/// The bytes of a header, if there is one.
pub open spec fn header_view(header: Option<Vec<u8>>) -> Option<Seq<u8>> {
    match header {
        Some(bytes) => Some(bytes@),
        None => None,
    }
}

/// Reads the delay from a `retry-after` header.
pub fn parse_retry_after(header: &Option<Vec<u8>>) -> (ms: u64)
    ensures
        ms == retry_after_ms(header_view(*header)),
{
    match header {
        Some(bytes) => match parse_u64(bytes.as_slice()) {
            Some(ms) => ms,
            None => DEFAULT_RETRY_AFTER_MS,
        },
        None => DEFAULT_RETRY_AFTER_MS,
    }
}

/// Whether a status code is one of the retryable ones.
pub fn is_retryable_status(status: u16, retryable: &Vec<u16>) -> (r: bool)
    ensures
        r == retryable@.contains(status),
{
    let mut i: usize = 0;
    while i < retryable.len()
        invariant
            i <= retryable.len(),
            forall|j: int| 0 <= j < i ==> retryable@[j] != status,
        decreases retryable.len() - i,
    {
        if retryable[i] == status {
            return true;
        }
        i += 1;
    }
    false
}

/// The amount that a raw quantity stands for: the decimal that the text
/// spells, divided by 1000000.0. `None` where the text spells no decimal.
pub open spec fn amount_of_quantity(quant: Seq<char>) -> Option<(int, nat)> {
    match decimal_from_str_exact(quant) {
        Some((mantissa, scale)) => decimal_checked_div(
            mantissa,
            scale,
            quantity_divisor().mantissa as int,
            quantity_divisor().scale as nat,
        ),
        None => None,
    }
}

/// The amount that a pair of mantissa and scale stands for.
pub open spec fn amount_from_parts(parts: Option<(int, nat)>) -> Option<Amount> {
    match parts {
        Some((mantissa, scale)) => Some(Amount { mantissa: mantissa as i128, scale: scale as u32 }),
        None => None,
    }
}

/// The amount that a raw quantity stands for, as an [`Amount`].
pub open spec fn quantity_amount(quant: Seq<char>) -> Option<Amount> {
    amount_from_parts(amount_of_quantity(quant))
}

/// Turns a raw quantity into an amount.
pub fn transfer_amount(quant: &str) -> (r: Option<Amount>)
    ensures
        amount_parts(r) == amount_of_quantity(quant@),
        r == quantity_amount(quant@),
{
    match parse_decimal(quant) {
        Some(raw) => divide_decimal(raw, Amount { mantissa: 10_000_000, scale: 1 }),
        None => None,
    }
}

/// The values of a list of transfers.
pub open spec fn transfers_view(transfers: Seq<TokenTransfer>) -> Seq<TokenTransferView> {
    transfers.map_values(|t: TokenTransfer| t@)
}

/// The values of a list of transactions: identifier and amount.
pub open spec fn pairs_view(pairs: Seq<(String, Amount)>) -> Seq<(Seq<char>, Amount)> {
    pairs.map_values(|p: (String, Amount)| (p.0@, p.1))
}

/// Whether every quantity of a list was converted.
pub open spec fn all_converted(amounts: Seq<Option<Amount>>) -> bool {
    forall|i: int| 0 <= i < amounts.len() ==> (#[trigger] amounts[i]) is Some
}

/// The transactions that a decoded body stands for, given the amount that
/// each quantity was converted to: each transfer's identifier with its
/// amount, in the body's order. A body with a quantity that could not be
/// converted is malformed and stands for no transaction at all.
pub open spec fn paired(transfers: Seq<TokenTransferView>, amounts: Seq<Option<Amount>>) -> Seq<
    (Seq<char>, Amount),
> {
    if transfers.len() == amounts.len() && all_converted(amounts) {
        Seq::new(transfers.len(), |i: int| (transfers[i].transaction_id, amounts[i]->0))
    } else {
        Seq::empty()
    }
}

/// Pairs each transfer's identifier with the amount its quantity was
/// converted to.
pub fn pair_transfers(transfers: Vec<TokenTransfer>, amounts: &Vec<Option<Amount>>) -> (r: Vec<
    (String, Amount),
>)
    ensures
        pairs_view(r@) == paired(transfers_view(transfers@), amounts@),
{
    if transfers.len() != amounts.len() {
        return Vec::new();
    }
    let mut k: usize = 0;
    while k < amounts.len()
        invariant
            k <= amounts.len(),
            forall|j: int| 0 <= j < k ==> (#[trigger] amounts@[j]) is Some,
        decreases amounts.len() - k,
    {
        if amounts[k].is_none() {
            return Vec::new();
        }
        k += 1;
    }
    let mut r: Vec<(String, Amount)> = Vec::new();
    let mut i: usize = 0;
    for t in it: transfers.into_iter()
        invariant
            it.seq() == transfers@,
            transfers@.len() == amounts.len(),
            all_converted(amounts@),
            i == it.index(),
            r@.len() == i,
            forall|j: int|
                0 <= j < i ==> (#[trigger] r@[j]).0@ == transfers@[j]@.transaction_id && r@[j].1
                    == amounts@[j]->0,
    {
        let amount = amounts[i].unwrap();
        r.push((t.transaction_id, amount));
        i += 1;
    }
    r
}

/// The amount that each transfer's quantity stands for.
pub open spec fn quantity_amounts(transfers: Seq<TokenTransferView>) -> Seq<Option<Amount>> {
    transfers.map_values(|t: TokenTransferView| quantity_amount(t.quant))
}

/// The transactions that a body stands for: none where it could not be
/// decoded, else each transfer's identifier with its quantity divided by
/// 1000000.0.
pub open spec fn body_transactions(body: Option<Seq<TokenTransferView>>) -> Seq<
    (Seq<char>, Amount),
> {
    match body {
        Some(transfers) => paired(transfers, quantity_amounts(transfers)),
        None => Seq::empty(),
    }
}

/// The values of a decoded body, if there is one.
pub open spec fn body_view(body: Option<Vec<TokenTransfer>>) -> Option<Seq<TokenTransferView>> {
    match body {
        Some(transfers) => Some(transfers_view(transfers@)),
        None => None,
    }
}

/// The transactions of a successful answer. `body` is the decoded payload,
/// or `None` where the payload could not be decoded.
pub fn completed_transfers(body: Option<Vec<TokenTransfer>>) -> (r: Vec<(String, Amount)>)
    ensures
        pairs_view(r@) == body_transactions(body_view(body)),
{
    match body {
        None => Vec::new(),
        Some(transfers) => {
            let mut amounts: Vec<Option<Amount>> = Vec::new();
            let mut i: usize = 0;
            while i < transfers.len()
                invariant
                    i <= transfers.len(),
                    amounts@.len() == i,
                    forall|j: int|
                        0 <= j < i ==> (#[trigger] amounts@[j]) == quantity_amount(
                            transfers@[j]@.quant,
                        ),
                decreases transfers.len() - i,
            {
                let amount = transfer_amount(transfers[i].quant.as_str());
                amounts.push(amount);
                i += 1;
            }
            assert(amounts@ =~= quantity_amounts(transfers_view(transfers@)));
            pair_transfers(transfers, &amounts)
        },
    }
}

/// What came back for one query.
#[derive(Clone, Debug, PartialEq, Eq)]
pub enum Reply {
    /// The request failed before any answer arrived; the text says how.
    Failed(String),
    /// The upstream API answered: its status code, the bytes of the
    /// `retry-after` header if it sent one, and the decoded payload, or
    /// `None` where the payload could not be decoded.
    Answer { status: u16, retry_after: Option<Vec<u8>>, body: Option<Vec<TokenTransfer>> },
}

/// The mathematical value of a [`Reply`].
pub enum ReplyView {
    Failed(Seq<char>),
    Answer { status: u16, retry_after: Option<Seq<u8>>, body: Option<Seq<TokenTransferView>> },
}

impl View for Reply {
    type V = ReplyView;

    open spec fn view(&self) -> ReplyView {
        match self {
            Reply::Failed(text) => ReplyView::Failed(text@),
            Reply::Answer { status, retry_after, body } => ReplyView::Answer {
                status: *status,
                retry_after: header_view(*retry_after),
                body: body_view(*body),
            },
        }
    }
}

/// What a reply means. A failed request is a request error. An answer with
/// a retryable status asks to retry after the delay its header names, or
/// after the default. Any other answer completes with the transactions of
/// its body.
pub open spec fn classify(reply: ReplyView, retryable: Seq<u16>) -> Result<
    Seq<(Seq<char>, Amount)>,
    GetTransactionErrorView,
> {
    match reply {
        ReplyView::Failed(text) => Err(GetTransactionErrorView::Request(text)),
        ReplyView::Answer { status, retry_after, body } => {
            if retryable.contains(status) {
                Err(GetTransactionErrorView::RetryAfter(Some(retry_after_ms(retry_after))))
            } else {
                Ok(body_transactions(body))
            }
        },
    }
}

/// The value of a query's result.
pub open spec fn result_view(r: Result<Vec<(String, Amount)>, GetTransactionError>) -> Result<
    Seq<(Seq<char>, Amount)>,
    GetTransactionErrorView,
> {
    match r {
        Ok(pairs) => Ok(pairs_view(pairs@)),
        Err(e) => Err(e@),
    }
}

/// Classifies the reply to one query. `retryable` holds the status codes
/// on which the query is to be tried again.
pub fn get_completed_transactions(reply: Reply, retryable: &Vec<u16>) -> (r: Result<
    Vec<(String, Amount)>,
    GetTransactionError,
>)
    ensures
        result_view(r) == classify(reply@, retryable@),
{
    match reply {
        Reply::Failed(text) => Err(GetTransactionError::Request(text)),
        Reply::Answer { status, retry_after, body } => {
            if is_retryable_status(status, retryable) {
                let ms = parse_retry_after(&retry_after);
                Err(GetTransactionError::RetryAfter(Some(ms)))
            } else {
                Ok(completed_transfers(body))
            }
        },
    }
}

} // verus!
