//! Rules of the wallet and donation API: what an error answers with, when a
//! wallet may be deleted, and where a new wallet's data comes from.

use crate::wallet::{validation_of, WalletData};
use vstd::prelude::*;
use vstd::string::*;

verus! {

/// Why a request failed.
#[derive(Clone, Debug, PartialEq, Eq)]
pub enum AppError {
    /// The relational store failed.
    DbError,
    /// The request is not acceptable; the text says why.
    InvalidInput(String),
    /// There is no such resource.
    NotFound,
    /// A webhook could not be delivered.
    WebhookError,
    /// Anything else went wrong.
    InternalServerError,
}

/// The mathematical value of an [`AppError`].
pub enum AppErrorView {
    DbError,
    InvalidInput(Seq<char>),
    NotFound,
    WebhookError,
    InternalServerError,
}

impl View for AppError {
    type V = AppErrorView;

    open spec fn view(&self) -> AppErrorView {
        match self {
            AppError::DbError => AppErrorView::DbError,
            AppError::InvalidInput(text) => AppErrorView::InvalidInput(text@),
            AppError::NotFound => AppErrorView::NotFound,
            AppError::WebhookError => AppErrorView::WebhookError,
            AppError::InternalServerError => AppErrorView::InternalServerError,
        }
    }
}

/// The status code and the message that an error answers with.
pub open spec fn response_of(e: AppErrorView) -> (u16, Seq<char>) {
    match e {
        AppErrorView::DbError => (500, "Database error"@),
        AppErrorView::InvalidInput(text) => (400, text),
        AppErrorView::NotFound => (404, "Not found"@),
        AppErrorView::WebhookError => (500, "Webhook delivery failed"@),
        AppErrorView::InternalServerError => (500, "Internal server error"@),
    }
}

impl AppError {
    /// The status code and the message to answer with.
    pub fn into_response(self) -> (r: (u16, String))
        ensures
            (r.0, r.1@) == response_of(self@),
    {
        match self {
            AppError::DbError => (500, String::from_str("Database error")),
            AppError::InvalidInput(text) => (400, text),
            AppError::NotFound => (404, String::from_str("Not found")),
            AppError::WebhookError => (500, String::from_str("Webhook delivery failed")),
            AppError::InternalServerError => (500, String::from_str("Internal server error")),
        }
    }
}

/// The texts of a list, joined by a comma and a blank.
pub open spec fn joined(ids: Seq<Seq<char>>) -> Seq<char>
    decreases ids.len(),
{
    if ids.len() == 0 {
        Seq::empty()
    } else if ids.len() == 1 {
        ids[0]
    } else {
        joined(ids.drop_last()) + ", "@ + ids.last()
    }
}

/// The characters of each text of a list.
pub open spec fn texts_view(texts: Seq<String>) -> Seq<Seq<char>> {
    texts.map_values(|t: String| t@)
}

/// Why a wallet may not be deleted: it is linked to these donations. A
/// wallet that no donation is linked to may be.
pub open spec fn deletion_refusal_of(donation_ids: Seq<Seq<char>>) -> Option<AppErrorView> {
    if donation_ids.len() == 0 {
        None
    } else {
        Some(
            AppErrorView::InvalidInput(
                "Сan not be deleted, because linked to donations: "@ + joined(donation_ids),
            ),
        )
    }
}

/// The view of an optional error.
pub open spec fn refusal_view(e: Option<AppError>) -> Option<AppErrorView> {
    match e {
        Some(e) => Some(e@),
        None => None,
    }
}

/// Joins texts by a comma and a blank.
pub fn join_ids(ids: &Vec<String>) -> (r: String)
    ensures
        r@ == joined(texts_view(ids@)),
{
    let mut r = String::new();
    let mut i: usize = 0;
    let ghost all = texts_view(ids@);
    while i < ids.len()
        invariant
            i <= ids.len(),
            all == texts_view(ids@),
            r@ == joined(all.take(i as int)),
        decreases ids.len() - i,
    {
        proof {
            assert(all.take(i + 1).drop_last() =~= all.take(i as int));
        }
        if i > 0 {
            r.append(", ");
        }
        r.append(ids[i].as_str());
        i += 1;
    }
    assert(all.take(ids@.len() as int) =~= all);
    r
}

/// Tells whether a wallet may be deleted, given the donations linked to it.
pub fn deletion_refusal(donation_ids: &Vec<String>) -> (r: Option<AppError>)
    ensures
        refusal_view(r) == deletion_refusal_of(texts_view(donation_ids@)),
{
    if donation_ids.len() == 0 {
        None
    } else {
        let list = join_ids(donation_ids);
        let text = String::from_str("Сan not be deleted, because linked to donations: ").concat(
            list.as_str(),
        );
        Some(AppError::InvalidInput(text))
    }
}

/// What a delete or an update that touched `rows` rows answers with: no
/// row touched means that there is no such resource.
pub fn require_affected(rows: u64) -> (r: Result<(), AppError>)
    ensures
        rows == 0 ==> r == Err::<(), AppError>(AppError::NotFound),
        rows > 0 ==> r is Ok,
{
    if rows == 0 {
        Err(AppError::NotFound)
    } else {
        Ok(())
    }
}

/// Where a new wallet's data comes from.
#[derive(Clone, Copy, Debug, PartialEq, Eq, Structural)]
pub enum WalletSource {
    /// The caller handed it in and it passed validation.
    Given,
    /// It is to be generated.
    Generate,
}

/// The source of a new wallet's data: data that was handed in must pass
/// validation and is refused with its verdict otherwise; without data the
/// wallet is generated.
pub open spec fn wallet_source_of(data: Option<WalletData>) -> Result<WalletSource, AppErrorView> {
    match data {
        Some(d) => match validation_of(d) {
            Ok(()) => Ok(WalletSource::Given),
            Err(text) => Err(AppErrorView::InvalidInput(text)),
        },
        None => Ok(WalletSource::Generate),
    }
}

/// The view of a source or its refusal.
pub open spec fn source_view(r: Result<WalletSource, AppError>) -> Result<
    WalletSource,
    AppErrorView,
> {
    match r {
        Ok(s) => Ok(s),
        Err(e) => Err(e@),
    }
}

/// Decides where a new wallet's data comes from.
pub fn wallet_source(data: Option<WalletData>) -> (r: Result<WalletSource, AppError>)
    ensures
        source_view(r) == wallet_source_of(data),
{
    match data {
        Some(d) => match d.validate() {
            Ok(()) => Ok(WalletSource::Given),
            Err(text) => Err(AppError::InvalidInput(text)),
        },
        None => Ok(WalletSource::Generate),
    }
}

} // verus!
