//! The failures that the daemon-side flows report.

use vstd::prelude::*;

verus! {

/// What can go wrong while a flow against a live chain is followed.
#[derive(Debug, PartialEq, Eq)]
pub enum DaemonError {
    /// The interchain object does not fit what was asked of it, or a query
    /// answered in a way that the protocol rules out.
    IbcError(String),
    /// A transaction that was found carries a non-zero status code.
    TxFailed { code: usize, reason: String },
    /// The query matched nothing: the other chain may not have produced the
    /// block yet, so the caller may ask again.
    NoResultYet,
    /// The event query itself failed; the text is the adapter's report.
    QueryFailed(String),
    /// Any other failure, as a message.
    AnyError(String),
}

/// The mathematical content of a [`DaemonError`].
pub enum DaemonErrorView {
    IbcError(Seq<char>),
    TxFailed { code: usize, reason: Seq<char> },
    NoResultYet,
    QueryFailed(Seq<char>),
    AnyError(Seq<char>),
}

impl View for DaemonError {
    type V = DaemonErrorView;

    open spec fn view(&self) -> DaemonErrorView {
        match self {
            DaemonError::IbcError(m) => DaemonErrorView::IbcError(m@),
            DaemonError::TxFailed { code, reason } => DaemonErrorView::TxFailed {
                code: *code,
                reason: reason@,
            },
            DaemonError::NoResultYet => DaemonErrorView::NoResultYet,
            DaemonError::QueryFailed(m) => DaemonErrorView::QueryFailed(m@),
            DaemonError::AnyError(m) => DaemonErrorView::AnyError(m@),
        }
    }
}

impl DaemonErrorView {
    /// The message that the error carries.
    pub open spec fn message(self) -> Seq<char> {
        match self {
            DaemonErrorView::IbcError(m) => m,
            DaemonErrorView::TxFailed { reason, .. } => reason,
            DaemonErrorView::NoResultYet => "No transaction matches the query yet"@,
            DaemonErrorView::QueryFailed(m) => m,
            DaemonErrorView::AnyError(m) => m,
        }
    }
}

impl DaemonError {
    /// An [`DaemonError::IbcError`] with the given message.
    pub fn ibc_err(msg: String) -> (e: DaemonError)
        ensures
            e@ == DaemonErrorView::IbcError(msg@),
    {
        DaemonError::IbcError(msg)
    }

    /// The message that the error carries.
    pub fn to_string(&self) -> (s: String)
        ensures
            s@ == self@.message(),
    {
        match self {
            DaemonError::IbcError(m) => m.clone(),
            DaemonError::TxFailed { reason, .. } => reason.clone(),
            DaemonError::NoResultYet => "No transaction matches the query yet".to_owned(),
            DaemonError::QueryFailed(m) => m.clone(),
            DaemonError::AnyError(m) => m.clone(),
        }
    }

    /// Whether asking again may succeed: true of a query that matched
    /// nothing, false of every other failure.
    pub fn is_transient(&self) -> (r: bool)
        ensures
            r == (self@ is NoResultYet),
    {
        match self {
            DaemonError::NoResultYet => true,
            _ => false,
        }
    }
}

impl Clone for DaemonError {
    fn clone(&self) -> (r: Self)
        ensures
            r@ == self@,
    {
        match self {
            DaemonError::IbcError(m) => DaemonError::IbcError(m.clone()),
            DaemonError::TxFailed { code, reason } => DaemonError::TxFailed {
                code: *code,
                reason: reason.clone(),
            },
            DaemonError::NoResultYet => DaemonError::NoResultYet,
            DaemonError::QueryFailed(m) => DaemonError::QueryFailed(m.clone()),
            DaemonError::AnyError(m) => DaemonError::AnyError(m.clone()),
        }
    }
}

} // verus!
