//! Logging in by scanning a code: what is answered to the device that shows
//! the code and to the device that scans it.

use crate::models::StoreError;
use vstd::prelude::*;

verus! {

/// How far a login by code has come.
#[derive(Clone, Copy, Debug, PartialEq, Eq, Structural)]
pub enum QrSessionStatus {
    Pending,
    Scanned,
    Authenticated,
}

/// What is on record for a login by code.
#[derive(Debug, PartialEq, Eq)]
pub struct QrRecord {
    pub status: QrSessionStatus,
    /// The token left by the device that scanned the code, if any.
    pub jwt: Option<String>,
}

/// The answer to the device that shows the code and asks how far the login
/// has come.
#[derive(Debug, PartialEq, Eq)]
pub enum PollReply {
    /// 200, with the token on record: the code has been scanned.
    Token(Option<String>),
    /// 200, with the status `pending`: nobody has scanned the code yet.
    Pending,
    /// 404: there is no such login.
    NotFound,
    /// 500: the store failed.
    Failed,
}

/// The answer to the device that has scanned a code.
#[derive(Clone, Copy, Debug, PartialEq, Eq, Structural)]
pub enum ScanReply {
    /// 200: the login has been marked as scanned.
    Scanned,
    /// 404: there is no such login.
    NotFound,
    /// 500: the store failed.
    Failed,
}

/// Answers a poll, given what the store holds for the login.
pub fn poll_qr_session(record: Result<Option<QrRecord>, StoreError>) -> (reply: PollReply)
    ensures
        match record {
            Ok(Some(record)) => if record.status == QrSessionStatus::Pending {
                reply is Pending
            } else {
                reply == PollReply::Token(record.jwt)
            },
            Ok(None) => reply is NotFound,
            Err(_) => reply is Failed,
        },
{
    match record {
        Ok(Some(record)) => match record.status {
            QrSessionStatus::Scanned | QrSessionStatus::Authenticated => PollReply::Token(
                record.jwt,
            ),
            QrSessionStatus::Pending => PollReply::Pending,
        },
        Ok(None) => PollReply::NotFound,
        Err(_) => PollReply::Failed,
    }
}

/// Answers a scan, given how many logins the store has marked as scanned.
pub fn scan_qr_session(updated: Result<u64, StoreError>) -> (reply: ScanReply)
    ensures
        reply == match updated {
            Ok(rows) => if rows > 0 {
                ScanReply::Scanned
            } else {
                ScanReply::NotFound
            },
            Err(_) => ScanReply::Failed,
        },
{
    match updated {
        Ok(rows) => if rows > 0 {
            ScanReply::Scanned
        } else {
            ScanReply::NotFound
        },
        Err(_) => ScanReply::Failed,
    }
}

} // verus!
