//! The plain data types the service layer exchanges with callers: request
//! and response shapes, the uniform response envelope, and the service
//! configuration. The envelope constructors are the only logic here.

use vstd::prelude::*;

verus! {

/// The service configuration, fixed at start-up.
#[derive(Debug)]
pub struct Config {
    pub host: String,
    pub port: u16,
    pub contract_id: String,
    pub network: String,
    pub rpc_url: String,
    pub encryption_key: String,
}

impl Clone for Config {
    fn clone(&self) -> (r: Self)
        ensures
            r == *self,
    {
        Config {
            host: self.host.clone(),
            port: self.port,
            contract_id: self.contract_id.clone(),
            network: self.network.clone(),
            rpc_url: self.rpc_url.clone(),
            encryption_key: self.encryption_key.clone(),
        }
    }
}

/// A request to create a tender.
#[derive(Debug)]
pub struct CreateTenderRequest {
    pub creator: String,
    pub title: String,
    pub description: String,
    pub ipfs_hash: String,
    pub deadline: u64,
    pub reveal_deadline: u64,
    pub min_bid: i128,
}

/// A request to submit a sealed bid.
#[derive(Debug)]
pub struct SubmitBidRequest {
    pub tender_id: u64,
    pub bidder: String,
    pub encrypted_amount: String,
}

/// A request to reveal a bid.
#[derive(Debug)]
pub struct RevealBidRequest {
    pub tender_id: u64,
    pub bidder: String,
    pub actual_amount: i128,
    pub decryption_key: String,
}

/// A request to close a tender.
#[derive(Debug)]
pub struct CloseTenderRequest {
    pub tender_id: u64,
    pub caller: String,
}

/// A request to encrypt an amount for transport.
#[derive(Debug)]
pub struct EncryptRequest {
    pub amount: i128,
}

/// The encrypted amount and its decryption key.
#[derive(Debug)]
pub struct EncryptResponse {
    pub encrypted_amount: String,
    pub decryption_key: String,
}

/// A request to decrypt a transported amount.
#[derive(Debug)]
pub struct DecryptRequest {
    pub encrypted_amount: String,
    pub decryption_key: String,
}

/// A decrypted amount.
#[derive(Debug)]
pub struct DecryptResponse {
    pub amount: i128,
}

/// The uniform response envelope: either a payload or an error message,
/// never both.
#[derive(Debug)]
pub struct ApiResponse<T> {
    pub success: bool,
    pub data: Option<T>,
    pub error: Option<String>,
}

impl<T> ApiResponse<T> {
    /// Wrap a payload as a successful response.
    pub fn success(data: T) -> (r: Self)
        ensures
            r.success == true,
            r.data == Some(data),
            r.error is None,
    {
        Self { success: true, data: Some(data), error: None }
    }

    /// Wrap an error message as a failed response.
    pub fn error(message: String) -> (r: Self)
        ensures
            r.success == false,
            r.data is None,
            r.error == Some(message),
    {
        Self { success: false, data: None, error: Some(message) }
    }
}

} // verus!
