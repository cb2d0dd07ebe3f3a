//! The shapes of the messages exchanged with the wallet service.

use vstd::prelude::*;

verus! {

/// The request to open a wallet file.
pub struct OpenWalletRequest {
    pub filename: String,
    pub password: String,
}

/// The envelope of every answer of the wallet service: a result or an error.
#[derive(Debug)]
pub struct RpcResponse<T> {
    pub result: Option<T>,
    pub error: Option<String>,
}

} // verus!
