//! The request and reply payloads of one money-transfer call.

use vstd::prelude::*;

verus! {

/// Payload of one call: move `amount` from the payer to the payee.
pub struct Request {
    pub payer_id: u32,
    pub payee_id: u32,
    pub amount: u32,
}

impl Request {
    /// A well-formed request names two distinct identifiers drawn from a
    /// pool of `pool_size` accounts, numbered from one.
    pub open spec fn wf(self, pool_size: u32) -> bool {
        &&& self.payer_id != self.payee_id
        &&& 1 <= self.payer_id <= pool_size
        &&& 1 <= self.payee_id <= pool_size
    }
}

/// Reply of one call. A present `error` marks an application-level error;
/// its absence marks success. `duration` and `retries` report what the
/// service measured while executing the call, when it did.
pub struct Response {
    pub balance: Option<u32>,
    pub duration: Option<u64>,
    pub retries: Option<u32>,
    pub error: Option<String>,
    pub error_code: Option<String>,
}

} // verus!
