//! The listeners' bookkeeping: one listener per configured address, each
//! bound on its own, so that one failing address leaves the others alone.

use vstd::prelude::*;

use crate::error::ConnectionManagerError;

verus! {

/// Whether `r` reports the bind attempt `bind` on the configured `address`:
/// the bound address on success, a listener error naming the configured
/// address and the cause on failure.
pub open spec fn reports_bind(
    address: Seq<char>,
    bind: Result<String, String>,
    r: Result<String, ConnectionManagerError>,
) -> bool {
    match bind {
        Ok(bound) => r matches Ok(x) && x@ == bound@,
        Err(cause) => r matches Err(ConnectionManagerError::ListenerError { address: a, details })
            && a@ == address && details@ == cause@,
    }
}

/// The result of binding a listener on `address`, given what the transport
/// answered: the address it bound to, or why it failed.
pub fn bind_result(address: &String, bind: &Result<String, String>) -> (r: Result<
    String,
    ConnectionManagerError,
>)
    ensures
        reports_bind(address@, *bind, r),
{
    match bind {
        Ok(bound) => Ok(bound.clone()),
        Err(cause) => Err(
            ConnectionManagerError::ListenerError { address: address.clone(), details: cause.clone() },
        ),
    }
}

/// The results of binding every configured listener, one per address in the
/// configured order; each depends on its own bind attempt alone.
pub fn bind_results(addresses: &Vec<String>, binds: &Vec<Result<String, String>>) -> (r: Vec<
    Result<String, ConnectionManagerError>,
>)
    requires
        addresses@.len() == binds@.len(),
    ensures
        r@.len() == addresses@.len(),
        forall|i: int| 0 <= i < r@.len() ==> reports_bind(addresses@[i]@, binds@[i], #[trigger] r@[i]),
{
    let mut r: Vec<Result<String, ConnectionManagerError>> = Vec::new();
    let mut i: usize = 0;
    while i < addresses.len()
        invariant
            i <= addresses.len(),
            addresses@.len() == binds@.len(),
            r@.len() == i,
            forall|j: int| 0 <= j < i ==> reports_bind(addresses@[j]@, binds@[j], #[trigger] r@[j]),
        decreases addresses.len() - i,
    {
        r.push(bind_result(&addresses[i], &binds[i]));
        i += 1;
    }
    r
}

} // verus!
