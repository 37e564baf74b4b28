//! The registration interface: at startup the module announces itself to an
//! orchestrating backend and receives the connection parameters the pipeline
//! is built with. The calls themselves are plain HTTP made by the server
//! around this library; here are the endpoint paths they use and the shape
//! of the answer they decode.

use vstd::prelude::*;

verus! {

/// The connection parameters the backend answers a registration with. Only
/// the vector-index address and collection feed this pipeline; the auxiliary
/// storage parameters are carried for the rest of the deployment.
pub struct RegisterResponse {
    pub mongo_address: String,
    pub mongo_database: String,
    pub mongo_collection: String,
    pub qdrant_address: String,
    pub qdrant_collection: String,
}

/// The backend's registration endpoint under `address`.
pub fn register_url(address: &str) -> (r: String)
    ensures
        r@ == address@ + "/modules/output/register"@,
{
    let mut s = address.to_owned();
    s.append("/modules/output/register");
    s
}

/// The backend's unregistration endpoint under `address`.
pub fn unregister_url(address: &str) -> (r: String)
    ensures
        r@ == address@ + "/modules/output/unregister"@,
{
    let mut s = address.to_owned();
    s.append("/modules/output/unregister");
    s
}

} // verus!
