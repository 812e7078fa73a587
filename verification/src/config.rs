//! Deployment configuration: which environment the gateway serves, the
//! origin allowed to call it, and the remote object-store settings. Passed
//! explicitly at construction time instead of being read from the process
//! environment deep inside the core.

use vstd::prelude::*;

verus! {

/// The deployment environment the gateway runs in.
#[derive(Clone, Copy, Debug, PartialEq, Eq, Structural)]
pub enum Env {
    Local,
    Test,
}

/// Remote object-store settings: the region, the bucket that forms the
/// gateway's single flat namespace, and the object a one-off transfer
/// concerns.
pub struct Opt {
    /// The region of the object store; the provider's default when absent.
    pub region: Option<String>,
    /// The name of the bucket.
    pub bucket: String,
    /// The name of the file to upload.
    pub filename: String,
    /// The name of the object in the bucket.
    pub key: String,
    /// Whether to display additional information.
    pub verbose: bool,
}

/// The frontend origin the boundary may accept cross-origin calls from.
pub fn frontend_host(env: &Env) -> (host: &'static str)
    ensures
        *env is Local ==> host@ == "http://localhost:3000"@,
        *env is Test ==> host@ == "http://foo.capi.finance"@,
{
    match env {
        Env::Local => "http://localhost:3000",
        Env::Test => "http://foo.capi.finance",
    }
}

} // verus!
