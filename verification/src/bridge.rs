use vstd::prelude::*;

verus! {

/// Where the AI bridge is expected to listen. Fixed at process start.
pub struct BridgeConfig {
    pub url: String,
}

impl BridgeConfig {
    /// The default endpoint used when nothing else is configured.
    pub fn default_local() -> (r: BridgeConfig)
        ensures
            r.url@ == "http://localhost:8000"@,
    {
        BridgeConfig { url: "http://localhost:8000".to_owned() }
    }
}

/// The probe of the bridge endpoint is not implemented: the check reports
/// the bridge as reachable for every configuration.
pub fn check_ai_bridge_connection(_config: &BridgeConfig) -> (r: bool)
    ensures
        r == true,
{
    true
}

/// Law: the connection check is pure. Any two results, for any two
/// configurations, agree.
pub proof fn lemma_bridge_check_consistent(
    c1: &BridgeConfig,
    c2: &BridgeConfig,
    r1: bool,
    r2: bool,
)
    requires
        call_ensures(check_ai_bridge_connection, (c1,), r1),
        call_ensures(check_ai_bridge_connection, (c2,), r2),
    ensures
        r1 == r2,
{
}

} // verus!
