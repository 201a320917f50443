//! The settings of a deployment.

use vstd::prelude::*;

verus! {

/// The settings that the unit was started with.
#[derive(Debug)]
pub struct Config {
    /// `"router"` where the unit fronts a pool; anything else where it
    /// sequences by itself.
    pub mode: String,
    /// The id of the deployment's own process, which is never redirected and
    /// cannot be created again.
    pub ao_process_id: String,
    pub su_wallet_path: String,
    pub upload_node_url: String,
    pub gateway_url: String,
    pub scheduler_list_path: String,
}

impl Config {
    /// Whether the settings put the unit in router mode.
    pub open spec fn is_router(&self) -> bool {
        self.mode@ == "router"@
    }

    /// Whether the unit fronts a pool of scheduler units.
    pub fn router_mode(&self) -> (router: bool)
        ensures
            router == self.is_router(),
    {
        let router_word = "router".to_owned();
        self.mode == router_word
    }
}

} // verus!
