//! The settings that the engine is started with.

use vstd::prelude::*;

verus! {

/// The frequency, in hertz, at which frames go out unless a setting says otherwise.
pub const DEFAULT_ARTNET_HERTZ: u64 = 44;

/// The settings of one run, as the command line gives them. Addresses are kept as
/// the text they were given as.
#[derive(Debug)]
pub struct Cli {
    /// Run without a window.
    pub headless_mode: bool,
    pub project_path: String,
    pub log_level: String,
    /// Send frames to everyone on the network.
    pub artnet_broadcast: bool,
    pub artnet_universe: u8,
    /// The address of the interface to send from; unused when broadcasting.
    pub unicast_src: Option<String>,
    /// The address to send to; unused when broadcasting.
    pub unicast_dst: Option<String>,
    /// How often a frame may go out, in hertz.
    pub artnet_update_frequency: u64,
    /// Send zeroes on every tick.
    pub auto_zero: bool,
    /// Send random bytes on every tick.
    pub auto_random: bool,
    pub tether_disable_autoconnect: bool,
    pub tether_subscribe_id: Option<String>,
    pub tether_host: Option<String>,
}

impl Default for Cli {
    /// The settings of a run that was given no options.
    fn default() -> (cli: Self)
        ensures
            !cli.headless_mode,
            cli.project_path@ == "./example.project.json"@,
            cli.log_level@ == "info"@,
            !cli.artnet_broadcast,
            cli.artnet_universe == 1,
            cli.unicast_src is None,
            cli.unicast_dst is None,
            cli.artnet_update_frequency == DEFAULT_ARTNET_HERTZ,
            !cli.auto_zero,
            !cli.auto_random,
            !cli.tether_disable_autoconnect,
            cli.tether_subscribe_id is None,
            cli.tether_host is None,
    {
        Cli {
            headless_mode: false,
            project_path: String::from_str("./example.project.json"),
            log_level: String::from_str("info"),
            artnet_broadcast: false,
            artnet_universe: 1,
            unicast_src: None,
            unicast_dst: None,
            artnet_update_frequency: DEFAULT_ARTNET_HERTZ,
            auto_zero: false,
            auto_random: false,
            tether_disable_autoconnect: false,
            tether_subscribe_id: None,
            tether_host: None,
        }
    }
}

} // verus!
