//! Runtime configuration values (loaded from `config.toml` by the program).

use vstd::prelude::*;

verus! {

/// Robot configuration.
#[derive(Debug, Clone)]
pub struct Config {
    /// Robot id expected in CrashPilot packets and reported back in status
    /// packets.
    pub robot_id: u8,
    pub cp_config: CrashPilotConfig,
    /// Unix socket path of the onboard vision.
    pub onboard_vision_socket_path: String,
    pub teensy: TeensyConfig,
}

/// CrashPilot network settings.
#[derive(Debug, Clone, Copy)]
pub struct CrashPilotConfig {
    /// The IPv4 address (octets) that status packets are sent to.
    pub host: [u8; 4],
    /// Local UDP port for CrashPilot packets.
    pub port: u16,
    /// Remote UDP port for status packets.
    pub port_outgoing: u16,
}

/// USB ids of the motor controller.
#[derive(Debug, Clone, Copy, PartialEq, Eq, Structural)]
pub struct TeensyConfig {
    pub vid: u16,
    pub pid: u16,
}

impl Default for TeensyConfig {
    fn default() -> (r: Self)
        ensures
            r == (TeensyConfig { vid: 0x16C0, pid: 0x0486 }),
    {
        TeensyConfig { vid: 0x16C0, pid: 0x0486 }
    }
}

impl Default for CrashPilotConfig {
    fn default() -> (r: Self)
        ensures
            r.host@ == seq![10u8, 0u8, 64u8, 221u8],
            r.port == 1024,
            r.port_outgoing == 2048,
    {
        let r = CrashPilotConfig { host: [10u8, 0u8, 64u8, 221u8], port: 1024, port_outgoing: 2048 };
        assert(r.host@ =~= seq![10u8, 0u8, 64u8, 221u8]);
        r
    }
}

impl CrashPilotConfig {
    /// The local port that status packets are sent from: two above the
    /// outgoing port.
    pub fn status_bind_port(&self) -> (r: u16)
        requires
            self.port_outgoing + 2 <= u16::MAX,
        ensures
            r == self.port_outgoing + 2,
    {
        self.port_outgoing + 2
    }
}

impl Default for Config {
    fn default() -> (r: Self)
        ensures
            r.robot_id == 1,
            r.cp_config.host@ == seq![10u8, 0u8, 64u8, 221u8],
            r.cp_config.port == 1024,
            r.cp_config.port_outgoing == 2048,
            r.onboard_vision_socket_path@ == "/tmp/ov_socket"@,
            r.teensy == (TeensyConfig { vid: 0x16C0, pid: 0x0486 }),
    {
        Config {
            robot_id: 1,
            cp_config: CrashPilotConfig::default(),
            onboard_vision_socket_path: "/tmp/ov_socket".to_owned(),
            teensy: TeensyConfig::default(),
        }
    }
}

} // verus!
