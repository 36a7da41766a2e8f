use vstd::prelude::*;

use crate::calc::is_digit;
use crate::strings::{starts_with_seq, str_skip, str_starts_with, strs_eq};

verus! {

// ---------------------------------------------------------------------------
// The system-facing managers decide here which command an action names;
// performing the command (shelling out to the network, bluetooth, audio or
// container tools) is the shell's business.
// ---------------------------------------------------------------------------

/// What a network action asks for.
#[derive(Clone, Debug, PartialEq, Eq)]
pub enum NetworkCommand {
    Scan,
    ToggleWifi,
    Disconnect,
    NoOp,
}

pub struct NetworkManager;

/// The command a network action identifier names.
pub open spec fn spec_network_command(a: Seq<char>) -> NetworkCommand {
    if a == "wifi:scan"@ {
        NetworkCommand::Scan
    } else if a == "wifi:toggle"@ {
        NetworkCommand::ToggleWifi
    } else if a == "wifi:disconnect"@ {
        NetworkCommand::Disconnect
    } else {
        NetworkCommand::NoOp
    }
}

impl NetworkManager {
    pub fn new() -> (m: NetworkManager) {
        NetworkManager
    }

    /// Decides which command an action identifier names.
    pub fn execute_action(&self, action_id: &str) -> (r: NetworkCommand)
        ensures
            r == spec_network_command(action_id@),
    {
        if strs_eq(action_id, "wifi:scan") {
            NetworkCommand::Scan
        } else if strs_eq(action_id, "wifi:toggle") {
            NetworkCommand::ToggleWifi
        } else if strs_eq(action_id, "wifi:disconnect") {
            NetworkCommand::Disconnect
        } else {
            NetworkCommand::NoOp
        }
    }
}

/// What a bluetooth action asks for.
#[derive(Clone, Debug, PartialEq, Eq)]
pub enum BluetoothCommand {
    StartScan,
    TogglePower,
    ToggleDevice(String),
    NoOp,
}

pub struct BluetoothManager;

impl BluetoothManager {
    pub fn new() -> (m: BluetoothManager) {
        BluetoothManager
    }

    /// Decides which command an action identifier names.
    pub fn execute_action(&self, action_id: &str) -> (r: BluetoothCommand)
        ensures
            ({
                let a = action_id@;
                if a == "bt:scan"@ {
                    r == BluetoothCommand::StartScan
                } else if a == "bt:toggle"@ {
                    r == BluetoothCommand::TogglePower
                } else if starts_with_seq(a, "bt:"@) {
                    r matches BluetoothCommand::ToggleDevice(mac) && mac@ == a.subrange(
                        3,
                        a.len() as int,
                    )
                } else {
                    r == BluetoothCommand::NoOp
                }
            }),
    {
        proof {
            reveal_strlit("bt:");
            reveal_strlit("bt:scan");
            reveal_strlit("bt:toggle");
        }
        if strs_eq(action_id, "bt:scan") {
            BluetoothCommand::StartScan
        } else if strs_eq(action_id, "bt:toggle") {
            BluetoothCommand::TogglePower
        } else if str_starts_with(action_id, "bt:") {
            BluetoothCommand::ToggleDevice(str_skip(action_id, 3))
        } else {
            BluetoothCommand::NoOp
        }
    }
}

/// The container runtime found on the machine.
#[derive(Clone, Copy, Debug, PartialEq, Eq, Structural)]
pub enum DockerRuntime {
    Docker,
    Podman,
    Missing,
}

/// What a container action asks for.
#[derive(Clone, Debug, PartialEq, Eq)]
pub enum DockerCommand {
    PruneContainers,
    PruneAll,
    Start(String),
    Stop(String),
    Remove(String),
    NoOp,
}

pub struct DockerManager {
    pub runtime: DockerRuntime,
}

impl DockerManager {
    /// A manager over the runtime the shell detected.
    pub fn new(runtime: DockerRuntime) -> (m: DockerManager)
        ensures
            m.runtime == runtime,
    {
        DockerManager { runtime }
    }

    /// The command-line tool for the runtime, if one is present.
    pub fn runtime_cmd(&self) -> (r: Option<&str>)
        ensures
            self.runtime == DockerRuntime::Docker ==> (r matches Some(c) && c@ == "docker"@),
            self.runtime == DockerRuntime::Podman ==> (r matches Some(c) && c@ == "podman"@),
            self.runtime == DockerRuntime::Missing ==> r is None,
    {
        match self.runtime {
            DockerRuntime::Docker => Some("docker"),
            DockerRuntime::Podman => Some("podman"),
            DockerRuntime::Missing => None,
        }
    }

    /// Decides which command an action identifier names.
    pub fn execute_action(&self, action_id: &str) -> (r: DockerCommand)
        ensures
            ({
                let a = action_id@;
                if a == "docker:action:prune"@ {
                    r == DockerCommand::PruneContainers
                } else if a == "docker:action:prune_all"@ {
                    r == DockerCommand::PruneAll
                } else if starts_with_seq(a, "docker:start:"@) {
                    r matches DockerCommand::Start(c) && c@ == a.subrange(13, a.len() as int)
                } else if starts_with_seq(a, "docker:stop:"@) {
                    r matches DockerCommand::Stop(c) && c@ == a.subrange(12, a.len() as int)
                } else if starts_with_seq(a, "docker:remove:"@) {
                    r matches DockerCommand::Remove(c) && c@ == a.subrange(14, a.len() as int)
                } else {
                    r == DockerCommand::NoOp
                }
            }),
    {
        proof {
            reveal_strlit("docker:start:");
            reveal_strlit("docker:stop:");
            reveal_strlit("docker:remove:");
            reveal_strlit("docker:action:prune");
            reveal_strlit("docker:action:prune_all");
        }
        if strs_eq(action_id, "docker:action:prune") {
            DockerCommand::PruneContainers
        } else if strs_eq(action_id, "docker:action:prune_all") {
            DockerCommand::PruneAll
        } else if str_starts_with(action_id, "docker:start:") {
            DockerCommand::Start(str_skip(action_id, 13))
        } else if str_starts_with(action_id, "docker:stop:") {
            DockerCommand::Stop(str_skip(action_id, 12))
        } else if str_starts_with(action_id, "docker:remove:") {
            DockerCommand::Remove(str_skip(action_id, 14))
        } else {
            DockerCommand::NoOp
        }
    }
}

/// What an audio action asks for.
#[derive(Clone, Debug, PartialEq, Eq)]
pub enum AudioCommand {
    ToggleMute,
    VolumeUp,
    VolumeDown,
    SetVolume(u32),
    SetDefaultSink(String),
    NoOp,
}

pub struct AudioManager;

/// Capped digit accumulation for a volume literal.
pub open spec fn vol_accum(s: Seq<char>, j: nat) -> nat
    decreases j,
{
    if j == 0 {
        0
    } else {
        let p = vol_accum(s, (j - 1) as nat);
        let d = crate::calc::digit_val(s[j - 1]);
        if p * 10 + d > 0xffff_ffff {
            0x1_0000_0000
        } else {
            p * 10 + d
        }
    }
}

/// The volume a text names, when it is a plain decimal that fits.
pub open spec fn vol_of(s: Seq<char>) -> Option<u32> {
    if s.len() > 0 && (forall|k: int| 0 <= k < s.len() ==> is_digit(s[k])) && vol_accum(
        s,
        s.len(),
    ) <= 0xffff_ffff {
        Some(vol_accum(s, s.len()) as u32)
    } else {
        None
    }
}

fn parse_vol(s: &str) -> (r: Option<u32>)
    ensures
        r == vol_of(s@),
{
    let v = crate::strings::to_chars(s);
    let n: usize = v.len();
    if n == 0 {
        return None;
    }
    let mut acc: u64 = 0;
    let mut j: usize = 0;
    while j < n
        invariant
            j <= n,
            n == v@.len(),
            v@ == s@,
            acc as nat == vol_accum(s@, j as nat),
            acc <= 0x1_0000_0000,
            forall|k: int| 0 <= k < j ==> is_digit(s@[k]),
        decreases n - j,
    {
        let c = v[j];
        if !('0' <= c && c <= '9') {
            proof {
                assert(!(forall|k: int| 0 <= k < s@.len() ==> is_digit(s@[k])));
            }
            return None;
        }
        let d: u64 = ((c as u32) - 48) as u64;
        let t: u64 = acc * 10 + d;
        if t > 0xffff_ffff {
            acc = 0x1_0000_0000;
        } else {
            acc = t;
        }
        j = j + 1;
    }
    if acc <= 0xffff_ffff {
        Some(acc as u32)
    } else {
        None
    }
}

impl AudioManager {
    pub fn new() -> (m: AudioManager) {
        AudioManager
    }

    /// Decides which command an action identifier (or a bare volume
    /// query) names.
    pub fn execute_action(&self, action_id: &str, query: &str) -> (r: AudioCommand)
        ensures
            ({
                let a = action_id@;
                if a == "audio:mute"@ {
                    r == AudioCommand::ToggleMute
                } else if a == "audio:up"@ {
                    r == AudioCommand::VolumeUp
                } else if a == "audio:down"@ {
                    r == AudioCommand::VolumeDown
                } else if starts_with_seq(a, "audio:set:"@) {
                    r == (match vol_of(a.subrange(10, a.len() as int)) {
                        Some(v) => AudioCommand::SetVolume(v),
                        None => AudioCommand::NoOp,
                    })
                } else if starts_with_seq(a, "audio:sink:"@) {
                    r matches AudioCommand::SetDefaultSink(sk) && sk@ == a.subrange(
                        11,
                        a.len() as int,
                    )
                } else {
                    r == (match vol_of(query@) {
                        Some(v) => AudioCommand::SetVolume(v),
                        None => AudioCommand::NoOp,
                    })
                }
            }),
    {
        proof {
            reveal_strlit("audio:set:");
            reveal_strlit("audio:sink:");
            reveal_strlit("audio:mute");
            reveal_strlit("audio:up");
            reveal_strlit("audio:down");
        }
        if strs_eq(action_id, "audio:mute") {
            AudioCommand::ToggleMute
        } else if strs_eq(action_id, "audio:up") {
            AudioCommand::VolumeUp
        } else if strs_eq(action_id, "audio:down") {
            AudioCommand::VolumeDown
        } else if str_starts_with(action_id, "audio:set:") {
            let t = str_skip(action_id, 10);
            match parse_vol(t.as_str()) {
                Some(v) => AudioCommand::SetVolume(v),
                None => AudioCommand::NoOp,
            }
        } else if str_starts_with(action_id, "audio:sink:") {
            AudioCommand::SetDefaultSink(str_skip(action_id, 11))
        } else {
            match parse_vol(query) {
                Some(v) => AudioCommand::SetVolume(v),
                None => AudioCommand::NoOp,
            }
        }
    }
}

/// The window manager found on the machine.
#[derive(Clone, Copy, Debug, PartialEq, Eq, Structural)]
pub enum WMType {
    I3,
    Hyprland,
    Wmctrl,
    Unknown,
}

pub struct WindowsManager {
    pub wm: WMType,
}

impl WindowsManager {
    /// A manager over the window manager the shell detected.
    pub fn new(wm: WMType) -> (m: WindowsManager)
        ensures
            m.wm == wm,
    {
        WindowsManager { wm }
    }
}

} // verus!
