//! Guest-launch and permission policy: the fixed paths of the guest root,
//! device-node directory and log file, the permission mode the normalizer
//! applies, the exact command and environment the container is spawned
//! with, and the rule that a failed log-file creation abandons the launch
//! silently instead of failing the bootstrap.

use vstd::prelude::*;

verus! {

/// Permission mode the normalizer sets on every device node: world
/// read/write/execute.
pub const DEVICE_NODE_MODE: u32 = 0o777;

/// The guest root filesystem, the container's working directory.
pub open spec fn guest_root_spec() -> Seq<char> {
    "/data/data/io.twoyi/rootfs"@
}

/// The device-node directory inside the guest root whose entries get their
/// permissions widened during bootstrap.
pub open spec fn device_input_dir_spec() -> Seq<char> {
    "/data/data/io.twoyi/rootfs/dev/input"@
}

/// The log file that receives the guest's standard output and error.
pub open spec fn log_file_path_spec() -> Seq<char> {
    "/data/data/io.twoyi/log.txt"@
}

/// The single environment variable handed to the guest: the loader path.
pub open spec fn loader_env_key_spec() -> Seq<char> {
    "TYLOADER"@
}

/// The guest root filesystem path as a value.
pub fn guest_root() -> (s: String)
    ensures
        s@ == guest_root_spec(),
{
    String::from_str("/data/data/io.twoyi/rootfs")
}

/// The device-node directory: the guest root with "/dev/input" appended.
pub fn device_input_dir() -> (s: String)
    ensures
        s@ == device_input_dir_spec(),
        s@ == guest_root_spec() + "/dev/input"@,
{
    let root = guest_root();
    let s = root.concat("/dev/input");
    proof {
        reveal_strlit("/data/data/io.twoyi/rootfs");
        reveal_strlit("/dev/input");
        reveal_strlit("/data/data/io.twoyi/rootfs/dev/input");
        assert(s@ =~= device_input_dir_spec());
    }
    s
}

/// What the permission normalizer does during bootstrap: set every entry of
/// the device-node directory to this mode, best effort, reporting nothing.
pub struct PermissionPlan {
    pub dir: String,
    pub mode: u32,
}

impl PermissionPlan {
    /// The one permission plan this module ever issues.
    pub fn new() -> (p: PermissionPlan)
        ensures
            p.dir@ == device_input_dir_spec(),
            p.mode == DEVICE_NODE_MODE,
    {
        PermissionPlan { dir: device_input_dir(), mode: DEVICE_NODE_MODE }
    }
}

/// The guest container's spawn: `nice -n 5 ./init`, run in the guest root,
/// with one environment variable carrying the loader path, and both output
/// streams redirected to the log file. The spawn is detached: nothing waits
/// on or reaps the guest.
pub struct LaunchDescriptor {
    pub program: String,
    pub priority_flag: String,
    pub priority_level: String,
    pub guest_init: String,
    pub working_dir: String,
    pub env_key: String,
    pub env_value: String,
    pub log_path: String,
}

impl LaunchDescriptor {
    /// Build the descriptor for a bootstrap: every field but the loader
    /// path is a fixed policy constant.
    pub fn new(loader_path: String) -> (d: LaunchDescriptor)
        ensures
            d.program@ == "nice"@,
            d.priority_flag@ == "-n"@,
            d.priority_level@ == "5"@,
            d.guest_init@ == "./init"@,
            d.working_dir@ == guest_root_spec(),
            d.env_key@ == loader_env_key_spec(),
            d.env_value@ == loader_path@,
            d.log_path@ == log_file_path_spec(),
    {
        LaunchDescriptor {
            program: String::from_str("nice"),
            priority_flag: String::from_str("-n"),
            priority_level: String::from_str("5"),
            guest_init: String::from_str("./init"),
            working_dir: guest_root(),
            env_key: String::from_str("TYLOADER"),
            env_value: loader_path,
            log_path: String::from_str("/data/data/io.twoyi/log.txt"),
        }
    }
}

/// Whether the container was spawned or the launch was silently abandoned.
#[derive(Clone, Copy, PartialEq, Eq, Debug)]
pub enum LaunchOutcome {
    Spawned,
    Abandoned,
}

/// Launch-failure policy: the container is spawned exactly when every
/// prerequisite of the launch succeeded — the loader string decoded, the
/// log file was created, and its handle was duplicated for the second
/// output stream. Any failure abandons the launch silently, nothing more:
/// no error reaches the host, and the bootstrap that already dispatched
/// the render worker is unaffected.
pub fn resolve_launch(loader_decoded: bool, log_file_created: bool, log_handle_duplicated: bool)
    -> (o: LaunchOutcome)
    ensures
        o == (if loader_decoded && log_file_created && log_handle_duplicated {
            LaunchOutcome::Spawned
        } else {
            LaunchOutcome::Abandoned
        }),
{
    if loader_decoded && log_file_created && log_handle_duplicated {
        LaunchOutcome::Spawned
    } else {
        LaunchOutcome::Abandoned
    }
}

} // verus!
