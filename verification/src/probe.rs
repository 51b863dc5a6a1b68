//! How much capacity a node has: what the configuration says, and for what it
//! leaves open, what the machine reports.

use systemstat::{Platform, System};
use vstd::prelude::*;

verus! {

/// Bytes in a gibibyte.
pub const GIB: u64 = 1024 * 1024 * 1024;

/// The settings that fix a node's capacity by hand. Each one that is absent
/// is looked up on the machine instead.
#[derive(Debug)]
pub struct Config {
    /// The GPU devices to use, if any.
    pub gpu_devices: Option<String>,
    /// The number of CPUs, if set.
    pub num_cpus: Option<u64>,
    /// The memory size in gibibytes, if set.
    pub mem_gb: Option<u64>,
}

impl Config {
    /// One when GPU devices are configured, zero when not. This is a flag for
    /// their presence, not the number of devices.
    pub open spec fn gpu_count(self) -> u64 {
        if self.gpu_devices is Some {
            1
        } else {
            0
        }
    }

    /// The configured memory size, in bytes, fits in a `u64`.
    pub open spec fn mem_in_range(self) -> bool {
        self.mem_gb matches Some(gb) ==> gb * GIB <= u64::MAX
    }
}

/// The capacity `(cpus, mem, gpus)` of a node, memory in bytes: each setting
/// of `config` wins over what was found on the machine, and where a number is
/// neither configured nor found there is no answer.
pub open spec fn configured(
    config: Config,
    found_cpus: Option<u64>,
    found_mem: Option<u64>,
) -> Option<(u64, u64, u64)> {
    let cpus = match config.num_cpus {
        Some(n) => Some(n),
        None => found_cpus,
    };
    let mem = match config.mem_gb {
        Some(gb) => Some((gb * GIB) as u64),
        None => found_mem,
    };
    match (cpus, mem) {
        (Some(c), Some(m)) => Some((c, m, config.gpu_count())),
        _ => None,
    }
}

/// `num_cpus::get`: the number of CPUs that this process may use.
///
/// Trusted: nothing is claimed about the number, which is whatever the
/// machine reports.
pub assume_specification[ num_cpus::get ]() -> (n: usize)
;

/// Calls `systemstat::Platform::memory` on the running system and picks the
/// total from what it returns.
///
/// Trusted: `None` stands for a failed lookup; nothing is claimed about the
/// number, which is whatever the machine reports.
#[verifier::external_body]
fn total_memory() -> (bytes: Option<u64>) {
    match System::new().memory() {
        Ok(memory) => Some(memory.total.as_u64()),
        Err(_) => None,
    }
}

/// Combines the configuration with what was found on the machine, as
/// [`configured`] says.
pub fn resolve_resources(config: &Config, found_cpus: Option<u64>, found_mem: Option<u64>) -> (res:
    Option<(u64, u64, u64)>)
    requires
        config.mem_in_range(),
    ensures
        res == configured(*config, found_cpus, found_mem),
{
    let gpus: u64 = if config.gpu_devices.is_some() {
        1
    } else {
        0
    };
    let cpus = match config.num_cpus {
        Some(n) => Some(n),
        None => found_cpus,
    };
    let mem = match config.mem_gb {
        Some(gb) => Some(gb * GIB),
        None => found_mem,
    };
    match (cpus, mem) {
        (Some(c), Some(m)) => Some((c, m, gpus)),
        _ => None,
    }
}

/// The capacity `(cpus, mem, gpus)` of this node. The machine is asked only
/// for what `config` leaves open: the CPU count that this process may use,
/// and the total memory.
///
/// `None` means that the memory size was needed and could not be looked up.
pub fn get_configured_resources(config: &Config) -> (res: Option<(u64, u64, u64)>)
    requires
        config.mem_in_range(),
    ensures
        config.mem_gb is Some ==> res is Some,
        res matches Some((cpus, mem, gpus)) ==> {
            &&& config.num_cpus matches Some(n) ==> cpus == n
            &&& config.mem_gb matches Some(gb) ==> mem == gb * GIB
            &&& gpus == config.gpu_count()
        },
{
    let found_cpus = match config.num_cpus {
        Some(_) => None,
        None => Some(num_cpus::get() as u64),
    };
    let found_mem = match config.mem_gb {
        Some(_) => None,
        None => total_memory(),
    };
    resolve_resources(config, found_cpus, found_mem)
}

} // verus!
