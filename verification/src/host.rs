//! Host system facts: hostname, OS name and version, CPU architecture and
//! count. Each fact is ambient — queried fresh from the machine — so
//! nothing can be promised of the values; any of them may be unavailable,
//! which is modelled as `None`, never as an error.
use vstd::prelude::*;

verus! {

/// What the host reports about itself at one moment.
#[derive(Clone, Debug)]
pub struct SystemFacts {
    pub hostname: Option<String>,
    pub platform: Option<String>,
    pub platform_version: Option<String>,
    pub architecture: String,
    pub cpu_count: usize,
}

#[verifier::external_type_specification]
#[verifier::external_body]
pub struct ExSystem(sysinfo::System);

/// Relies on sysinfo::System::new_all: a snapshot of the host with all
/// information refreshed.
#[verifier::external_body]
fn system_snapshot() -> sysinfo::System {
    sysinfo::System::new_all()
}

/// Relies on sysinfo::System::cpus: the snapshot's list of CPUs, whose
/// length is the CPU count.
#[verifier::external_body]
fn snapshot_cpu_count(sys: &sysinfo::System) -> usize {
    sys.cpus().len()
}

/// Relies on sysinfo::System::host_name: the machine's host name, if the
/// OS reports one.
#[verifier::external_body]
fn system_host_name() -> Option<String> {
    sysinfo::System::host_name()
}

/// Relies on sysinfo::System::name: the OS name, if the OS reports one.
#[verifier::external_body]
fn system_os_name() -> Option<String> {
    sysinfo::System::name()
}

/// Relies on sysinfo::System::os_version: the OS version, if the OS
/// reports one.
#[verifier::external_body]
fn system_os_version() -> Option<String> {
    sysinfo::System::os_version()
}

/// Relies on sysinfo::System::cpu_arch: the CPU architecture label.
#[verifier::external_body]
fn system_cpu_arch() -> String {
    sysinfo::System::cpu_arch()
}

/// Queries every host fact fresh. All values are ambient, so no contract
/// pins them; absence of a fact is `None` in the corresponding field.
pub fn gather_system_facts() -> SystemFacts {
    let sys = system_snapshot();
    SystemFacts {
        hostname: system_host_name(),
        platform: system_os_name(),
        platform_version: system_os_version(),
        architecture: system_cpu_arch(),
        cpu_count: snapshot_cpu_count(&sys),
    }
}

} // verus!
