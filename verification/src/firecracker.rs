//! The machine configuration of a Firecracker VM and the command line
//! that starts the hypervisor.
//!
//! A configuration is read from a template. The library fills in what
//! differs from one VM to the next and carries everything else through
//! unchanged, the sections it does not interpret included.

use crate::text::{strings_of, texts};
use vstd::prelude::*;

verus! {

/// A JSON value of `serde_json`, carried through without looking inside.
#[verifier::external_type_specification]
#[verifier::external_body]
pub struct ExValue(serde_json::Value);

/// The configuration file of one VM.
#[derive(Debug, PartialEq)]
pub struct FirecrackerConfig {
    pub boot_source: BootSource,
    pub drives: Vec<Drive>,
    pub machine_config: MachineConfig,
    pub cpu_config: serde_json::Value,
    pub balloon: serde_json::Value,
    pub network_interfaces: Vec<NetworkInterface>,
    pub vsock: Vsock,
    pub logger: Logger,
    pub metrics: serde_json::Value,
    pub mmds_config: serde_json::Value,
    pub entropy: serde_json::Value,
    pub pmem: Vec<serde_json::Value>,
    pub memory_hotplug: serde_json::Value,
}

/// The kernel to boot.
#[derive(Debug, PartialEq)]
pub struct BootSource {
    pub kernel_image_path: String,
    pub boot_args: String,
    pub initrd_path: serde_json::Value,
}

/// A block device of the guest.
#[derive(Debug, PartialEq)]
pub struct Drive {
    pub drive_id: String,
    pub partuuid: serde_json::Value,
    pub is_root_device: bool,
    pub cache_type: String,
    pub is_read_only: bool,
    pub path_on_host: String,
    pub io_engine: String,
    pub rate_limiter: serde_json::Value,
    pub socket: serde_json::Value,
}

/// The size of the machine.
#[derive(Debug, Clone, PartialEq, Eq)]
pub struct MachineConfig {
    pub vcpu_count: i64,
    pub mem_size_mib: i64,
    pub smt: bool,
    pub track_dirty_pages: bool,
    pub huge_pages: String,
}

/// A network interface of the guest and the host device behind it.
#[derive(Debug, Clone, PartialEq, Eq)]
pub struct NetworkInterface {
    pub iface_id: String,
    pub guest_mac: String,
    pub host_dev_name: String,
}

/// The guest's vsock device and the Unix socket that stands for it on
/// the host.
#[derive(Debug, Clone, PartialEq, Eq)]
pub struct Vsock {
    pub guest_cid: u32,
    pub uds_path: String,
}

/// Where and how the hypervisor logs.
#[derive(Debug, Clone, PartialEq, Eq)]
pub struct Logger {
    pub log_path: String,
    pub level: String,
    pub show_level: bool,
    pub show_log_origin: bool,
}

impl FirecrackerConfig {
    /// Whether `self` is `template` with the values of one VM filled in
    /// and nothing else changed.
    pub open spec fn is_filled_from(
        self,
        template: FirecrackerConfig,
        kernel_image_path: Seq<char>,
        drive_path: Seq<char>,
        tap_name: Seq<char>,
        mac_address: Seq<char>,
        log_path: Seq<char>,
        vsock_uds_path: Seq<char>,
    ) -> bool {
        &&& self.boot_source.kernel_image_path@ == kernel_image_path
        &&& self.boot_source.boot_args == template.boot_source.boot_args
        &&& self.boot_source.initrd_path == template.boot_source.initrd_path
        &&& self.drives@.len() == template.drives@.len()
        &&& self.drives@.len() > 0 ==> self.drives@[0].path_on_host@ == drive_path
            && same_drive_but_path(self.drives@[0], template.drives@[0])
        &&& forall|i: int| 1 <= i < self.drives@.len() ==> self.drives@[i] == template.drives@[i]
        &&& self.network_interfaces@.len() == template.network_interfaces@.len()
        &&& self.network_interfaces@.len() > 0 ==> {
            &&& self.network_interfaces@[0].host_dev_name@ == tap_name
            &&& self.network_interfaces@[0].guest_mac@ == mac_address
            &&& self.network_interfaces@[0].iface_id == template.network_interfaces@[0].iface_id
        }
        &&& forall|i: int|
            1 <= i < self.network_interfaces@.len() ==> self.network_interfaces@[i]
                == template.network_interfaces@[i]
        &&& self.logger.log_path@ == log_path
        &&& self.logger.level == template.logger.level
        &&& self.logger.show_level == template.logger.show_level
        &&& self.logger.show_log_origin == template.logger.show_log_origin
        &&& self.vsock.uds_path@ == vsock_uds_path
        &&& self.vsock.guest_cid == template.vsock.guest_cid
        &&& self.machine_config == template.machine_config
        &&& self.cpu_config == template.cpu_config
        &&& self.balloon == template.balloon
        &&& self.metrics == template.metrics
        &&& self.mmds_config == template.mmds_config
        &&& self.entropy == template.entropy
        &&& self.pmem == template.pmem
        &&& self.memory_hotplug == template.memory_hotplug
    }

    /// Fills in what belongs to one VM: the kernel image, the root file
    /// system of the first drive, the TAP device and the MAC address of
    /// the first network interface, the log file, and the vsock socket.
    /// A configuration without drives or without network interfaces
    /// keeps none. Everything else stays as it is.
    pub fn fill_values(
        &mut self,
        kernel_image_path: &str,
        drive_path: &str,
        tap_name: &str,
        mac_address: &str,
        log_path: &str,
        vsock_uds_path: &str,
    )
        ensures
            final(self).is_filled_from(
                *old(self),
                kernel_image_path@,
                drive_path@,
                tap_name@,
                mac_address@,
                log_path@,
                vsock_uds_path@,
            ),
    {
        self.boot_source.kernel_image_path = kernel_image_path.to_owned();
        if self.drives.len() > 0 {
            self.drives[0].path_on_host = drive_path.to_owned();
        }
        if self.network_interfaces.len() > 0 {
            self.network_interfaces[0].host_dev_name = tap_name.to_owned();
            self.network_interfaces[0].guest_mac = mac_address.to_owned();
        }
        self.logger.log_path = log_path.to_owned();
        self.vsock.uds_path = vsock_uds_path.to_owned();
    }
}

/// Whether two drives agree in everything but the path on the host.
pub open spec fn same_drive_but_path(a: Drive, b: Drive) -> bool {
    &&& a.drive_id == b.drive_id
    &&& a.partuuid == b.partuuid
    &&& a.is_root_device == b.is_root_device
    &&& a.cache_type == b.cache_type
    &&& a.is_read_only == b.is_read_only
    &&& a.io_engine == b.io_engine
    &&& a.rate_limiter == b.rate_limiter
    &&& a.socket == b.socket
}

/// `--api-sock <api_socket> --enable-pci --config-file <config_path>`
pub open spec fn launch_args(api_socket: Seq<char>, config_path: Seq<char>) -> Seq<Seq<char>> {
    seq!["--api-sock"@, api_socket, "--enable-pci"@, "--config-file"@, config_path]
}

/// The arguments with which the hypervisor is started.
pub fn firecracker_args(api_socket: &str, config_path: &str) -> (args: Vec<String>)
    ensures
        texts(args@) == launch_args(api_socket@, config_path@),
{
    let args = strings_of(&["--api-sock", api_socket, "--enable-pci", "--config-file", config_path]);
    assert(texts(args@) =~= launch_args(api_socket@, config_path@));
    args
}

} // verus!
