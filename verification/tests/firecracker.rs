use secure_exec::firecracker::{
    firecracker_args, BootSource, Drive, FirecrackerConfig, Logger, MachineConfig,
    NetworkInterface, Vsock,
};
use serde_json::Value;

fn drive(id: &str, path: &str) -> Drive {
    Drive {
        drive_id: id.to_string(),
        partuuid: Value::Null,
        is_root_device: id == "rootfs",
        cache_type: "Unsafe".to_string(),
        is_read_only: false,
        path_on_host: path.to_string(),
        io_engine: "Sync".to_string(),
        rate_limiter: Value::from(7),
        socket: Value::Null,
    }
}

fn iface(id: &str) -> NetworkInterface {
    NetworkInterface {
        iface_id: id.to_string(),
        guest_mac: "00:00:00:00:00:00".to_string(),
        host_dev_name: "none".to_string(),
    }
}

fn template(drives: Vec<Drive>, network_interfaces: Vec<NetworkInterface>) -> FirecrackerConfig {
    FirecrackerConfig {
        boot_source: BootSource {
            kernel_image_path: "kernel".to_string(),
            boot_args: "console=ttyS0 reboot=k panic=1".to_string(),
            initrd_path: Value::Null,
        },
        drives,
        machine_config: MachineConfig {
            vcpu_count: 2,
            mem_size_mib: 1024,
            smt: false,
            track_dirty_pages: false,
            huge_pages: "None".to_string(),
        },
        cpu_config: Value::Null,
        balloon: Value::from("balloon"),
        network_interfaces,
        vsock: Vsock { guest_cid: 3, uds_path: "./v.sock".to_string() },
        logger: Logger {
            log_path: "log".to_string(),
            level: "Debug".to_string(),
            show_level: true,
            show_log_origin: false,
        },
        metrics: Value::Bool(true),
        mmds_config: Value::Null,
        entropy: Value::Null,
        pmem: vec![Value::from(1), Value::from("two")],
        memory_hotplug: Value::Null,
    }
}

fn fill(config: &mut FirecrackerConfig) {
    config.fill_values(
        "/srv/vmlinux-kernel",
        "/srv/filesystems/vm-1.ext4",
        "tap1",
        "06:00:AC:10:00:02",
        "/srv/vm-1-firecracker.log",
        "/tmp/vsock-vm-1.sock",
    );
}

#[test]
fn fill_values_sets_what_belongs_to_the_vm() {
    let mut config = template(vec![drive("rootfs", "base.ext4")], vec![iface("eth0")]);
    fill(&mut config);
    assert_eq!(config.boot_source.kernel_image_path, "/srv/vmlinux-kernel");
    assert_eq!(config.drives[0].path_on_host, "/srv/filesystems/vm-1.ext4");
    assert_eq!(config.network_interfaces[0].host_dev_name, "tap1");
    assert_eq!(config.network_interfaces[0].guest_mac, "06:00:AC:10:00:02");
    assert_eq!(config.logger.log_path, "/srv/vm-1-firecracker.log");
    assert_eq!(config.vsock.uds_path, "/tmp/vsock-vm-1.sock");
}

#[test]
fn fill_values_leaves_the_rest_alone() {
    let mut config = template(
        vec![drive("rootfs", "base.ext4"), drive("data", "data.ext4")],
        vec![iface("eth0"), iface("eth1")],
    );
    fill(&mut config);
    let mut expected = template(
        vec![drive("rootfs", "/srv/filesystems/vm-1.ext4"), drive("data", "data.ext4")],
        vec![
            NetworkInterface {
                iface_id: "eth0".to_string(),
                guest_mac: "06:00:AC:10:00:02".to_string(),
                host_dev_name: "tap1".to_string(),
            },
            iface("eth1"),
        ],
    );
    expected.boot_source.kernel_image_path = "/srv/vmlinux-kernel".to_string();
    expected.logger.log_path = "/srv/vm-1-firecracker.log".to_string();
    expected.vsock.uds_path = "/tmp/vsock-vm-1.sock".to_string();
    assert_eq!(config, expected);
}

#[test]
fn fill_values_without_drives_or_interfaces() {
    let mut config = template(vec![], vec![]);
    fill(&mut config);
    assert!(config.drives.is_empty());
    assert!(config.network_interfaces.is_empty());
    assert_eq!(config.boot_source.kernel_image_path, "/srv/vmlinux-kernel");
    assert_eq!(config.logger.log_path, "/srv/vm-1-firecracker.log");
    assert_eq!(config.vsock.uds_path, "/tmp/vsock-vm-1.sock");
    assert_eq!(config.vsock.guest_cid, 3);
}

#[test]
fn fill_values_twice_is_the_same_as_once() {
    let mut once = template(vec![drive("rootfs", "base.ext4")], vec![iface("eth0")]);
    fill(&mut once);
    let mut twice = template(vec![drive("rootfs", "base.ext4")], vec![iface("eth0")]);
    fill(&mut twice);
    fill(&mut twice);
    assert_eq!(once, twice);
}

#[test]
fn hypervisor_command_line() {
    assert_eq!(
        firecracker_args("/tmp/firecracker-1.socket", "/srv/vm-1-vm_config.json"),
        vec![
            "--api-sock",
            "/tmp/firecracker-1.socket",
            "--enable-pci",
            "--config-file",
            "/srv/vm-1-vm_config.json"
        ]
    );
}
