//! The records of the system tools: what is reported of mounted disks,
//! network interfaces, the system, its services, its logs and its ports.

use crate::text::{decimal, decimal_string, join, join_text, texts};
use vstd::prelude::*;
use vstd::string::*;

verus! {

/// A mounted disk and how full it is.
#[derive(Debug, Clone)]
pub struct DiskInfo {
    pub name: String,
    pub size: u64,
    pub used: u64,
    pub available: u64,
    pub mount_point: Option<String>,
    pub file_system: Option<String>,
    pub disk_type: Option<String>,
    pub removable: bool,
}

/// A network interface.
#[derive(Debug, Clone)]
pub struct NetworkInterface {
    pub name: String,
    pub ip_address: Option<String>,
    pub mac_address: Option<String>,
    pub is_up: bool,
}

/// The system as a whole.
#[derive(Debug, Clone)]
pub struct SystemInfo {
    pub os_name: String,
    pub os_version: String,
    pub hostname: String,
    pub uptime_seconds: u64,
    pub cpu_count: usize,
    pub total_memory: u64,
    pub available_memory: u64,
}

/// A service of the system.
#[derive(Debug, Clone)]
pub struct ServiceInfo {
    pub name: String,
    pub display_name: String,
    pub status: String,
    pub startup_type: Option<String>,
    pub description: Option<String>,
}

/// An entry of a system log.
#[derive(Debug, Clone)]
pub struct LogEntry {
    pub timestamp: String,
    pub level: String,
    pub source: String,
    pub message: String,
}

/// An open port and the process that holds it.
#[derive(Debug, Clone)]
pub struct PortInfo {
    pub port: u16,
    pub protocol: String,
    pub process_name: String,
    pub pid: u32,
}

impl DiskInfo {
    /// The record of a disk of `size` bytes of which `available` are free:
    /// the rest is in use.
    pub fn from_space(
        name: String,
        size: u64,
        available: u64,
        mount_point: String,
        file_system: String,
        disk_type: String,
        removable: bool,
    ) -> (disk: DiskInfo)
        requires
            available <= size,
        ensures
            disk.name@ == name@,
            disk.size == size,
            disk.available == available,
            disk.used == size - available,
            disk.mount_point == Some(mount_point),
            disk.file_system == Some(file_system),
            disk.disk_type == Some(disk_type),
            disk.removable == removable,
    {
        DiskInfo {
            name,
            size,
            used: size - available,
            available,
            mount_point: Some(mount_point),
            file_system: Some(file_system),
            disk_type: Some(disk_type),
            removable,
        }
    }
}

impl NetworkInterface {
    /// The record of an interface from its traffic counters: it counts as
    /// up exactly if it has received or sent anything.
    pub fn observed(name: String, mac_address: String, received: u64, transmitted: u64) -> (i:
        NetworkInterface)
        ensures
            i.name@ == name@,
            i.ip_address is None,
            i.mac_address == Some(mac_address),
            i.is_up == (received > 0 || transmitted > 0),
    {
        NetworkInterface {
            name,
            ip_address: None,
            mac_address: Some(mac_address),
            is_up: received > 0 || transmitted > 0,
        }
    }
}

/// The line that reports whether a port is open.
pub open spec fn port_line(port: nat, open: bool) -> Seq<char> {
    "Port "@ + decimal(port) + (if open {
        " is OPEN"@
    } else {
        " is CLOSED"@
    })
}

/// The lines of the probes, in their order.
pub open spec fn port_lines(probes: Seq<(u16, bool)>) -> Seq<Seq<char>> {
    probes.map_values(|p: (u16, bool)| port_line(p.0 as nat, p.1))
}

/// Writes the line that reports whether a port is open.
pub fn port_report(port: u16, open: bool) -> (line: String)
    ensures
        line@ == port_line(port as nat, open),
{
    let mut line = String::from_str("Port ");
    line.append(decimal_string(port as u128).as_str());
    if open {
        line.append(" is OPEN");
    } else {
        line.append(" is CLOSED");
    }
    line
}

/// Writes the report of a port scan: one line for each probe, in order.
pub fn scan_report(probes: &Vec<(u16, bool)>) -> (report: String)
    ensures
        report@ == join_text(port_lines(probes@), "\n"@),
{
    let mut lines: Vec<String> = Vec::new();
    let n: usize = probes.len();
    let mut i: usize = 0;
    while i < n
        invariant
            n == probes.len(),
            i <= n,
            texts(lines@) == port_lines(probes@.take(i as int)),
        decreases n - i,
    {
        let probe = &probes[i];
        let ghost before = lines@;
        let line = port_report(probe.0, probe.1);
        lines.push(line);
        proof {
            let done = probes@.take(i as int);
            let more = probes@.take(i + 1);
            assert(before.len() == texts(before).len() == port_lines(done).len() == i);
            assert(lines@.len() == i + 1);
            assert forall|k: int| 0 <= k < i + 1 implies #[trigger] texts(lines@)[k] == port_lines(
                more,
            )[k] by {
                if k < i {
                    assert(lines@[k] == before[k]);
                    assert(texts(before)[k] == port_lines(done)[k]);
                    assert(done[k] == more[k]);
                } else {
                    assert(more[k] == probes@[i as int]);
                }
            }
            assert(texts(lines@) =~= port_lines(more));
        }
        i = i + 1;
    }
    assert(probes@.take(n as int) =~= probes@);
    join(&lines, "\n")
}

} // verus!
