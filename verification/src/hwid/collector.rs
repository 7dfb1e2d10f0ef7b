//! The identifiers of the machine's hardware, and the rules by which they
//! are made of what the system reports.

use crate::utils::text::{decimal_digits, decimal_text, occurs_in, text_contains};
use vstd::prelude::*;
use vstd::string::StringExecFns;

verus! {

/// The identifiers of the machine's hardware.
#[derive(Debug, Clone)]
pub struct HardwareInfo {
    /// What identifies the mainboard.
    pub motherboard_id: String,
    /// What identifies the network card.
    pub network_id: String,
    /// What identifies the disk.
    pub disk_id: String,
    /// What identifies the graphics card.
    pub gpu_id: String,
}

/// What stands for something that the system does not report.
pub open spec fn or_unknown(value: Option<String>) -> Seq<char> {
    match value {
        Some(text) => text@,
        None => "unknown"@,
    }
}

/// A network interface as the system reports it.
#[derive(Debug, Clone)]
pub struct NetworkCard {
    pub name: String,
    pub mac_address: String,
}

/// A disk as the system reports it.
#[derive(Debug, Clone)]
pub struct Disk {
    pub name: String,
    pub mount_point: String,
    pub total_space: u64,
    pub removable: bool,
}

/// Whether a network card has an address that tells it from others.
pub open spec fn has_address(card: NetworkCard) -> bool {
    card.mac_address@.len() > 0 && card.mac_address@ != "00:00:00:00:00:00"@
}

/// What identifies a network card: its name and its address.
pub open spec fn card_id(card: NetworkCard) -> Seq<char> {
    card.name@ + seq![':'] + card.mac_address@
}

/// Whether a disk is where the system is installed.
pub open spec fn is_system_disk(disk: Disk) -> bool {
    disk.mount_point@ == "/"@ || occurs_in("C:"@, disk.mount_point@)
}

/// What identifies a disk: its name, where it is mounted and its size.
pub open spec fn disk_id(disk: Disk) -> Seq<char> {
    disk.name@ + seq![':'] + disk.mount_point@ + seq![':'] + decimal_digits(
        disk.total_space as nat,
    )
}

/// Whether a component is a graphics card by its label.
pub open spec fn is_gpu_label(label: Seq<char>) -> bool {
    occurs_in("GPU"@, label) || occurs_in("Graphics"@, label)
}

/// What identifies the mainboard: the host's name, the versions of system
/// and kernel and the processor's brand, with `unknown` for what is not
/// reported.
pub fn motherboard_identifier(
    host_name: Option<String>,
    os_version: Option<String>,
    kernel_version: Option<String>,
    cpu_brand: &str,
) -> (id: String)
    ensures
        id@ == or_unknown(host_name) + seq![':'] + or_unknown(os_version) + seq![':']
            + or_unknown(kernel_version) + seq![':'] + cpu_brand@,
{
    proof {
        reveal_strlit(":");
    }
    let mut id = match host_name {
        Some(name) => name,
        None => "unknown".to_owned(),
    };
    id.append(":");
    match os_version {
        Some(version) => id.append(version.as_str()),
        None => id.append("unknown"),
    }
    id.append(":");
    match kernel_version {
        Some(version) => id.append(version.as_str()),
        None => id.append("unknown"),
    }
    id.append(":");
    id.append(cpu_brand);
    id
}

/// Whether a network card has an address that tells it from others.
fn card_has_address(card: &NetworkCard) -> (has: bool)
    ensures
        has == has_address(*card),
{
    let unset = "00:00:00:00:00:00".to_owned();
    !card.mac_address.as_str().is_empty() && !(card.mac_address == unset)
}

/// What identifies the network card: the first card with an address, or
/// `unknown_network` where there is none.
pub fn network_identifier(cards: &Vec<NetworkCard>) -> (id: String)
    ensures
        (forall|at: int| 0 <= at < cards@.len() ==> !has_address(#[trigger] cards@[at])) ==> id@
            == "unknown_network"@,
        forall|at: int|
            0 <= at < cards@.len() && has_address(#[trigger] cards@[at]) && (forall|before: int|
                0 <= before < at ==> !has_address(#[trigger] cards@[before])) ==> id@ == card_id(
                cards@[at],
            ),
{
    let mut at: usize = 0;
    while at < cards.len()
        invariant
            at <= cards@.len(),
            forall|before: int| 0 <= before < at ==> !has_address(#[trigger] cards@[before]),
        decreases cards@.len() - at,
    {
        if card_has_address(&cards[at]) {
            let mut id = cards[at].name.clone();
            proof {
                reveal_strlit(":");
            }
            id.append(":");
            id.append(cards[at].mac_address.as_str());
            return id;
        }
        at = at + 1;
    }
    "unknown_network".to_owned()
}

/// What identifies a disk.
fn disk_identifier_of(disk: &Disk) -> (id: String)
    ensures
        id@ == disk_id(*disk),
{
    proof {
        reveal_strlit(":");
    }
    let mut id = disk.name.clone();
    id.append(":");
    id.append(disk.mount_point.as_str());
    id.append(":");
    id.append(decimal_text(disk.total_space).as_str());
    id
}

/// Whether a disk is where the system is installed.
fn disk_is_system(disk: &Disk) -> (system: bool)
    ensures
        system == is_system_disk(*disk),
{
    let root = "/".to_owned();
    disk.mount_point == root || text_contains(disk.mount_point.as_str(), "C:")
}

/// The disk that identifies the machine: the first fixed disk that holds the
/// system, or the first fixed disk where none holds it.
pub open spec fn chosen_disk(disks: Seq<Disk>, at: int) -> bool {
    &&& 0 <= at < disks.len()
    &&& !disks[at].removable
    &&& if is_system_disk(disks[at]) {
        forall|before: int|
            0 <= before < at ==> (#[trigger] disks[before]).removable || !is_system_disk(
                disks[before],
            )
    } else {
        &&& forall|before: int| 0 <= before < at ==> (#[trigger] disks[before]).removable
        &&& forall|any: int|
            0 <= any < disks.len() ==> (#[trigger] disks[any]).removable || !is_system_disk(
                disks[any],
            )
    }
}

/// What identifies the disk: the chosen disk, or `unknown_disk` where every
/// disk is removable.
pub fn disk_identifier(disks: &Vec<Disk>) -> (id: String)
    ensures
        (forall|at: int| 0 <= at < disks@.len() ==> (#[trigger] disks@[at]).removable) ==> id@
            == "unknown_disk"@,
        forall|at: int| chosen_disk(disks@, at) ==> id@ == disk_id(#[trigger] disks@[at]),
{
    let mut first_fixed: Option<usize> = None;
    let mut at: usize = 0;
    while at < disks.len()
        invariant
            at <= disks@.len(),
            forall|before: int|
                0 <= before < at ==> (#[trigger] disks@[before]).removable || !is_system_disk(
                    disks@[before],
                ),
            first_fixed is None ==> forall|before: int|
                0 <= before < at ==> (#[trigger] disks@[before]).removable,
            first_fixed matches Some(first) ==> first < at && !disks@[first as int].removable
                && forall|before: int| 0 <= before < first ==> (#[trigger] disks@[before]).removable,
        decreases disks@.len() - at,
    {
        if !disks[at].removable {
            if disk_is_system(&disks[at]) {
                return disk_identifier_of(&disks[at]);
            }
            if first_fixed.is_none() {
                first_fixed = Some(at);
            }
        }
        at = at + 1;
    }
    match first_fixed {
        Some(first) => disk_identifier_of(&disks[first]),
        None => "unknown_disk".to_owned(),
    }
}

/// The position of the first component that is a graphics card by its label.
pub fn find_gpu_component(labels: &Vec<String>) -> (found: Option<usize>)
    ensures
        found is None <==> forall|at: int|
            0 <= at < labels@.len() ==> !is_gpu_label(#[trigger] labels@[at]@),
        found matches Some(at) ==> at < labels@.len() && is_gpu_label(labels@[at as int]@)
            && forall|before: int|
            0 <= before < at ==> !is_gpu_label(#[trigger] labels@[before]@),
{
    let mut at: usize = 0;
    while at < labels.len()
        invariant
            at <= labels@.len(),
            forall|before: int| 0 <= before < at ==> !is_gpu_label(#[trigger] labels@[before]@),
        decreases labels@.len() - at,
    {
        let label = labels[at].as_str();
        if text_contains(label, "GPU") || text_contains(label, "Graphics") {
            return Some(at);
        }
        at = at + 1;
    }
    None
}

impl HardwareInfo {
    /// The identifiers, one on each line under a heading.
    pub fn describe(&self) -> (text: String)
        ensures
            text@ == "Hardware Info:\n  Placa-m\u{e3}e: "@ + self.motherboard_id@
                + "\n  Placa de rede: "@ + self.network_id@ + "\n  Disco: "@ + self.disk_id@
                + "\n  GPU: "@ + self.gpu_id@,
    {
        let mut text = "Hardware Info:\n  Placa-m\u{e3}e: ".to_owned();
        text.append(self.motherboard_id.as_str());
        text.append("\n  Placa de rede: ");
        text.append(self.network_id.as_str());
        text.append("\n  Disco: ");
        text.append(self.disk_id.as_str());
        text.append("\n  GPU: ");
        text.append(self.gpu_id.as_str());
        text
    }
}

} // verus!
