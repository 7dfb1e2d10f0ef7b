//! The hardware token: what identifies the machine to the collector.

pub mod collector;
pub mod crypto;
pub mod validator;

use crate::utils::text::{split_on, split_text, texts_of};
use collector::HardwareInfo;
use crypto::{encrypt_id, seals, MAX_ID_BYTES};
use vstd::prelude::*;
use vstd::string::{StringExecFns, StringSliceAdditionalSpecFns};
use vstd::utf8::encode_utf8;

verus! {

/// The hardware token: the four identifiers, each sealed.
#[derive(Debug, Clone)]
pub struct HwId {
    /// The sealed identifier of the mainboard.
    pub motherboard: String,
    /// The sealed identifier of the network card.
    pub network: String,
    /// The sealed identifier of the disk.
    pub disk: String,
    /// The sealed identifier of the graphics card.
    pub gpu: String,
}

/// Whether the identifiers are short enough to be sealed.
pub open spec fn sealable(info: HardwareInfo) -> bool {
    &&& encode_utf8(info.motherboard_id@).len() <= MAX_ID_BYTES
    &&& encode_utf8(info.network_id@).len() <= MAX_ID_BYTES
    &&& encode_utf8(info.disk_id@).len() <= MAX_ID_BYTES
    &&& encode_utf8(info.gpu_id@).len() <= MAX_ID_BYTES
}

/// The token written as one text: the four parts with a hyphen between each
/// two.
pub open spec fn token_text(
    motherboard: Seq<char>,
    network: Seq<char>,
    disk: Seq<char>,
    gpu: Seq<char>,
) -> Seq<char> {
    motherboard + seq!['-'] + network + seq!['-'] + disk + seq!['-'] + gpu
}

impl HwId {
    /// The token of a machine: each of its identifiers sealed with a fresh
    /// nonce.
    pub fn new(hardware_info: &HardwareInfo) -> (token: Self)
        requires
            sealable(*hardware_info),
        ensures
            seals(token.motherboard@, hardware_info.motherboard_id@),
            seals(token.network@, hardware_info.network_id@),
            seals(token.disk@, hardware_info.disk_id@),
            seals(token.gpu@, hardware_info.gpu_id@),
    {
        HwId {
            motherboard: encrypt_id(hardware_info.motherboard_id.as_str()),
            network: encrypt_id(hardware_info.network_id.as_str()),
            disk: encrypt_id(hardware_info.disk_id.as_str()),
            gpu: encrypt_id(hardware_info.gpu_id.as_str()),
        }
    }

    /// Whether the identifiers of a machine are short enough to be sealed.
    pub fn can_seal(hardware_info: &HardwareInfo) -> (ok: bool)
        ensures
            ok == sealable(*hardware_info),
    {
        hardware_info.motherboard_id.as_str().as_bytes().len() <= MAX_ID_BYTES
            && hardware_info.network_id.as_str().as_bytes().len() <= MAX_ID_BYTES
            && hardware_info.disk_id.as_str().as_bytes().len() <= MAX_ID_BYTES
            && hardware_info.gpu_id.as_str().as_bytes().len() <= MAX_ID_BYTES
    }

    /// The token written as one text.
    pub fn to_string(&self) -> (text: String)
        ensures
            text@ == token_text(self.motherboard@, self.network@, self.disk@, self.gpu@),
    {
        proof {
            reveal_strlit("-");
        }
        let mut text = self.motherboard.clone();
        text.append("-");
        text.append(self.network.as_str());
        text.append("-");
        text.append(self.disk.as_str());
        text.append("-");
        text.append(self.gpu.as_str());
        text
    }

    /// The token that a text holds: the text has to fall into exactly four
    /// parts at its hyphens.
    pub fn from_string(s: &str) -> (token: Option<Self>)
        ensures
            token is Some <==> split_on(s@, '-').len() == 4,
            token matches Some(t) ==> {
                &&& t.motherboard@ == split_on(s@, '-')[0]
                &&& t.network@ == split_on(s@, '-')[1]
                &&& t.disk@ == split_on(s@, '-')[2]
                &&& t.gpu@ == split_on(s@, '-')[3]
            },
    {
        let mut parts = split_text(s, '-');
        if parts.len() != 4 {
            return None;
        }
        let gpu = parts.pop().unwrap();
        let disk = parts.pop().unwrap();
        let network = parts.pop().unwrap();
        let motherboard = parts.pop().unwrap();
        Some(HwId { motherboard, network, disk, gpu })
    }
}

} // verus!
