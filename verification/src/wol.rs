//! The Wake-on-LAN magic packet and what is sent to wake a device.

use crate::error::WolError;
use crate::mac::{decode_mac, mac_bytes, valid_mac};
use crate::models::Device;
use vstd::prelude::*;

verus! {

/// The length of a magic packet: a header of six bytes and sixteen copies
/// of a six-byte address.
pub const MAGIC_PACKET_LEN: usize = 102;

/// The magic packet for the address `mac`: six bytes `0xFF`, then `mac`
/// sixteen times over.
pub open spec fn magic_packet(mac: Seq<u8>) -> Seq<u8>
    recommends
        mac.len() == 6,
{
    Seq::new(102, |i: int| if i < 6 { 0xFFu8 } else { mac[(i - 6) % 6] })
}

/// Decodes a MAC address, written in any accepted notation, into its six
/// bytes. A string that is none comes back as the error, as it was given.
pub fn parse_mac_address(mac_str: &str) -> (r: Result<[u8; 6], String>)
    ensures
        r is Ok <==> valid_mac(mac_str@),
        r matches Ok(bytes) ==> bytes@ == mac_bytes(mac_str@),
        r matches Err(given) ==> given@ == mac_str@,
{
    match decode_mac(mac_str) {
        Ok(bytes) => Ok(bytes),
        Err(_) => Err(String::from_str(mac_str)),
    }
}

/// Builds the magic packet that wakes the host with the address `mac`.
pub fn create_magic_packet(mac: [u8; 6]) -> (packet: Vec<u8>)
    ensures
        packet@ == magic_packet(mac@),
        packet@.len() == 102,
        forall|i: int| 0 <= i < 6 ==> packet@[i] == 0xFF,
        forall|k: int| 0 <= k < 16 ==> #[trigger] packet@.subrange(6 + 6 * k, 12 + 6 * k) == mac@,
{
    let mut packet: Vec<u8> = Vec::with_capacity(MAGIC_PACKET_LEN);
    let mut i: usize = 0;
    while i < 6
        invariant
            i <= 6,
            packet@ == magic_packet(mac@).take(i as int),
        decreases 6 - i,
    {
        packet.push(0xFF);
        assert(packet@ =~= magic_packet(mac@).take(i + 1));
        i += 1;
    }
    let mut k: usize = 0;
    while k < 16
        invariant
            k <= 16,
            packet@ == magic_packet(mac@).take(6 + 6 * k),
        decreases 16 - k,
    {
        let mut j: usize = 0;
        while j < 6
            invariant
                k < 16,
                j <= 6,
                packet@ == magic_packet(mac@).take(6 + 6 * k + j),
            decreases 6 - j,
        {
            packet.push(mac[j]);
            assert(packet@ =~= magic_packet(mac@).take(6 + 6 * k + j + 1));
            j += 1;
        }
        k += 1;
    }
    assert(packet@ =~= magic_packet(mac@));
    proof {
        lemma_magic_packet_layout(mac@);
    }
    packet
}

/// A magic packet has 102 bytes: six bytes `0xFF`, and after them each of
/// the sixteen blocks of six bytes is the address.
pub proof fn lemma_magic_packet_layout(mac: Seq<u8>)
    requires
        mac.len() == 6,
    ensures
        magic_packet(mac).len() == 102,
        forall|i: int| 0 <= i < 6 ==> magic_packet(mac)[i] == 0xFF,
        forall|k: int|
            0 <= k < 16 ==> #[trigger] magic_packet(mac).subrange(6 + 6 * k, 12 + 6 * k) == mac,
{
    assert forall|k: int| 0 <= k < 16 implies #[trigger] magic_packet(mac).subrange(
        6 + 6 * k,
        12 + 6 * k,
    ) == mac by {
        let block = magic_packet(mac).subrange(6 + 6 * k, 12 + 6 * k);
        assert forall|j: int| 0 <= j < 6 implies block[j] == mac[j] by {
            assert((6 * k + j) % 6 == j) by (nonlinear_arith)
                requires
                    0 <= j < 6,
                    0 <= k,
            ;
        }
        assert(block =~= mac);
    }
}

/// The limited broadcast address, which every host of the segment hears.
pub const BROADCAST_ADDRESS: [u8; 4] = [255, 255, 255, 255];

/// One UDP datagram: what to send, and where to.
#[derive(Debug, PartialEq)]
pub struct WolDatagram {
    pub payload: Vec<u8>,
    pub address: [u8; 4],
    pub port: u16,
}

/// The datagram that wakes `device`: its magic packet, addressed to the
/// broadcast address and the device's port. Fails exactly when the
/// device's MAC address cannot be decoded, and the error carries that
/// address as it stands in the device.
pub fn prepare_wol_packet(device: &Device) -> (r: Result<WolDatagram, WolError>)
    ensures
        r is Ok <==> valid_mac(device.mac_address@),
        r matches Ok(datagram) ==> {
            &&& datagram.payload@ == magic_packet(mac_bytes(device.mac_address@))
            &&& datagram.address@ == seq![255u8, 255u8, 255u8, 255u8]
            &&& datagram.port == device.port
        },
        r matches Err(e) ==> (e matches WolError::InvalidMac(given) && given@
            == device.mac_address@),
{
    match parse_mac_address(device.mac_address.as_str()) {
        Ok(mac) => {
            let payload = create_magic_packet(mac);
            let address: [u8; 4] = BROADCAST_ADDRESS;
            assert(address@ =~= seq![255u8, 255u8, 255u8, 255u8]);
            Ok(WolDatagram { payload, address, port: device.port })
        },
        Err(given) => Err(WolError::InvalidMac(given)),
    }
}

} // verus!
