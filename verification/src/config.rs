//! Persistent network configuration and its EEPROM block framing.
//!
//! A configuration is serialized into a fixed 64-byte block: a marker
//! byte, the payload, zero padding, and a little-endian IEEE CRC-32 of
//! everything before the checksum. Two blocks hold identical copies;
//! loading takes the first block whose marker and checksum verify. The
//! EEPROM itself is read and written by the hardware layer outside this
//! crate, which hands the raw blocks in and out.

use vstd::prelude::*;

verus! {

/// Bytes in one EEPROM block.
pub const BLOCK_LEN: usize = 64;

/// Marker byte opening every valid block.
pub const MAGIC: u8 = 0x54;

/// Index of the first checksum byte: the checksum covers everything
/// before it.
pub const CHECKSUM_AT: usize = 60;

/// Payload bytes carried by one block (between marker and checksum).
pub const PAYLOAD_LEN: usize = 59;

/// IEEE CRC-32 of a byte sequence, as the crc crate computes it.
pub uninterp spec fn crc32_of(data: Seq<u8>) -> u32;

/// Relies on crc::Crc::<u32>::checksum with the CRC_32_ISO_HDLC
/// algorithm (the IEEE 802.3 polynomial, the classic CRC-32): the
/// checksum depends on the input bytes alone.
#[verifier::external_body]
fn crc32_ieee(data: &[u8]) -> (r: u32)
    ensures
        r == crc32_of(data@),
{
    crc::Crc::<u32>::new(&crc::CRC_32_ISO_HDLC).checksum(data)
}

/// The checksum word stored in a block, read little-endian from the
/// four trailing bytes.
pub open spec fn spec_stored_checksum(block: Seq<u8>) -> int {
    block[60] + 256 * block[61] + 65536 * block[62] + 16777216 * block[63]
}

/// A block is valid when it opens with the marker and its trailing word
/// equals the checksum of everything before it.
pub open spec fn spec_block_valid(block: Seq<u8>) -> bool {
    &&& block[0] == MAGIC
    &&& crc32_of(block.take(CHECKSUM_AT as int)) == spec_stored_checksum(block)
}

/// Check one raw EEPROM block: marker byte and checksum.
pub fn payload_block_valid(block: &[u8]) -> (r: bool)
    requires
        block@.len() == BLOCK_LEN,
    ensures
        r == spec_block_valid(block@),
{
    if block[0] != MAGIC {
        return false;
    }
    let stored: u32 = (block[60] as u32) + 256 * (block[61] as u32) + 65536 * (block[62] as u32)
        + 16777216 * (block[63] as u32);
    let prefix: &[u8] = vstd::slice::slice_subrange(block, 0, CHECKSUM_AT);
    let computed: u32 = crc32_ieee(prefix);
    computed == stored
}

/// The payload bytes of a block.
pub fn extract_payload(block: &[u8]) -> (payload: Vec<u8>)
    requires
        block@.len() == BLOCK_LEN,
    ensures
        payload@ == block@.subrange(1, CHECKSUM_AT as int),
{
    let mut payload: Vec<u8> = Vec::new();
    let mut i: usize = 1;
    while i < CHECKSUM_AT
        invariant
            1 <= i <= CHECKSUM_AT,
            block@.len() == BLOCK_LEN,
            payload@ == block@.subrange(1, i as int),
        decreases CHECKSUM_AT - i,
    {
        payload.push(block[i]);
        proof {
            assert(payload@ =~= block@.subrange(1, i + 1));
        }
        i = i + 1;
    }
    payload
}

/// The payload of the first block (of two redundant copies) whose
/// marker and checksum verify, or an error exactly when neither does.
pub fn read_payload(block0: &[u8], block1: &[u8]) -> (r: Result<Vec<u8>, ()>)
    requires
        block0@.len() == BLOCK_LEN,
        block1@.len() == BLOCK_LEN,
    ensures
        spec_block_valid(block0@) ==> (r matches Ok(p) && p@ == block0@.subrange(
            1,
            CHECKSUM_AT as int,
        )),
        !spec_block_valid(block0@) && spec_block_valid(block1@) ==> (r matches Ok(p) && p@
            == block1@.subrange(1, CHECKSUM_AT as int)),
        !spec_block_valid(block0@) && !spec_block_valid(block1@) ==> r is Err,
{
    if payload_block_valid(block0) {
        Ok(extract_payload(block0))
    } else if payload_block_valid(block1) {
        Ok(extract_payload(block1))
    } else {
        Err(())
    }
}

/// Frame a payload into a valid block: marker, payload, zero padding,
/// and the little-endian checksum of the first sixty bytes.
pub fn frame_payload(payload: &[u8]) -> (block: Vec<u8>)
    requires
        payload@.len() <= PAYLOAD_LEN,
    ensures
        block@.len() == BLOCK_LEN,
        block@[0] == MAGIC,
        block@.subrange(1, 1 + payload@.len() as int) == payload@,
        forall|i: int| 1 + payload@.len() <= i < CHECKSUM_AT ==> #[trigger] block@[i] == 0,
        spec_block_valid(block@),
{
    let mut block: Vec<u8> = Vec::new();
    block.push(MAGIC);
    let mut i: usize = 0;
    while i < payload.len()
        invariant
            i <= payload@.len() <= PAYLOAD_LEN,
            block@.len() == 1 + i,
            block@[0] == MAGIC,
            block@.subrange(1, 1 + i as int) == payload@.take(i as int),
        decreases payload@.len() - i,
    {
        block.push(payload[i]);
        proof {
            assert(block@.subrange(1, 1 + i + 1) =~= payload@.take(i + 1));
        }
        i = i + 1;
    }
    while block.len() < CHECKSUM_AT
        invariant
            1 + payload@.len() <= block@.len() <= CHECKSUM_AT,
            block@[0] == MAGIC,
            block@.subrange(1, 1 + payload@.len() as int) == payload@.take(payload@.len() as int),
            forall|k: int| 1 + payload@.len() <= k < block@.len() ==> #[trigger] block@[k] == 0,
        decreases CHECKSUM_AT - block@.len(),
    {
        block.push(0);
        proof {
            assert(block@.subrange(1, 1 + payload@.len() as int) =~= payload@.take(
                payload@.len() as int,
            ));
        }
    }
    let checksum: u32 = crc32_ieee(block.as_slice());
    let b0: u8 = (checksum % 256) as u8;
    let b1: u8 = ((checksum / 256) % 256) as u8;
    let b2: u8 = ((checksum / 65536) % 256) as u8;
    let b3: u8 = (checksum / 16777216) as u8;
    let ghost prefix = block@;
    block.push(b0);
    block.push(b1);
    block.push(b2);
    block.push(b3);
    proof {
        assert(block@.take(CHECKSUM_AT as int) =~= prefix);
        assert(payload@.take(payload@.len() as int) =~= payload@);
        assert(block@.subrange(1, 1 + payload@.len() as int) =~= prefix.subrange(
            1,
            1 + payload@.len() as int,
        ));
        assert(spec_stored_checksum(block@) == checksum as int) by {
            let c = checksum as int;
            vstd::arithmetic::div_mod::lemma_fundamental_div_mod(c, 256);
            vstd::arithmetic::div_mod::lemma_fundamental_div_mod(c / 256, 256);
            vstd::arithmetic::div_mod::lemma_fundamental_div_mod(c / 65536, 256);
            vstd::arithmetic::div_mod::lemma_div_denominator(c, 256, 256);
            vstd::arithmetic::div_mod::lemma_div_denominator(c, 65536, 256);
        }
    }
    block
}

/// An IPv4 interface setting: four address octets and the prefix
/// length.
#[derive(Clone, Copy, PartialEq, Eq, Structural, Debug)]
pub struct IpSetting {
    pub a0: u8,
    pub a1: u8,
    pub a2: u8,
    pub a3: u8,
    pub prefix_len: u8,
}

/// The device configuration: its IP interface setting.
pub struct Config {
    pub ip: IpSetting,
}

/// The setting encoded in the first five payload bytes.
pub open spec fn spec_parse_ip(payload: Seq<u8>) -> IpSetting {
    IpSetting {
        a0: payload[0],
        a1: payload[1],
        a2: payload[2],
        a3: payload[3],
        prefix_len: payload[4],
    }
}

impl Config {
    /// The compiled-in default address.
    pub fn new() -> (c: Config)
        ensures
            c.ip == (IpSetting { a0: 192, a1: 168, a2: 69, a3: 1, prefix_len: 24 }),
    {
        Config { ip: IpSetting { a0: 192, a1: 168, a2: 69, a3: 1, prefix_len: 24 } }
    }

    /// The configuration's payload bytes: the four octets and the
    /// prefix length.
    pub open spec fn spec_payload(self) -> Seq<u8> {
        seq![self.ip.a0, self.ip.a1, self.ip.a2, self.ip.a3, self.ip.prefix_len]
    }

    /// Adopt the setting stored in the first valid of the two raw
    /// blocks; keep the current setting when neither verifies.
    pub fn load(&mut self, block0: &[u8], block1: &[u8])
        requires
            block0@.len() == BLOCK_LEN,
            block1@.len() == BLOCK_LEN,
        ensures
            spec_block_valid(block0@) ==> final(self).ip == spec_parse_ip(
                block0@.subrange(1, CHECKSUM_AT as int),
            ),
            !spec_block_valid(block0@) && spec_block_valid(block1@) ==> final(self).ip
                == spec_parse_ip(block1@.subrange(1, CHECKSUM_AT as int)),
            !spec_block_valid(block0@) && !spec_block_valid(block1@) ==> *final(self) == *old(
                self,
            ),
    {
        let payload = read_payload(block0, block1);
        match payload {
            Ok(payload) => {
                self.ip = IpSetting {
                    a0: payload[0],
                    a1: payload[1],
                    a2: payload[2],
                    a3: payload[3],
                    prefix_len: payload[4],
                };
            },
            Err(()) => {},
        }
    }

    /// Frame the configuration for the EEPROM; the same block is
    /// written to both copies.
    pub fn save(&self) -> (block: Vec<u8>)
        ensures
            block@.len() == BLOCK_LEN,
            spec_block_valid(block@),
            block@.subrange(1, 6) == self.spec_payload(),
    {
        let payload: [u8; 5] = [self.ip.a0, self.ip.a1, self.ip.a2, self.ip.a3, self.ip.prefix_len];
        let block = frame_payload(payload.as_slice());
        proof {
            assert(payload@ =~= self.spec_payload());
        }
        block
    }
}

} // verus!
