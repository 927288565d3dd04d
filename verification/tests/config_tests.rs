use ionpak::config::{frame_payload, payload_block_valid, read_payload, Config, IpSetting};

#[test]
fn default_address() {
    let c = Config::new();
    assert_eq!(
        c.ip,
        IpSetting { a0: 192, a1: 168, a2: 69, a3: 1, prefix_len: 24 }
    );
}

#[test]
fn save_and_load_round_trip() {
    let mut stored = Config::new();
    stored.ip = IpSetting { a0: 10, a1: 0, a2: 42, a3: 7, prefix_len: 16 };
    let block = stored.save();
    assert_eq!(block.len(), 64);
    assert!(payload_block_valid(&block));

    let mut restored = Config::new();
    restored.load(&block, &block);
    assert_eq!(restored.ip, stored.ip);
}

#[test]
fn checksum_matches_the_ieee_crc_of_the_prefix() {
    let config = Config::new();
    let block = config.save();
    let expected = crc::Crc::<u32>::new(&crc::CRC_32_ISO_HDLC).checksum(&block[..60]);
    let stored = (block[60] as u32)
        | ((block[61] as u32) << 8)
        | ((block[62] as u32) << 16)
        | ((block[63] as u32) << 24);
    assert_eq!(stored, expected);
    // and the catalog algorithm really is the classic CRC-32
    assert_eq!(
        crc::Crc::<u32>::new(&crc::CRC_32_ISO_HDLC).checksum(b"123456789"),
        0xCBF43926
    );
}

#[test]
fn corruption_is_detected() {
    let block = Config::new().save();
    for position in [0usize, 1, 30, 59, 60, 63] {
        let mut corrupt = block.clone();
        corrupt[position] ^= 0x01;
        assert!(
            !payload_block_valid(&corrupt),
            "flip at byte {} went unnoticed",
            position
        );
    }
}

#[test]
fn second_block_is_the_fallback() {
    let mut stored = Config::new();
    stored.ip = IpSetting { a0: 172, a1: 16, a2: 1, a3: 2, prefix_len: 12 };
    let good = stored.save();
    let mut bad = good.clone();
    bad[5] ^= 0xFF;

    let mut restored = Config::new();
    restored.load(&bad, &good);
    assert_eq!(restored.ip, stored.ip);

    // with both copies corrupt the current setting is kept
    let mut untouched = Config::new();
    untouched.load(&bad, &bad);
    assert_eq!(untouched.ip, Config::new().ip);
    assert!(read_payload(&bad, &bad).is_err());
}

#[test]
fn frame_layout() {
    let block = frame_payload(b"hello");
    assert_eq!(block.len(), 64);
    assert_eq!(block[0], 0x54);
    assert_eq!(&block[1..6], b"hello");
    assert!(block[6..60].iter().all(|b| *b == 0));
    assert!(payload_block_valid(&block));
}
