use gbmu::mmu::mbc::Mbc;

#[test]
fn small_rom_creates_two_banks() {
    let data = vec![0xAA; 100]; // 100 bytes
    let mbc = Mbc::new(&data);

    // Should have at least two banks.
    assert_eq!(mbc.banks.len(), 2);
    // The first bank begins with the data...
    for i in 0..100 {
        assert_eq!(mbc.banks[0][i], 0xAA);
    }
    // ...and the rest of bank 0 is zero.
    for i in 100..0x4000 {
        assert_eq!(mbc.banks[0][i], 0);
    }
    // Bank 1 is entirely zeros.
    assert!(mbc.banks[1].iter().all(|&b| b == 0));
}

#[test]
fn multi_bank_rom_splits_correctly() {
    // 20 KiB of incrementing bytes: 0, 1, 2, ...
    let data: Vec<u8> = (0..20_480).map(|i| (i % 256) as u8).collect();
    let mbc = Mbc::new(&data);

    assert_eq!(mbc.banks.len(), 2);
    // The first bank matches bytes 0..16384.
    for i in 0..0x4000 {
        assert_eq!(mbc.banks[0][i], (i % 256) as u8);
    }
    // The second bank matches bytes 16384..20480.
    for i in 0..(20_480 - 0x4000) {
        assert_eq!(mbc.banks[1][i], ((i + 0x4000) % 256) as u8);
    }
}
