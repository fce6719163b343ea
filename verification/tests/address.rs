use stm32wb_hci::{to_bd_addr_type, BdAddr, BdAddrType, BdAddrTypeError, ConnectionHandle};

#[test]
fn public_address() {
    let addr = BdAddr([1, 2, 3, 4, 5, 6]);
    assert_eq!(to_bd_addr_type(0, addr).ok(), Some(BdAddrType::Public(addr)));
}

#[test]
fn random_address() {
    let addr = BdAddr([0xAA, 0xBB, 0xCC, 0xDD, 0xEE, 0xFF]);
    assert_eq!(to_bd_addr_type(1, addr).ok(), Some(BdAddrType::Random(addr)));
}

#[test]
fn bad_address_type() {
    let addr = BdAddr([0; 6]);
    assert_eq!(to_bd_addr_type(2, addr).err(), Some(BdAddrTypeError(2)));
    assert_eq!(to_bd_addr_type(0xFF, addr).err(), Some(BdAddrTypeError(0xFF)));
}

#[test]
fn copy_public_into_slice() {
    let mut bytes = [0xFFu8; 7];
    BdAddrType::Public(BdAddr([1, 2, 3, 4, 5, 6])).copy_into_slice(&mut bytes);
    assert_eq!(bytes, [0, 1, 2, 3, 4, 5, 6]);
}

#[test]
fn copy_random_into_slice() {
    let mut bytes = [0u8; 7];
    BdAddrType::Random(BdAddr([0x10, 0x20, 0x30, 0x40, 0x50, 0x60])).copy_into_slice(&mut bytes);
    assert_eq!(bytes, [1, 0x10, 0x20, 0x30, 0x40, 0x50, 0x60]);
}

#[test]
fn copy_into_part_of_a_buffer() {
    let mut buffer = [0xEEu8; 9];
    BdAddrType::Public(BdAddr([9, 8, 7, 6, 5, 4])).copy_into_slice(&mut buffer[1..8]);
    assert_eq!(buffer, [0xEE, 0, 9, 8, 7, 6, 5, 4, 0xEE]);
}

#[test]
fn written_address_reads_back() {
    for t in [
        BdAddrType::Public(BdAddr([1, 2, 3, 4, 5, 6])),
        BdAddrType::Random(BdAddr([6, 5, 4, 3, 2, 1])),
    ] {
        let mut bytes = [0u8; 7];
        t.copy_into_slice(&mut bytes);
        let mut addr = [0u8; 6];
        addr.copy_from_slice(&bytes[1..7]);
        assert_eq!(to_bd_addr_type(bytes[0], BdAddr(addr)).ok(), Some(t));
    }
}

#[test]
fn connection_handle_holds_value() {
    let h = ConnectionHandle(0x0EA3);
    assert_eq!(h.0, 0x0EA3);
    assert_eq!(h, ConnectionHandle(0x0EA3));
}
