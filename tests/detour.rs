use ptc_mod::detour::call_patch;
use ptc_mod::patch::ConstructionError;

fn decode_target(call_site: usize, bytes: &[u8]) -> i64 {
    assert_eq!(bytes.len(), 5);
    assert_eq!(bytes[0], 0xe8);
    let rel = i32::from_le_bytes([bytes[1], bytes[2], bytes[3], bytes[4]]);
    call_site as i64 + 5 + rel as i64
}

#[test]
fn example_detour_bytes() {
    let p = call_patch(0xD46220, 0xD5C2A0, 0xD60000).unwrap();
    assert_eq!(p.addr(), 0xD46220);
    assert_eq!(p.old_bytes(), &[0xE8, 0x7B, 0x60, 0x01, 0x00]);
    let rel_new = 0xD60000i64 - (0xD46220 + 5);
    let b = (rel_new as i32).to_le_bytes();
    assert_eq!(p.new_bytes(), &[0xE8, b[0], b[1], b[2], b[3]]);
}

#[test]
fn detour_decodes_to_both_targets() {
    let cases: Vec<(usize, usize, usize)> = vec![
        (0xD46220, 0xD5C2A0, 0xD60000),
        (0x165e8, 0x16440, 0x7fff_0000),
        (0x8000_0000, 0x1000, 0x8000_0005),
        (0x1000, 0x1000, 0x0),
    ];
    for (c, t1, t2) in cases {
        let p = call_patch(c, t1, t2).unwrap();
        assert_eq!(decode_target(c, p.old_bytes()), t1 as i64);
        assert_eq!(decode_target(c, p.new_bytes()), t2 as i64);
    }
}

#[test]
fn detour_backwards_call() {
    let p = call_patch(0x16440, 0x16440, 0x165e8).unwrap();
    assert_eq!(p.old_bytes(), &[0xE8, 0xFB, 0xFF, 0xFF, 0xFF]);
    assert_eq!(p.new_bytes(), &[0xE8, 0xA3, 0x01, 0x00, 0x00]);
}

#[test]
fn detour_displacement_limits() {
    let c: usize = 0x1_0000_0000;
    assert!(call_patch(c, c + 5 + 0x7fff_ffff, c).is_ok());
    assert!(matches!(
        call_patch(c, c + 5 + 0x8000_0000, c),
        Err(ConstructionError::DisplacementOutOfRange)
    ));
    assert!(call_patch(c, c + 5 - 0x8000_0000, c).is_ok());
    assert!(matches!(
        call_patch(c, c, c + 5 - 0x8000_0001),
        Err(ConstructionError::DisplacementOutOfRange)
    ));
}
