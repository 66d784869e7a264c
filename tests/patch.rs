use ptc_mod::memory::MemoryImage;
use ptc_mod::patch::{ConstructionError, Patch, PatchError};

fn image(base: usize, bytes: Vec<u8>) -> MemoryImage {
    MemoryImage::new(base, bytes).unwrap()
}

#[test]
fn example_apply_reapply_unapply() {
    let base = 0x40_0000;
    let mut bytes = vec![0xcc; 0x200];
    bytes[0x100] = 0x01;
    let mut mem = image(base, bytes);
    let p = Patch::new(base + 0x100, vec![0x01], vec![0x00]).unwrap();

    assert_eq!(p.apply(&mut mem), Ok(()));
    assert_eq!(mem.bytes()[0x100], 0x00);

    let before = mem.bytes().to_vec();
    assert_eq!(
        p.apply(&mut mem),
        Err(PatchError::UnexpectedBytes { expected: vec![0x01], found: vec![0x00] })
    );
    assert_eq!(mem.bytes(), &before[..]);

    assert_eq!(p.unapply(&mut mem), Ok(()));
    assert_eq!(mem.bytes()[0x100], 0x01);
}

#[test]
fn round_trip_restores_every_byte() {
    let original: Vec<u8> = (0..64u8).collect();
    let mut mem = image(0x1000, original.clone());
    let p = Patch::new(0x1010, vec![16, 17, 18], vec![0x90, 0x90, 0x90]).unwrap();
    p.apply(&mut mem).unwrap();
    assert_eq!(&mem.bytes()[16..19], &[0x90, 0x90, 0x90]);
    assert_eq!(&mem.bytes()[..16], &original[..16]);
    assert_eq!(&mem.bytes()[19..], &original[19..]);
    p.unapply(&mut mem).unwrap();
    assert_eq!(mem.bytes(), &original[..]);
}

#[test]
fn apply_on_wrong_bytes_changes_nothing() {
    let original = vec![1, 2, 3, 4, 5];
    let mut mem = image(0, original.clone());
    let p = Patch::new(1, vec![2, 9], vec![7, 7]).unwrap();
    assert_eq!(
        p.apply(&mut mem),
        Err(PatchError::UnexpectedBytes { expected: vec![2, 9], found: vec![2, 3] })
    );
    assert_eq!(mem.bytes(), &original[..]);
}

#[test]
fn unapply_on_wrong_bytes_changes_nothing() {
    let original = vec![1, 2, 3];
    let mut mem = image(0, original.clone());
    let p = Patch::new(0, vec![1, 2], vec![5, 6]).unwrap();
    assert_eq!(
        p.unapply(&mut mem),
        Err(PatchError::UnexpectedBytes { expected: vec![5, 6], found: vec![1, 2] })
    );
    assert_eq!(mem.bytes(), &original[..]);
}

#[test]
fn double_apply_is_rejected() {
    let mut mem = image(0x10, vec![0x72, 0xe8, 0x00]);
    let p = Patch::new(0x10, vec![0x72, 0xe8], vec![0x90, 0x90]).unwrap();
    p.apply(&mut mem).unwrap();
    let after_first = mem.bytes().to_vec();
    match p.apply(&mut mem) {
        Err(PatchError::UnexpectedBytes { expected, found }) => {
            assert_eq!(expected, vec![0x72, 0xe8]);
            assert_eq!(found, vec![0x90, 0x90]);
        }
        other => panic!("second apply gave {:?}", other),
    }
    assert_eq!(mem.bytes(), &after_first[..]);
}

#[test]
fn length_mismatch_is_refused() {
    let cases: Vec<(usize, usize)> = vec![(0, 1), (1, 0), (1, 2), (2, 1), (4, 5), (5, 4), (0, 7)];
    for (a, b) in cases {
        assert!(matches!(
            Patch::new(0x100, vec![0u8; a], vec![1u8; b]),
            Err(ConstructionError::LengthMismatch)
        ));
    }
    assert!(Patch::new(0x100, vec![], vec![]).is_ok());
    assert!(Patch::new(0x100, vec![1, 2], vec![3, 4]).is_ok());
}

#[test]
fn patch_outside_window_is_out_of_range() {
    let mut mem = image(0x100, vec![1, 2, 3]);
    let before_start = Patch::new(0xff, vec![0, 1], vec![9, 9]).unwrap();
    let past_end = Patch::new(0x102, vec![3, 0], vec![9, 9]).unwrap();
    assert_eq!(before_start.apply(&mut mem), Err(PatchError::OutOfRange));
    assert_eq!(past_end.unapply(&mut mem), Err(PatchError::OutOfRange));
    assert_eq!(mem.bytes(), &[1, 2, 3]);
}

#[test]
fn check_apply_and_unapply_compare_resident_bytes() {
    let p = Patch::new(0x5000, vec![0x01], vec![0x00]).unwrap();
    assert_eq!(p.check_apply(&[0x01]), Ok(()));
    assert_eq!(
        p.check_apply(&[0x00]),
        Err(PatchError::UnexpectedBytes { expected: vec![0x01], found: vec![0x00] })
    );
    assert_eq!(p.check_unapply(&[0x00]), Ok(()));
    assert_eq!(
        p.check_unapply(&[0x01]),
        Err(PatchError::UnexpectedBytes { expected: vec![0x00], found: vec![0x01] })
    );
    assert_eq!(p.addr(), 0x5000);
    assert_eq!(p.old_bytes(), &[0x01]);
    assert_eq!(p.new_bytes(), &[0x00]);
    assert_eq!(p.len(), 1);
}

#[test]
fn memory_window_reads_and_bounds() {
    let mem = image(0x20, vec![10, 11, 12, 13]);
    assert_eq!(mem.base(), 0x20);
    assert_eq!(mem.read(0x21, 2), Some(vec![11, 12]));
    assert_eq!(mem.read(0x23, 2), None);
    assert_eq!(mem.read(0x1f, 1), None);
    assert_eq!(mem.read(0x24, 0), Some(vec![]));
    assert!(mem.covers(0x20, 4));
    assert!(!mem.covers(0x20, 5));
    assert!(MemoryImage::new(usize::MAX, vec![1]).is_some());
    assert!(MemoryImage::new(usize::MAX, vec![1, 2]).is_none());
}

#[test]
fn write_replaces_only_the_range() {
    let mut mem = image(0, vec![0; 6]);
    mem.write(2, &[7, 8]);
    assert_eq!(mem.bytes(), &[0, 0, 7, 8, 0, 0]);
}
