use keymint_ta::bytes::{
    array12_from, array32_from, bytes_equal, copy_bytes, i32_as_u32, i64_as_u64, push_be_u32,
    push_be_u64, push_le_u64, read_be_u64, u32_as_i32, u64_as_i64,
};

#[test]
fn signed_and_unsigned_share_their_bits() {
    assert_eq!(i32_as_u32(0), 0);
    assert_eq!(i32_as_u32(1), 1);
    assert_eq!(i32_as_u32(i32::MAX), 0x7fff_ffff);
    assert_eq!(i32_as_u32(-1), 0xffff_ffff);
    assert_eq!(i32_as_u32(i32::MIN), 0x8000_0000);
    assert_eq!(u32_as_i32(0x7fff_ffff), i32::MAX);
    assert_eq!(u32_as_i32(0x8000_0000), i32::MIN);
    assert_eq!(u32_as_i32(0xffff_ffff), -1);
    assert_eq!(u32_as_i32(0x9000_0259), -1879047591);

    assert_eq!(i64_as_u64(0), 0);
    assert_eq!(i64_as_u64(i64::MAX), 0x7fff_ffff_ffff_ffff);
    assert_eq!(i64_as_u64(-1), u64::MAX);
    assert_eq!(i64_as_u64(i64::MIN), 0x8000_0000_0000_0000);
    assert_eq!(u64_as_i64(0x7fff_ffff_ffff_ffff), i64::MAX);
    assert_eq!(u64_as_i64(0x8000_0000_0000_0000), i64::MIN);
    assert_eq!(u64_as_i64(u64::MAX), -1);
}

#[test]
fn same_bits_round_trip() {
    for x in [0i32, 1, -1, 42, -42, i32::MAX, i32::MIN, 0x1234_5678, -0x1234_5678] {
        assert_eq!(u32_as_i32(i32_as_u32(x)), x);
        assert_eq!(i32_as_u32(x).to_be_bytes(), x.to_be_bytes());
    }
    for x in [0u32, 1, 0x7fff_ffff, 0x8000_0000, 0x8000_0001, u32::MAX, 0xdead_beef] {
        assert_eq!(i32_as_u32(u32_as_i32(x)), x);
        assert_eq!(u32_as_i32(x).to_be_bytes(), x.to_be_bytes());
    }
    for x in [0i64, 1, -1, i64::MAX, i64::MIN, 0x0123_4567_89ab_cdef, -0x0123_4567_89ab_cdef] {
        assert_eq!(u64_as_i64(i64_as_u64(x)), x);
        assert_eq!(i64_as_u64(x).to_be_bytes(), x.to_be_bytes());
    }
    for x in [0u64, 1, 0x7fff_ffff_ffff_ffff, 0x8000_0000_0000_0000, u64::MAX, 0xdead_beef_0bad_cafe] {
        assert_eq!(i64_as_u64(u64_as_i64(x)), x);
        assert_eq!(u64_as_i64(x).to_be_bytes(), x.to_be_bytes());
    }
}

#[test]
fn numbers_are_written_byte_by_byte() {
    let mut out = vec![0xaa];
    push_be_u64(&mut out, 0x0102_0304_0506_0708);
    assert_eq!(out, vec![0xaa, 1, 2, 3, 4, 5, 6, 7, 8]);
    assert_eq!(read_be_u64(&out[1..]), 0x0102_0304_0506_0708);

    let mut out = Vec::new();
    push_le_u64(&mut out, 0x0102_0304_0506_0708);
    assert_eq!(out, vec![8, 7, 6, 5, 4, 3, 2, 1]);

    let mut out = Vec::new();
    push_be_u32(&mut out, 0xfffe_0102);
    assert_eq!(out, vec![0xff, 0xfe, 1, 2]);

    for x in [0u64, 1, 255, 256, u64::MAX, 0x8000_0000_0000_0000, 0x00ff_00ff_00ff_00ff] {
        let mut be = Vec::new();
        push_be_u64(&mut be, x);
        assert_eq!(be, x.to_be_bytes().to_vec());
        assert_eq!(read_be_u64(&be), x);
        let mut le = Vec::new();
        push_le_u64(&mut le, x);
        assert_eq!(le, x.to_le_bytes().to_vec());
    }
}

#[test]
fn arrays_come_from_slices_of_their_length() {
    assert_eq!(array12_from(&[7u8; 12]), Some([7u8; 12]));
    assert_eq!(array12_from(&[7u8; 11]), None);
    assert_eq!(array32_from(&[9u8; 32]), Some([9u8; 32]));
    assert_eq!(array32_from(&[9u8; 33]), None);
    assert_eq!(copy_bytes(&[1, 2, 3]), vec![1, 2, 3]);
    assert!(bytes_equal(&[1, 2, 3], &[1, 2, 3]));
    assert!(!bytes_equal(&[1, 2, 3], &[1, 2, 4]));
    assert!(!bytes_equal(&[1, 2, 3], &[1, 2]));
}
