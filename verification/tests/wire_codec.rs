//! Wire records and their byte-exact encodings.

use uhyve_fs::codec::{
    decode_lseek_offset, decode_open_ret, decode_read_ret, decode_unlink_ret, encode_close,
    encode_lseek, encode_open, encode_read, encode_unlink, encode_write, CLOSE_RECORD_LEN,
    LSEEK_RECORD_LEN, OPEN_RECORD_LEN, READ_RECORD_LEN, UNLINK_RECORD_LEN, WRITE_RECORD_LEN,
};
use uhyve_fs::wire::{
    whence_code, SeekWhence, SysClose, SysLseek, SysOpen, SysRead, SysUnlink, SysWrite,
    UHYVE_PORT_CLOSE, UHYVE_PORT_LSEEK, UHYVE_PORT_OPEN, UHYVE_PORT_READ, UHYVE_PORT_UNLINK,
    UHYVE_PORT_WRITE,
};

fn patch(bytes: &mut Vec<u8>, at: usize, field: &[u8]) {
    for (i, b) in field.iter().enumerate() {
        bytes[at + i] = *b;
    }
}

#[test]
fn ports_are_distinct_reserved_values() {
    assert_eq!(UHYVE_PORT_WRITE, 0x400);
    assert_eq!(UHYVE_PORT_OPEN, 0x440);
    assert_eq!(UHYVE_PORT_CLOSE, 0x480);
    assert_eq!(UHYVE_PORT_READ, 0x500);
    assert_eq!(UHYVE_PORT_LSEEK, 0x580);
    assert_eq!(UHYVE_PORT_UNLINK, 0x840);
}

#[test]
fn whence_codes_are_conventional() {
    assert_eq!(whence_code(SeekWhence::Start), 0);
    assert_eq!(whence_code(SeekWhence::Current), 1);
    assert_eq!(whence_code(SeekWhence::End), 2);
}

#[test]
fn constructors_fill_inputs_and_mark_result_pending() {
    let open = SysOpen::new(0x1000, 0x241, 0o644);
    assert_eq!(open.name, 0x1000);
    assert_eq!(open.flags, 0x241);
    assert_eq!(open.mode, 0o644);
    assert_eq!(open.ret, -1);

    let close = SysClose::new(7);
    assert_eq!(close.fd, 7);
    assert_eq!(close.ret, -1);

    let read = SysRead::new(3, 0x2000, 16);
    assert_eq!(read.fd, 3);
    assert_eq!(read.buf, 0x2000);
    assert_eq!(read.len, 16);
    assert_eq!(read.ret, -1);

    let write = SysWrite::new(3, 0x3000, 2);
    assert_eq!(write.fd, 3);
    assert_eq!(write.buf, 0x3000);
    assert_eq!(write.len, 2);

    let lseek = SysLseek::new(3, 100, SeekWhence::Start);
    assert_eq!(lseek.fd, 3);
    assert_eq!(lseek.offset, 100);
    assert_eq!(lseek.whence, 0);

    let unlink = SysUnlink::new(0x4000);
    assert_eq!(unlink.name, 0x4000);
    assert_eq!(unlink.ret, -1);
}

#[test]
fn encoded_records_have_their_packed_lengths() {
    assert_eq!(encode_open(&SysOpen::new(0, 0, 0)).len(), OPEN_RECORD_LEN);
    assert_eq!(encode_close(&SysClose::new(0)).len(), CLOSE_RECORD_LEN);
    assert_eq!(encode_read(&SysRead::new(0, 0, 0)).len(), READ_RECORD_LEN);
    assert_eq!(encode_write(&SysWrite::new(0, 0, 0)).len(), WRITE_RECORD_LEN);
    assert_eq!(
        encode_lseek(&SysLseek::new(0, 0, SeekWhence::Start)).len(),
        LSEEK_RECORD_LEN
    );
    assert_eq!(encode_unlink(&SysUnlink::new(0)).len(), UNLINK_RECORD_LEN);
}

#[test]
fn open_record_layout_is_byte_exact() {
    let r = SysOpen::new(0x1122334455667788, 0x241, -1);
    let b = encode_open(&r);
    let mut expected = Vec::new();
    expected.extend_from_slice(&[0x88, 0x77, 0x66, 0x55, 0x44, 0x33, 0x22, 0x11]);
    expected.extend_from_slice(&[0x41, 0x02, 0x00, 0x00]);
    expected.extend_from_slice(&[0xff, 0xff, 0xff, 0xff]);
    expected.extend_from_slice(&[0xff, 0xff, 0xff, 0xff]);
    assert_eq!(b, expected);
}

#[test]
fn read_record_layout_is_byte_exact() {
    let r = SysRead::new(3, 0x0102030405060708, 2);
    let b = encode_read(&r);
    let mut expected = Vec::new();
    expected.extend_from_slice(&[0x03, 0x00, 0x00, 0x00]);
    expected.extend_from_slice(&[0x08, 0x07, 0x06, 0x05, 0x04, 0x03, 0x02, 0x01]);
    expected.extend_from_slice(&[0x02, 0x00, 0x00, 0x00, 0x00, 0x00, 0x00, 0x00]);
    expected.extend_from_slice(&[0xff; 8]);
    assert_eq!(b, expected);
}

#[test]
fn lseek_record_layout_is_byte_exact() {
    let r = SysLseek::new(3, -2, SeekWhence::End);
    let b = encode_lseek(&r);
    let mut expected = Vec::new();
    expected.extend_from_slice(&[0x03, 0x00, 0x00, 0x00]);
    expected.extend_from_slice(&[0xfe, 0xff, 0xff, 0xff, 0xff, 0xff, 0xff, 0xff]);
    expected.extend_from_slice(&[0x02, 0x00, 0x00, 0x00]);
    assert_eq!(b, expected);
}

#[test]
fn unlink_and_close_and_write_layouts_are_byte_exact() {
    let u = encode_unlink(&SysUnlink::new(0x00000000000000aa));
    assert_eq!(
        u,
        vec![0xaa, 0, 0, 0, 0, 0, 0, 0, 0xff, 0xff, 0xff, 0xff]
    );
    let c = encode_close(&SysClose::new(3));
    assert_eq!(c, vec![0x03, 0, 0, 0, 0xff, 0xff, 0xff, 0xff]);
    let w = encode_write(&SysWrite::new(3, 0xbb, 2));
    assert_eq!(
        w,
        vec![0x03, 0, 0, 0, 0xbb, 0, 0, 0, 0, 0, 0, 0, 0x02, 0, 0, 0, 0, 0, 0, 0]
    );
}

#[test]
fn decode_reads_the_result_field_the_host_wrote() {
    let mut open = encode_open(&SysOpen::new(0x1000, 0, 0));
    patch(&mut open, 16, &3i32.to_le_bytes());
    assert_eq!(decode_open_ret(&open), 3);
    patch(&mut open, 16, &(-2i32).to_le_bytes());
    assert_eq!(decode_open_ret(&open), -2);

    let mut read = encode_read(&SysRead::new(3, 0x2000, 16));
    patch(&mut read, 20, &7i64.to_le_bytes());
    assert_eq!(decode_read_ret(&read), 7);
    patch(&mut read, 20, &(-9i64).to_le_bytes());
    assert_eq!(decode_read_ret(&read), -9);

    let mut lseek = encode_lseek(&SysLseek::new(3, 100, SeekWhence::Start));
    patch(&mut lseek, 4, &42i64.to_le_bytes());
    assert_eq!(decode_lseek_offset(&lseek), 42);

    let mut unlink = encode_unlink(&SysUnlink::new(0x4000));
    patch(&mut unlink, 8, &0i32.to_le_bytes());
    assert_eq!(decode_unlink_ret(&unlink), 0);
    patch(&mut unlink, 8, &(-13i32).to_le_bytes());
    assert_eq!(decode_unlink_ret(&unlink), -13);
}

#[test]
fn decode_reads_back_what_encode_laid_out() {
    let open = encode_open(&SysOpen::new(0xdead, 1, 2));
    assert_eq!(decode_open_ret(&open), -1);
    let read = encode_read(&SysRead::new(5, 0x100, 64));
    assert_eq!(decode_read_ret(&read), -1);
    let lseek = encode_lseek(&SysLseek::new(5, 9, SeekWhence::Current));
    assert_eq!(decode_lseek_offset(&lseek), 9);
    let unlink = encode_unlink(&SysUnlink::new(0x100));
    assert_eq!(decode_unlink_ret(&unlink), -1);
}
