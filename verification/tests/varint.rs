use mooshroom::reader::Reader;
use mooshroom::varint::{read_varint, read_varlong, write_varint, write_varlong, VarInt, VarLong};

fn read_vi(bytes: &[u8]) -> VarInt {
    let mut r = Reader::new(bytes.to_vec());
    read_varint(&mut r).unwrap()
}

fn read_vl(bytes: &[u8]) -> VarLong {
    let mut r = Reader::new(bytes.to_vec());
    read_varlong(&mut r).unwrap()
}

#[test]
fn varint_read() {
    assert_eq!(read_vi(&[0x0]), VarInt(0));
    assert_eq!(read_vi(&[0x1]), VarInt(1));
    assert_eq!(read_vi(&[0x2]), VarInt(2));
    assert_eq!(read_vi(&[0x7f]), VarInt(127));
    assert_eq!(read_vi(&[0x80, 0x01]), VarInt(128));
    assert_eq!(read_vi(&[0xff, 0x01]), VarInt(255));
    assert_eq!(read_vi(&[0xdd, 0xc7, 0x01]), VarInt(25565));
    assert_eq!(read_vi(&[0xff, 0xff, 0x7f]), VarInt(2097151));
    assert_eq!(read_vi(&[0xff, 0xff, 0xff, 0xff, 0x07]), VarInt(2147483647));
    assert_eq!(read_vi(&[0xff, 0xff, 0xff, 0xff, 0x0f]), VarInt(-1));
    assert_eq!(read_vi(&[0x80, 0x80, 0x80, 0x80, 0x08]), VarInt(-2147483648));
}

#[test]
fn varint_write() {
    fn check_varint(value: i32, expected: &[u8]) {
        let mut buffer = Vec::new();
        write_varint(VarInt(value), &mut buffer);
        assert_eq!(expected, buffer.as_slice());
    }

    check_varint(0, &[0x0]);
    check_varint(1, &[0x1]);
    check_varint(2, &[0x2]);
    check_varint(127, &[0x7f]);
    check_varint(128, &[0x80, 0x01]);
    check_varint(255, &[0xff, 0x01]);
    check_varint(25565, &[0xdd, 0xc7, 0x01]);
    check_varint(2097151, &[0xff, 0xff, 0x7f]);
    check_varint(2147483647, &[0xff, 0xff, 0xff, 0xff, 0x07]);
    check_varint(-1, &[0xff, 0xff, 0xff, 0xff, 0x0f]);
    check_varint(-2147483648, &[0x80, 0x80, 0x80, 0x80, 0x08]);
}

#[test]
fn varint_write_read() {
    let tests = [
        0,
        1,
        2,
        127,
        128,
        255,
        25565,
        2097151,
        2147483647,
        -1,
        -2147483648,
    ];
    for i in tests {
        let mut buffer = Vec::new();
        let vi = VarInt(i);
        write_varint(vi, &mut buffer);
        let vo = read_vi(buffer.as_slice());
        assert_eq!(vi, vo);
    }
}

#[test]
fn varlong_read() {
    assert_eq!(read_vl(&[0x0]), VarLong(0));
    assert_eq!(read_vl(&[0x1]), VarLong(1));
    assert_eq!(read_vl(&[0x2]), VarLong(2));
    assert_eq!(read_vl(&[0x7f]), VarLong(127));
    assert_eq!(read_vl(&[0x80, 0x01]), VarLong(128));
    assert_eq!(read_vl(&[0xff, 0x01]), VarLong(255));
    assert_eq!(read_vl(&[0xdd, 0xc7, 0x01]), VarLong(25565));
    assert_eq!(read_vl(&[0xff, 0xff, 0x7f]), VarLong(2097151));
    assert_eq!(read_vl(&[0xff, 0xff, 0xff, 0xff, 0x07]), VarLong(2147483647));
    assert_eq!(
        read_vl(&[0xff, 0xff, 0xff, 0xff, 0xff, 0xff, 0xff, 0xff, 0x7f]),
        VarLong(9223372036854775807)
    );
    assert_eq!(
        read_vl(&[0xff, 0xff, 0xff, 0xff, 0xff, 0xff, 0xff, 0xff, 0xff, 0x01]),
        VarLong(-1)
    );
    assert_eq!(
        read_vl(&[0x80, 0x80, 0x80, 0x80, 0xf8, 0xff, 0xff, 0xff, 0xff, 0x01]),
        VarLong(-2147483648)
    );
    assert_eq!(
        read_vl(&[0x80, 0x80, 0x80, 0x80, 0x80, 0x80, 0x80, 0x80, 0x80, 0x01]),
        VarLong(-9223372036854775808)
    );
}

#[test]
fn varlong_write() {
    fn check_varlong(value: i64, expected: &[u8]) {
        let mut buffer = Vec::new();
        write_varlong(VarLong(value), &mut buffer);
        assert_eq!(buffer.len(), expected.len(), "Value: {}", value);
        assert_eq!(expected, buffer.as_slice());
    }

    check_varlong(0, &[0x0]);
    check_varlong(1, &[0x1]);
    check_varlong(2, &[0x2]);
    check_varlong(127, &[0x7f]);
    check_varlong(128, &[0x80, 0x01]);
    check_varlong(255, &[0xff, 0x01]);
    check_varlong(25565, &[0xdd, 0xc7, 0x01]);
    check_varlong(2097151, &[0xff, 0xff, 0x7f]);
    check_varlong(2147483647, &[0xff, 0xff, 0xff, 0xff, 0x07]);
    check_varlong(
        9223372036854775807,
        &[0xff, 0xff, 0xff, 0xff, 0xff, 0xff, 0xff, 0xff, 0x7f],
    );
    check_varlong(
        -1,
        &[0xff, 0xff, 0xff, 0xff, 0xff, 0xff, 0xff, 0xff, 0xff, 0x01],
    );
    check_varlong(
        -2147483648,
        &[0x80, 0x80, 0x80, 0x80, 0xf8, 0xff, 0xff, 0xff, 0xff, 0x01],
    );
    check_varlong(
        -9223372036854775808,
        &[0x80, 0x80, 0x80, 0x80, 0x80, 0x80, 0x80, 0x80, 0x80, 0x01],
    );
}

#[test]
fn varlong_write_read() {
    let tests = [
        0,
        1,
        2,
        127,
        128,
        255,
        25565,
        2097151,
        2147483647,
        9223372036854775807,
        -1,
        -2147483648,
        -9223372036854775808,
    ];
    for i in tests {
        let mut buffer = Vec::new();
        let vi = VarLong(i);
        write_varlong(vi, &mut buffer);
        let vo = read_vl(buffer.as_slice());
        assert_eq!(vi, vo);
    }
}

#[test]
fn varint_overlong_rejected() {
    let mut r = Reader::new(vec![0xff, 0xff, 0xff, 0xff, 0xff, 0x01]);
    let e = read_varint(&mut r).unwrap_err();
    assert!(matches!(e, mooshroom::error::MooshroomError::VarIntTooLong));
}

#[test]
fn varint_truncated_rejected() {
    let mut r = Reader::new(vec![0x80, 0x80]);
    let e = read_varint(&mut r).unwrap_err();
    assert!(matches!(e, mooshroom::error::MooshroomError::IoError));
}
