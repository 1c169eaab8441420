use mooshroom::codec::MooshroomCodec;
use mooshroom::connection::{LoginProgress, MooshroomConnection, Stage};
use mooshroom::error::MooshroomError;
use mooshroom::io::{MooshroomReadable, MooshroomWritable};
use mooshroom::primitives::Position;
use mooshroom::server::play::metadata::{Recipe, RecipeData};
use mooshroom::server::play::nbt::NptTagData;
use mooshroom::primitives::Uuid;
use mooshroom::reader::Reader;
use mooshroom::server::play::metadata::KeepAlive;
use mooshroom::server::play::nbt::NptCompound;
use mooshroom::server::play::PlayStage;
use mooshroom::varint::{read_varint, write_varint, VarInt};

#[test]
fn varint_literal_25565() {
    let mut r = Reader::new(vec![0xdd, 0xc7, 0x01]);
    assert_eq!(read_varint(&mut r).unwrap(), VarInt(25565));
    let mut b = Vec::new();
    write_varint(VarInt(25565), &mut b);
    assert_eq!(b, vec![0xdd, 0xc7, 0x01]);
}

#[test]
fn handshake_encodes_to_known_bytes() {
    let mut conn = MooshroomConnection::new();
    let out = conn
        .start_handshake("127.0.0.1".to_string(), 25565, "mooshroom".to_string())
        .unwrap();
    let mut expected: Vec<u8> = Vec::new();
    // <len> <0x00> <varint 760> <varint 9> "127.0.0.1" <u16 25565> <varint 2>
    let mut body: Vec<u8> = vec![0x00, 0xf8, 0x05, 9];
    body.extend_from_slice(b"127.0.0.1");
    body.extend_from_slice(&[0x63, 0xdd, 0x02]);
    expected.push(body.len() as u8);
    expected.extend_from_slice(&body);
    assert_eq!(&out[..expected.len()], expected.as_slice());
    assert!(matches!(conn.stage(), Stage::Login));
}

#[test]
fn position_round_trip_exact() {
    let p = Position { x: -1, y: 64, z: 100 };
    let mut b = Vec::new();
    p.write(&mut b);
    assert_eq!(b.len(), 8);
    let mut r = Reader::new(b);
    let q = Position::read(&mut r).unwrap();
    assert_eq!(q.x, -1);
    assert_eq!(q.y, 64);
    assert_eq!(q.z, 100);
}

fn keep_alive_frame(id: i64) -> Vec<u8> {
    let mut f = vec![9, 0x20];
    f.extend_from_slice(&id.to_be_bytes());
    f
}

#[test]
fn login_flow_with_compression() {
    let mut conn = MooshroomConnection::new();
    let _hello = conn
        .start_handshake("127.0.0.1".to_string(), 25565, "mooshroom".to_string())
        .unwrap();

    assert_eq!(conn.login_step().unwrap(), LoginProgress::NeedMore);

    // SetCompression { threshold: 256 }: uncompressed frame, id 0x03.
    conn.add_bytes(&[3, 0x03, 0x80, 0x02]);
    assert_eq!(conn.login_step().unwrap(), LoginProgress::Continue);

    // LoginSuccess under compressed framing, below the threshold.
    let uuid: u128 = 0x156062c2952f3cd3b877c03b38f69c30;
    let mut body: Vec<u8> = vec![0x02];
    body.extend_from_slice(&uuid.to_be_bytes());
    body.push(9);
    body.extend_from_slice(b"mooshroom");
    body.push(0); // no properties
    let mut frame: Vec<u8> = vec![(body.len() + 1) as u8, 0];
    frame.extend_from_slice(&body);
    conn.add_bytes(&frame);

    let done = conn.login_step().unwrap();
    assert_eq!(done, LoginProgress::Done(Uuid::new(uuid)));
    assert!(matches!(conn.stage(), Stage::Play(u) if *u == Uuid::new(uuid)));
}

#[test]
fn keep_alive_cycle() {
    let mut conn = MooshroomConnection::new();
    conn.add_bytes(&keep_alive_frame(42));
    let p = conn.next_play_packet().unwrap().unwrap();
    let id = match p {
        PlayStage::KeepAlive(KeepAlive(id)) => id,
        other => panic!("unexpected packet {:?}", other),
    };
    assert_eq!(id, 42);
    let reply = conn.respond_to_keep_alive(id).unwrap();
    // <len 9> <packet id 0x12> <i64 42 big endian>
    let mut expected = vec![9, 0x12];
    expected.extend_from_slice(&42i64.to_be_bytes());
    assert_eq!(reply, expected);
}

#[test]
fn unknown_play_variant_consumes_frame() {
    let mut conn = MooshroomConnection::new();
    conn.add_bytes(&[2, 0x7f, 0x55]);
    conn.add_bytes(&keep_alive_frame(7));
    let e = conn.next_play_packet().unwrap_err();
    assert!(matches!(e, MooshroomError::NotInCollection(0x7f)));
    // the unknown frame was fully consumed; the next one still parses
    let p = conn.next_play_packet().unwrap().unwrap();
    assert!(matches!(p, PlayStage::KeepAlive(KeepAlive(7))));
}

#[test]
fn frame_codec_compresses_above_threshold() {
    let mut tx = MooshroomCodec::new();
    tx.set_compression(0);
    let packet = KeepAlive(99);
    let bytes = tx.encode(&packet).unwrap();

    // below-threshold framing would carry the body verbatim behind a zero
    // marker; with threshold zero the body must be deflated instead
    assert_ne!(bytes[1], 0);

    let mut rx = MooshroomCodec::new();
    rx.set_compression(0);
    rx.add_bytes(&bytes);
    let data = rx.read_packet_data().unwrap().unwrap();
    assert_eq!(data.packet_id, VarInt(0x20));
    assert_eq!(data.body, 99i64.to_be_bytes().to_vec());
}

#[test]
fn frame_codec_verbatim_below_threshold() {
    let mut tx = MooshroomCodec::new();
    tx.set_compression(1000);
    let packet = KeepAlive(99);
    let bytes = tx.encode(&packet).unwrap();
    assert_eq!(bytes[1], 0); // inflated size marker: zero, body verbatim

    let mut rx = MooshroomCodec::new();
    rx.set_compression(1000);
    rx.add_bytes(&bytes);
    let p: KeepAlive = rx.read_packet().unwrap().unwrap();
    assert_eq!(p, KeepAlive(99));
}

#[test]
fn frame_codec_waits_for_whole_frame() {
    let mut rx = MooshroomCodec::new();
    rx.add_bytes(&[9, 0x20, 0, 0]);
    assert!(rx.read_packet_data().unwrap().is_none());
    rx.add_bytes(&[0, 0, 0, 0, 0, 42]);
    let data = rx.read_packet_data().unwrap().unwrap();
    assert_eq!(data.packet_id, VarInt(0x20));
}

#[test]
fn unexpected_packet_id_reported() {
    let mut rx = MooshroomCodec::new();
    rx.add_bytes(&keep_alive_frame(1));
    let e = rx.read_packet::<mooshroom::server::login::SetCompression>().unwrap_err();
    assert!(matches!(e, MooshroomError::UnexpectedPacket(0x03, 0x20)));
}

#[test]
fn nbt_compound_parses_and_keeps_bytes() {
    // {"hello": 42s} : compound tag named "hello" holding a short
    let bytes: Vec<u8> = vec![
        0x02, 0x00, 0x05, b'h', b'e', b'l', b'l', b'o', 0x00, 0x2a,
    ];
    let mut r = Reader::new(bytes.clone());
    let c = NptCompound::read(&mut r).unwrap();
    assert_eq!(c.raw, bytes);
    assert_eq!(c.tag.0, "hello");
    assert_eq!(c.tag.1, NptTagData::Short(42));
}

#[test]
fn nbt_unknown_tag_rejected() {
    let bytes: Vec<u8> = vec![0x63, 0x00, 0x01, b'x', 0x00];
    let mut r = Reader::new(bytes);
    let e = NptCompound::read(&mut r).unwrap_err();
    assert!(matches!(e, MooshroomError::InvalidNbtTag(0x63)));
}

#[test]
fn recipe_read_smelting() {
    let mut b: Vec<u8> = Vec::new();
    let ty = "minecraft:smelting";
    b.push(ty.len() as u8);
    b.extend_from_slice(ty.as_bytes());
    let id = "minecraft:iron_ingot";
    b.push(id.len() as u8);
    b.extend_from_slice(id.as_bytes());
    b.push(5); // group "stone"
    b.extend_from_slice(b"stone");
    b.push(0); // empty ingredient list
    b.push(0); // result: empty slot
    b.extend_from_slice(&[0x3f, 0x80, 0x00, 0x00]); // experience bits of 1.0
    b.push(100); // cooking time
    let mut r = Reader::new(b);
    let recipe = Recipe::read(&mut r).unwrap();
    assert_eq!(recipe.recipe_type, "minecraft:smelting");
    assert_eq!(recipe.recipe_id, "minecraft:iron_ingot");
    match recipe.data {
        RecipeData::Smelting(d) => {
            assert_eq!(d.group, "stone");
            assert_eq!(d.cooking_time, VarInt(100));
            assert_eq!(d.experience.0, 0x3f800000);
        },
        other => panic!("wrong recipe data {:?}", other),
    }
}

#[test]
fn disconnect_carries_chat_payload() {
    let mut conn = MooshroomConnection::new();
    let _hello = conn
        .start_handshake("127.0.0.1".to_string(), 25565, "mooshroom".to_string())
        .unwrap();
    // Disconnect frame: id 0x00, body is a protocol String "bye".
    conn.add_bytes(&[5, 0x00, 0x03, b'b', b'y', b'e']);
    let e = conn.login_step().unwrap_err();
    match e {
        MooshroomError::Other(m) => assert_eq!(m, "bye"),
        other => panic!("unexpected error {:?}", other),
    }
}

#[test]
fn nbt_list_negative_count_rejected() {
    // element tag 1 (Byte), then a count of -1 as a big-endian i32
    let bytes: Vec<u8> = vec![0x01, 0xff, 0xff, 0xff, 0xff];
    let mut r = Reader::new(bytes);
    let e = NptTagData::read_type(9, &mut r).unwrap_err();
    assert!(matches!(e, MooshroomError::IoError));
}
