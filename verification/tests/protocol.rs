use murust::bytes::{bytes_equal, copy_bytes, read_bytes, read_text, read_u16_le, read_u32_le};
use murust::protocol::{
    AccountLoginRequest, CharacterCreate, CharacterDelete, CharacterJoinRequest, Class, Client,
    ClientTime, DecodeError, Packet,
};

fn padded(text: &[u8], width: usize) -> Vec<u8> {
    let mut field = text.to_vec();
    while field.len() < width {
        field.push(0);
    }
    field
}

fn payload(subcode: u8, fields: &[Vec<u8>]) -> Vec<u8> {
    let mut data = vec![subcode];
    for field in fields {
        data.extend_from_slice(field);
    }
    data
}

#[test]
fn packet_keeps_code_and_data() {
    let packet = Packet::new(0xF3, vec![0x00, 0x01]);
    assert_eq!(packet.code(), 0xF3);
    assert_eq!(packet.data(), &vec![0x00, 0x01]);
    assert_eq!(packet.subcode(), Some(0x00));
    assert_eq!(Packet::new(0xF3, Vec::new()).subcode(), None);
}

#[test]
fn read_text_stops_at_first_nul() {
    let data = vec![9, b'A', b'b', 0, b'c', 0, 0];
    assert_eq!(read_text(&data, 1, 6), b"Ab".to_vec());
    assert_eq!(read_text(&data, 1, 2), b"Ab".to_vec());
    assert_eq!(read_text(&data, 3, 3), Vec::<u8>::new());
    assert_eq!(read_text(&data, 0, 0), Vec::<u8>::new());
}

#[test]
fn read_bytes_copies_the_range() {
    let data = vec![1, 2, 0, 4, 5];
    assert_eq!(read_bytes(&data, 1, 3), vec![2, 0, 4]);
    assert_eq!(read_bytes(&data, 5, 0), Vec::<u8>::new());
    assert_eq!(copy_bytes(&data), data);
}

#[test]
fn bytes_equal_compares_contents() {
    assert!(bytes_equal(&b"Foo".to_vec(), &b"Foo".to_vec()));
    assert!(!bytes_equal(&b"Foo".to_vec(), &b"Fo".to_vec()));
    assert!(!bytes_equal(&b"Foo".to_vec(), &b"Fob".to_vec()));
    assert!(bytes_equal(&Vec::new(), &Vec::new()));
}

#[test]
fn integers_are_little_endian() {
    let data = vec![0x78, 0x56, 0x34, 0x12, 0xFF, 0xFF, 0xFF, 0xFF];
    assert_eq!(read_u32_le(&data, 0), 0x1234_5678);
    assert_eq!(read_u16_le(&data, 0), 0x5678);
    assert_eq!(read_u16_le(&data, 2), 0x1234);
    assert_eq!(read_u32_le(&data, 4), u32::MAX);
    assert_eq!(read_u16_le(&data, 6), u16::MAX);
}

#[test]
fn class_codes_round_trip() {
    let classes = [
        (Class::DarkWizard, 0x00),
        (Class::SoulMaster, 0x10),
        (Class::DarkKnight, 0x20),
        (Class::BladeKnight, 0x30),
        (Class::FairyElf, 0x40),
        (Class::MuseElf, 0x50),
        (Class::MagicGladiator, 0x60),
        (Class::DarkLord, 0x80),
    ];
    for (class, code) in classes {
        assert_eq!(class.code(), code);
        assert_eq!(Class::from_code(code), Some(class));
    }
    assert_eq!(Class::from_code(0x70), None);
    assert_eq!(Class::from_code(0x01), None);
    assert_eq!(Class::from_code(0xFF), None);
}

#[test]
fn decodes_client_time() {
    let data = vec![0x00, 0x10, 0x27, 0x00, 0x00, 0x2C, 0x01, 0x05, 0x00];
    let message = Client::from_packet(&Packet::new(0x0E, data));
    assert_eq!(
        message,
        Ok(Client::ClientTime(ClientTime { time: 10000, attack_speed: 300, magic_speed: 5 }))
    );
}

#[test]
fn decodes_account_login_request() {
    let version = vec![b'1', b'0', b'4', b'0', b'4'];
    let serial = b"0123456789abcdef".to_vec();
    let data = payload(
        0x01,
        &[
            padded(b"foobar", 10),
            padded(b"hunter2", 10),
            vec![0x01, 0x02, 0x03, 0x04],
            version.clone(),
            serial.clone(),
        ],
    );
    assert_eq!(data.len(), 46);
    let message = Client::from_packet(&Packet::new(0xF1, data));
    assert_eq!(
        message,
        Ok(Client::AccountLoginRequest(AccountLoginRequest {
            username: b"foobar".to_vec(),
            password: b"hunter2".to_vec(),
            time: 0x0403_0201,
            version,
            serial,
        }))
    );
}

#[test]
fn decodes_character_list_request() {
    let message = Client::from_packet(&Packet::new(0xF3, vec![0x00]));
    assert_eq!(message, Ok(Client::CharacterListRequest));
}

#[test]
fn decodes_character_create() {
    let data = payload(0x01, &[padded(b"Foo", 10), vec![0x20]]);
    let message = Client::from_packet(&Packet::new(0xF3, data));
    assert_eq!(
        message,
        Ok(Client::CharacterCreate(CharacterCreate {
            name: b"Foo".to_vec(),
            class: Class::DarkKnight
        }))
    );
}

#[test]
fn decodes_character_delete() {
    let data = payload(0x02, &[padded(b"Foo", 10), padded(b"1234567", 10)]);
    let message = Client::from_packet(&Packet::new(0xF3, data));
    assert_eq!(
        message,
        Ok(Client::CharacterDelete(CharacterDelete {
            name: b"Foo".to_vec(),
            security_code: b"1234567".to_vec()
        }))
    );
}

#[test]
fn decodes_character_join_request() {
    let data = payload(0x03, &[padded(b"TenLetters", 10)]);
    let message = Client::from_packet(&Packet::new(0xF3, data));
    assert_eq!(
        message,
        Ok(Client::CharacterJoinRequest(CharacterJoinRequest { name: b"TenLetters".to_vec() }))
    );
}

#[test]
fn sub_decoders_agree_with_dispatch() {
    let create = payload(0x01, &[padded(b"Foo", 10), vec![0x40]]);
    assert_eq!(
        CharacterCreate::from_payload(&create),
        Ok(CharacterCreate { name: b"Foo".to_vec(), class: Class::FairyElf })
    );
    let delete = payload(0x02, &[padded(b"Foo", 10), padded(b"1", 10)]);
    assert_eq!(
        CharacterDelete::from_payload(&delete),
        Ok(CharacterDelete { name: b"Foo".to_vec(), security_code: b"1".to_vec() })
    );
    let join = payload(0x03, &[padded(b"", 10)]);
    assert_eq!(
        CharacterJoinRequest::from_payload(&join),
        Ok(CharacterJoinRequest { name: Vec::new() })
    );
    assert_eq!(ClientTime::from_payload(&vec![0x00]), Err(DecodeError::InvalidLength));
    assert_eq!(AccountLoginRequest::from_payload(&vec![0x01; 45]), Err(DecodeError::InvalidLength));
}

#[test]
fn unlisted_pairs_are_unrecognized() {
    for code in 0..=255u8 {
        for subcode in 0..=255u8 {
            let listed = matches!(
                (code, subcode),
                (0x0E, 0x00) | (0xF1, 0x01) | (0xF3, 0x00) | (0xF3, 0x01) | (0xF3, 0x02) | (0xF3, 0x03)
            );
            if !listed {
                let short = Client::from_packet(&Packet::new(code, vec![subcode]));
                assert_eq!(short, Ok(Client::Unrecognized));
                let long = Client::from_packet(&Packet::new(code, vec![subcode; 40]));
                assert_eq!(long, Ok(Client::Unrecognized));
            }
        }
    }
}

#[test]
fn empty_payload_is_unrecognized() {
    for code in [0x0E, 0xF1, 0xF3, 0x00] {
        assert_eq!(Client::from_packet(&Packet::new(code, Vec::new())), Ok(Client::Unrecognized));
    }
}

#[test]
fn malformed_known_packets_are_rejected() {
    let short_time = Client::from_packet(&Packet::new(0x0E, vec![0x00, 0x01]));
    assert_eq!(short_time, Err(DecodeError::InvalidLength));
    let long_list = Client::from_packet(&Packet::new(0xF3, vec![0x00, 0x00]));
    assert_eq!(long_list, Err(DecodeError::InvalidLength));
    let short_join = Client::from_packet(&Packet::new(0xF3, vec![0x03, b'A']));
    assert_eq!(short_join, Err(DecodeError::InvalidLength));
    let short_delete = Client::from_packet(&Packet::new(0xF3, payload(0x02, &[padded(b"Foo", 10)])));
    assert_eq!(short_delete, Err(DecodeError::InvalidLength));
    let short_login = Client::from_packet(&Packet::new(0xF1, vec![0x01; 12]));
    assert_eq!(short_login, Err(DecodeError::InvalidLength));
}

#[test]
fn unknown_class_is_rejected() {
    let data = payload(0x01, &[padded(b"Foo", 10), vec![0x70]]);
    assert_eq!(Client::from_packet(&Packet::new(0xF3, data)), Err(DecodeError::InvalidClass));
    let short = payload(0x01, &[padded(b"Foo", 10)]);
    assert_eq!(Client::from_packet(&Packet::new(0xF3, short)), Err(DecodeError::InvalidLength));
}
