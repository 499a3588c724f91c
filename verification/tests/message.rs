use bytes::Bytes;
use mcp2517::id::Id;
use mcp2517::message::{Can20, CanFd, MessageError, RxHeader, TxMessage, DLC};

const EXTENDED_ID: u32 = 0x14C92A2B;

const STANDARD_ID: u16 = 0x6A5;

#[test]
fn test_extended_id() {
    let payload_bytes = Bytes::copy_from_slice(&[0u8; 8]);
    let extended_id = Id::new_extended(EXTENDED_ID).unwrap();

    let msg_type = Can20::<8> {};

    let message = TxMessage::new(msg_type, payload_bytes, extended_id).unwrap();

    assert!(message.header.identifier_extension_flag);
    assert_eq!(message.header.extended_identifier, 0b01_0010_1010_0010_1011);
    assert_eq!(message.header.standard_identifier, 0b101_0011_0010);
}

#[test]
fn test_standard_id() {
    let payload_bytes = Bytes::copy_from_slice(&[0u8; 8]);
    let standard_id = Id::new_standard(STANDARD_ID).unwrap();

    let msg_type = Can20::<8> {};

    let message = TxMessage::new(msg_type, payload_bytes, standard_id).unwrap();

    assert!(!message.header.identifier_extension_flag);
    assert_eq!(message.header.extended_identifier, 0b00_0000_0000_0000_0000);
    assert_eq!(message.header.standard_identifier, 0b110_1010_0101);
}

#[test]
fn test_dlc_success() {
    let payload_bytes = Bytes::copy_from_slice(&[0u8; 13]);
    let standard_id = Id::new_standard(STANDARD_ID).unwrap();

    let msg_type = CanFd::<16> { bitrate_switch: false };

    let message = TxMessage::new(msg_type, payload_bytes, standard_id).unwrap();

    assert_eq!(message.header.data_length_code, DLC::Sixteen);
    assert!(message.header.fd_frame);

    let header_bytes = message.header.into_bytes();

    assert_eq!(header_bytes[7], 0b1000_1010);
}

#[test]
fn test_dlc_error() {
    let data_2_0 = [0u8; 10];
    let data_fd = [0u8; 65];

    let payload_bytes_2_0 = Bytes::copy_from_slice(&data_2_0);
    let payload_bytes_fd = Bytes::copy_from_slice(&data_fd);

    let can_msg_20 = Can20::<8> {};
    let can_msg_fd = CanFd::<64> { bitrate_switch: false };

    let standard_id = Id::new_standard(STANDARD_ID).unwrap();

    let message_2_0 = TxMessage::new(can_msg_20, payload_bytes_2_0, standard_id);
    let message_fd = TxMessage::new(can_msg_fd, payload_bytes_fd, standard_id);

    assert_eq!(message_2_0.unwrap_err(), MessageError::InvalidLength(10));
    assert_eq!(message_fd.unwrap_err(), MessageError::InvalidLength(65));
}

#[test]
fn test_payload_exceeds_kind_capacity() {
    let payload_bytes = Bytes::copy_from_slice(&[0u8; 7]);
    let standard_id = Id::new_standard(STANDARD_ID).unwrap();

    let message = TxMessage::new(Can20::<4> {}, payload_bytes, standard_id);

    assert_eq!(message.unwrap_err(), MessageError::InvalidLength(7));
}

#[test]
fn test_kind_capacity_not_multiple_of_four() {
    let payload_bytes = Bytes::copy_from_slice(&[0u8; 2]);
    let standard_id = Id::new_standard(STANDARD_ID).unwrap();

    let message_2_0 = TxMessage::new(Can20::<5> {}, payload_bytes, standard_id);
    assert_eq!(message_2_0.unwrap_err(), MessageError::InvalidTypeSize(5));

    let payload_bytes = Bytes::copy_from_slice(&[0u8; 2]);
    let message_fd = TxMessage::new(
        CanFd::<22> { bitrate_switch: false },
        payload_bytes,
        standard_id,
    );
    assert_eq!(message_fd.unwrap_err(), MessageError::InvalidTypeSize(22));
}

#[test]
fn test_dlc_smallest_covering_code() {
    // The chosen code covers the payload and no smaller supported count
    // does: every count up to sixty-four maps to its smallest code.
    let standard_id = Id::new_standard(STANDARD_ID).unwrap();
    let cases = [
        (0usize, DLC::Zero),
        (3, DLC::Three),
        (8, DLC::Eight),
        (9, DLC::Twelve),
        (12, DLC::Twelve),
        (13, DLC::Sixteen),
        (17, DLC::Twenty),
        (21, DLC::TwentyFour),
        (25, DLC::ThirtyTwo),
        (33, DLC::FortyEight),
        (49, DLC::SixtyFour),
        (64, DLC::SixtyFour),
    ];
    for (len, expected) in cases {
        let payload = vec![0u8; len];
        let payload_bytes = Bytes::copy_from_slice(&payload);
        let message = TxMessage::new(
            CanFd::<64> { bitrate_switch: false },
            payload_bytes,
            standard_id,
        )
        .unwrap();
        assert_eq!(message.header.data_length_code, expected);
    }
}

#[test]
fn test_extended_id_round_trip() {
    // The identifier split into the header's fields reassembles to the
    // identifier: decode the packed header bytes as a receive header and
    // reconstruct the frame identifier.
    let payload_bytes = Bytes::copy_from_slice(&[0u8; 8]);
    let message = TxMessage::new(
        Can20::<8> {},
        payload_bytes,
        Id::new_extended(EXTENDED_ID).unwrap(),
    )
    .unwrap();

    // The transmit header packs each word big-endian; in RAM the words lie
    // little-endian, which is the order the receive decoder expects.
    let be = message.header.into_bytes();
    let le = [be[3], be[2], be[1], be[0], be[7], be[6], be[5], be[4]];
    let rx_header = RxHeader::from_le_bytes(le);

    assert_eq!(rx_header.get_id(), Id::Extended(EXTENDED_ID));
}

#[test]
fn test_get_payload() {
    let payload = [0xDEu8, 0xAD, 0xBE, 0xEF, 1, 2, 3, 4];
    let payload_bytes = Bytes::copy_from_slice(&payload);
    let message = TxMessage::new(
        Can20::<8> {},
        payload_bytes,
        Id::new_standard(STANDARD_ID).unwrap(),
    )
    .unwrap();

    assert_eq!(message.get_payload(), &payload);
    assert_eq!(message.clone().get_payload(), &payload);
    assert_eq!(message.get_header(), &message.header);
}
