use server_list_ping::error::{Error, FramingFault};
use server_list_ping::varint::{convert_i32_to_varint, convert_varint_to_i32};

#[test]
fn test_i32_to_varint() {
    assert_eq!(convert_i32_to_varint( 0         ), vec![0x00                        ]);
    assert_eq!(convert_i32_to_varint( 1         ), vec![0x01                        ]);
    assert_eq!(convert_i32_to_varint( 2         ), vec![0x02                        ]);
    assert_eq!(convert_i32_to_varint( 127       ), vec![0x7F                        ]);
    assert_eq!(convert_i32_to_varint( 128       ), vec![0x80, 0x01                  ]);
    assert_eq!(convert_i32_to_varint( 255       ), vec![0xFF, 0x01                  ]);
    assert_eq!(convert_i32_to_varint( 25565     ), vec![0xDD, 0xC7, 0x01            ]);
    assert_eq!(convert_i32_to_varint( 2097151   ), vec![0xFF, 0xFF, 0x7F            ]);
    assert_eq!(convert_i32_to_varint( 2147483647), vec![0xFF, 0xFF, 0xFF, 0xFF, 0x07]);
    assert_eq!(convert_i32_to_varint(-1         ), vec![0xFF, 0xFF, 0xFF, 0xFF, 0x0F]);
    assert_eq!(convert_i32_to_varint(-2147483648), vec![0x80, 0x80, 0x80, 0x80, 0x08]);
}

#[test]
fn test_varint_to_i32() {
    assert_eq!(convert_varint_to_i32(&[0x00                        ]), Ok(( 0         , 1)));
    assert_eq!(convert_varint_to_i32(&[0x01                        ]), Ok(( 1         , 1)));
    assert_eq!(convert_varint_to_i32(&[0x02                        ]), Ok(( 2         , 1)));
    assert_eq!(convert_varint_to_i32(&[0x7F                        ]), Ok(( 127       , 1)));
    assert_eq!(convert_varint_to_i32(&[0x80, 0x01                  ]), Ok(( 128       , 2)));
    assert_eq!(convert_varint_to_i32(&[0xFF, 0x01                  ]), Ok(( 255       , 2)));
    assert_eq!(convert_varint_to_i32(&[0xDD, 0xC7, 0x01            ]), Ok(( 25565     , 3)));
    assert_eq!(convert_varint_to_i32(&[0xFF, 0xFF, 0x7F            ]), Ok(( 2097151   , 3)));
    assert_eq!(convert_varint_to_i32(&[0xFF, 0xFF, 0xFF, 0xFF, 0x07]), Ok(( 2147483647, 5)));
    assert_eq!(convert_varint_to_i32(&[0xFF, 0xFF, 0xFF, 0xFF, 0x0F]), Ok((-1         , 5)));
    assert_eq!(convert_varint_to_i32(&[0x80, 0x80, 0x80, 0x80, 0x08]), Ok((-2147483648, 5)));
}

#[test]
fn varint_round_trips_on_sampled_values() {
    let samples: [i32; 12] = [
        0, 1, -1, 127, 128, 16383, 16384, 2097151, 2097152, 268435455, 268435456, i32::MIN,
    ];
    for n in samples {
        let bytes = convert_i32_to_varint(n);
        assert!(bytes.len() >= 1 && bytes.len() <= 5);
        assert_eq!(convert_varint_to_i32(&bytes), Ok((n, bytes.len())));
    }
}

#[test]
fn varint_lengths_are_minimal() {
    assert_eq!(convert_i32_to_varint(16383).len(), 2);
    assert_eq!(convert_i32_to_varint(16384).len(), 3);
    assert_eq!(convert_i32_to_varint(268435455).len(), 4);
    assert_eq!(convert_i32_to_varint(268435456).len(), 5);
    assert_eq!(convert_i32_to_varint(-2).len(), 5);
}

#[test]
fn varint_decoding_ignores_what_follows() {
    assert_eq!(convert_varint_to_i32(&[0xDD, 0xC7, 0x01, 0xFF, 0xFF]), Ok((25565, 3)));
}

#[test]
fn varint_decoding_accepts_padded_forms() {
    assert_eq!(convert_varint_to_i32(&[0x80, 0x00]), Ok((0, 2)));
    assert_eq!(convert_varint_to_i32(&[0xFF, 0xFF, 0xFF, 0xFF, 0x7F]), Ok((-1, 5)));
}

#[test]
fn varint_without_end_is_too_long() {
    assert_eq!(
        convert_varint_to_i32(&[0x80, 0x80, 0x80, 0x80, 0x80]),
        Err(Error::Framing(FramingFault::VarIntTooLong))
    );
    assert_eq!(
        convert_varint_to_i32(&[0xFF, 0xFF, 0xFF, 0xFF, 0xFF, 0x01]),
        Err(Error::Framing(FramingFault::VarIntTooLong))
    );
}

#[test]
fn varint_cut_short_is_unexpected_end() {
    assert_eq!(convert_varint_to_i32(&[]), Err(Error::Framing(FramingFault::UnexpectedEnd)));
    assert_eq!(
        convert_varint_to_i32(&[0x80, 0x80]),
        Err(Error::Framing(FramingFault::UnexpectedEnd))
    );
}
