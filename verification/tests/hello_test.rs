use gear_dapps::hello::{handle, is_utf8, reply_for, HelloError};

fn joined(parts: &[Vec<u8>]) -> Vec<u8> {
    parts.concat()
}

#[test]
fn test_hello() {
    // the init message gets no answer
    assert!(matches!(handle(b"INIT"), Ok(None)));
    let reply = handle(b"Hello").unwrap().unwrap();
    assert_eq!(joined(&reply.parts), "Hello!".as_bytes().to_vec());
    assert_eq!(reply.value, 0);
}

#[test]
fn greeting_is_pushed_in_two_parts() {
    let reply = handle(b"Hello").unwrap().unwrap();
    assert_eq!(reply.parts, vec![b"Hel".to_vec(), b"lo!".to_vec()]);
}

#[test]
fn other_text_gets_no_answer() {
    assert!(matches!(handle(b"hello"), Ok(None)));
    assert!(matches!(handle(b"Hello!"), Ok(None)));
    assert!(matches!(handle(b""), Ok(None)));
}

#[test]
fn bytes_that_are_not_text_are_refused() {
    assert_eq!(handle(&[0xff, 0xfe]).unwrap_err(), HelloError::InvalidMessage);
    assert_eq!(handle(&[b'H', 0xc3]).unwrap_err(), HelloError::InvalidMessage);
    // a valid multi-byte text is accepted and not answered
    assert!(matches!(handle("héllo".as_bytes()), Ok(None)));
    assert_eq!(reply_for(b"Hello", false).unwrap_err(), HelloError::InvalidMessage);
}

#[test]
fn utf8_check_agrees_with_std() {
    let agrees = |bytes: &[u8]| assert_eq!(is_utf8(bytes), std::str::from_utf8(bytes).is_ok(), "{:?}", bytes);
    agrees(&[]);
    for a in 0..=255u8 {
        agrees(&[a]);
        for b in 0..=255u8 {
            agrees(&[a, b]);
        }
    }
    // every three-byte sequence led by E0..EF and every four-byte sequence led by
    // F0..F4 with its second byte varied and continuation bytes after it
    for a in 0xe0..=0xefu8 {
        for b in 0..=255u8 {
            for c in [0x00u8, 0x7f, 0x80, 0x9f, 0xa0, 0xbf, 0xc0, 0xff] {
                agrees(&[a, b, c]);
            }
        }
    }
    for a in 0xf0..=0xf7u8 {
        for b in 0..=255u8 {
            for c in [0x7fu8, 0x80, 0xbf, 0xc0] {
                for d in [0x7fu8, 0x80, 0xbf, 0xc0] {
                    agrees(&[a, b, c, d]);
                }
            }
        }
    }
    agrees("héllo wörld €𝄞".as_bytes());
    agrees(b"Hello\xff");
    agrees(b"\xed\xa0\x80");
}
