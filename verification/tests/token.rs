use grid_node::Token;

#[test]
fn words_are_encoded_as_lines() {
    assert_eq!(Token::Get.encode(), b"GET\n".to_vec());
    assert_eq!(Token::Ack.encode(), b"ACK\n".to_vec());
    assert_eq!(Token::Nak.encode(), b"NAK\n".to_vec());
}

#[test]
fn values_are_encoded_in_base_ten() {
    assert_eq!(Token::Value(42).encode(), b"42\n".to_vec());
    assert_eq!(Token::Value(0).encode(), b"0\n".to_vec());
    assert_eq!(Token::Value(-7).encode(), b"-7\n".to_vec());
    assert_eq!(Token::Value(i32::MIN).encode(), b"-2147483648\n".to_vec());
    assert_eq!(Token::Value(i32::MAX).encode(), b"2147483647\n".to_vec());
}

#[test]
fn lines_are_decoded_as_tokens() {
    assert_eq!(Token::decode(b"GET"), Some(Token::Get));
    assert_eq!(Token::decode(b"ACK"), Some(Token::Ack));
    assert_eq!(Token::decode(b"NAK"), Some(Token::Nak));
    assert_eq!(Token::decode(b"42"), Some(Token::Value(42)));
    assert_eq!(Token::decode(b"-42"), Some(Token::Value(-42)));
    assert_eq!(Token::decode(b"+42"), Some(Token::Value(42)));
    assert_eq!(Token::decode(b"0"), Some(Token::Value(0)));
}

#[test]
fn other_lines_are_no_tokens() {
    assert_eq!(Token::decode(b""), None);
    assert_eq!(Token::decode(b"get"), None);
    assert_eq!(Token::decode(b"GET "), None);
    assert_eq!(Token::decode(b" GET"), None);
    assert_eq!(Token::decode(b"GE"), None);
    assert_eq!(Token::decode(b"GETS"), None);
    assert_eq!(Token::decode(b"GET\n"), None);
    assert_eq!(Token::decode(b"ACK\r"), None);
    assert_eq!(Token::decode(b"NAKNAK"), None);
    assert_eq!(Token::decode(b"2147483648"), None);
    assert_eq!(Token::decode(b"4 2"), None);
    assert_eq!(Token::decode(b"-"), None);
}

#[test]
fn every_token_is_read_back_from_its_line() {
    let mut tokens = vec![Token::Get, Token::Ack, Token::Nak];
    for value in [i32::MIN, -1_000_000, -10, -1, 0, 1, 9, 10, 11, 99, 100, 65_536, i32::MAX] {
        tokens.push(Token::Value(value));
    }
    for token in tokens {
        let bytes = token.encode();
        assert_eq!(bytes.last(), Some(&b'\n'));
        let line = &bytes[..bytes.len() - 1];
        assert!(!line.contains(&b'\n'));
        assert!(!line.is_empty());
        assert_eq!(Token::decode(line), Some(token));
    }
}
