use spawner::acme::{
    as_base64, from_base64, AcmeConfiguration, AcmeEabConfiguration, DecodeError,
};

fn key(text: &str) -> Result<Vec<u8>, DecodeError> {
    AcmeEabConfiguration::new("id", text).map(|c| c.key)
}

fn is_symbol(b: u8) -> bool {
    b.is_ascii_alphanumeric() || b == b'-' || b == b'_'
}

fn value(b: u8) -> u32 {
    let alphabet = b"ABCDEFGHIJKLMNOPQRSTUVWXYZabcdefghijklmnopqrstuvwxyz0123456789-_";
    alphabet.iter().position(|s| *s == b).unwrap() as u32
}

/// What a text stands for, found by another way than the library's.
fn expected(text: &str) -> Result<Vec<u8>, DecodeError> {
    let bytes = text.as_bytes();
    let n = bytes.len();
    let p = bytes.iter().position(|b| !is_symbol(*b)).unwrap_or(n);
    if n % 4 == 1 {
        let last = bytes[n - 1];
        return if last == b'=' || is_symbol(last) {
            Err(DecodeError::InvalidLength)
        } else {
            Err(DecodeError::InvalidByte(n - 1, last))
        };
    }
    let padded = p % 4 >= 2 && n <= p - p % 4 + 4 && bytes[p..].iter().all(|b| *b == b'=');
    if p < n && !padded {
        return Err(DecodeError::InvalidByte(p, bytes[p]));
    }
    let mut key = Vec::new();
    let mut bits: u32 = 0;
    let mut held = 0;
    for b in &bytes[..p] {
        bits = bits << 6 | value(*b);
        held += 6;
        if held >= 8 {
            held -= 8;
            key.push((bits >> held) as u8);
            bits &= (1 << held) - 1;
        }
    }
    if bits != 0 {
        return Err(DecodeError::InvalidLastSymbol(p - 1, bytes[p - 1]));
    }
    Ok(key)
}

fn compare_all(signs: &[&str], length: usize) {
    let mut indices = vec![0usize; length];
    loop {
        let text: String = indices.iter().map(|i| signs[*i]).collect();
        assert_eq!(key(&text), expected(&text), "{:?}", text);
        let mut at = 0;
        while at < length && indices[at] + 1 == signs.len() {
            indices[at] = 0;
            at += 1;
        }
        if at == length {
            return;
        }
        indices[at] += 1;
    }
}

#[test]
fn keys_are_written_in_the_alphabet_for_urls() {
    assert_eq!(as_base64(&[]), "");
    assert_eq!(as_base64(&[0]), "AA==");
    assert_eq!(as_base64(&[255]), "_w==");
    assert_eq!(as_base64(&[255, 255]), "__8=");
    assert_eq!(as_base64(&[251, 239, 190]), "----");
    assert_eq!(as_base64(b"hello internet~\n"), "aGVsbG8gaW50ZXJuZXR-Cg==");
    let all: Vec<u8> = (0..48u32).map(|i| {
        let (a, b, c, d) = (i / 3 * 4, i / 3 * 4 + 1, i / 3 * 4 + 2, i / 3 * 4 + 3);
        let word = a << 18 | b << 12 | c << 6 | d;
        (word >> (16 - 8 * (i % 3))) as u8
    }).collect();
    assert_eq!(
        as_base64(&all),
        "ABCDEFGHIJKLMNOPQRSTUVWXYZabcdefghijklmnopqrstuvwxyz0123456789-_"
    );
}

#[test]
fn keys_survive_being_written_and_read() {
    for n in 0..70usize {
        let bytes: Vec<u8> = (0..n).map(|i| (i * 37 + n * 11) as u8).collect();
        let written = AcmeEabConfiguration {
            key_id: "id".to_string(),
            key: bytes.clone(),
        };
        let text = written.eab_key_b64();
        assert_eq!(text.len(), (n + 2) / 3 * 4);
        let read = AcmeEabConfiguration::new("id", &text).unwrap();
        assert_eq!(read.key, bytes);
        assert_eq!(read.key_id, "id");
        assert_eq!(from_base64(&as_base64(&bytes)), Ok(bytes));
    }
}

#[test]
fn padding_may_be_left_out() {
    assert_eq!(key("_w=="), Ok(vec![255]));
    assert_eq!(key("_w="), Ok(vec![255]));
    assert_eq!(key("_w"), Ok(vec![255]));
    assert_eq!(key("__8="), Ok(vec![255, 255]));
    assert_eq!(key("__8"), Ok(vec![255, 255]));
    assert_eq!(key(""), Ok(vec![]));
}

#[test]
fn other_texts_are_refused() {
    assert_eq!(key("_w==="), Err(DecodeError::InvalidLength));
    assert_eq!(key("A"), Err(DecodeError::InvalidLength));
    assert_eq!(key("AAAA\n"), Err(DecodeError::InvalidByte(4, b'\n')));
    assert_eq!(key("/w=="), Err(DecodeError::InvalidByte(0, b'/')));
    assert_eq!(key("AA+A"), Err(DecodeError::InvalidByte(2, b'+')));
    assert_eq!(key("_w==AAAA"), Err(DecodeError::InvalidByte(2, b'=')));
    assert_eq!(key("_x=="), Err(DecodeError::InvalidLastSymbol(1, b'x')));
    assert_eq!(key("AA\u{e9}"), Err(DecodeError::InvalidByte(2, 0xc3)));
}

#[test]
fn refusals_say_why() {
    assert_eq!(
        from_base64("AA+A"),
        Err("Invalid byte 43, offset 2.".to_string())
    );
    assert_eq!(
        from_base64("A"),
        Err("Encoded text cannot have a 6-bit remainder.".to_string())
    );
    assert_eq!(
        from_base64("_x=="),
        Err("Invalid last symbol 120, offset 1.".to_string())
    );
    assert_eq!(
        DecodeError::InvalidByte(120, 7).to_string(),
        "Invalid byte 7, offset 120."
    );
}

#[test]
fn short_texts_are_read_as_expected() {
    for length in 1..=5 {
        compare_all(&["A", "Q", "x", "_", "=", "+", "\u{e9}"], length);
    }
}

#[test]
fn texts_of_several_chunks_are_read_as_expected() {
    for length in 6..=10 {
        compare_all(&["A", "=", "/"], length);
    }
    for tail in ["", "A", "AA", "AA=", "AA==", "AAA", "AAA=", "=", "==", "A=", "A===", "AB", "AAB", "/"] {
        for body in [8usize, 12, 16, 24, 32, 40, 44] {
            for bad in [None, Some(0usize), Some(5), Some(7)] {
                for sign in ["=", "/", "\u{e9}"] {
                    let mut signs: Vec<String> = vec!["Z".to_string(); body];
                    if let Some(at) = bad {
                        signs[at] = sign.to_string();
                    }
                    let text = format!("{}{}", signs.concat(), tail);
                    assert_eq!(key(&text), expected(&text), "{:?}", text);
                }
            }
        }
    }
}

#[test]
fn an_account_is_optional() {
    let configuration = AcmeConfiguration {
        server: "https://acme.example/dir".to_string(),
        admin_email: "admin@example.com".to_string(),
        eab: AcmeEabConfiguration::new("kid", "AQID").ok(),
    };
    assert_eq!(configuration.server, "https://acme.example/dir");
    assert_eq!(configuration.admin_email, "admin@example.com");
    assert_eq!(configuration.eab.unwrap().key, vec![1, 2, 3]);
}
