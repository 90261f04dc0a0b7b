use betterscale::command::parse_key;
use betterscale::hex_text::to_hex;
use betterscale::keys::{hex_or_base64, InvalidData};

#[test]
fn reads_hexadecimal_of_either_case() {
    assert_eq!(hex_or_base64::<3>("00fFa7"), Ok([0x00, 0xff, 0xa7]));
    assert_eq!(hex_or_base64::<0>(""), Ok([]));
}

#[test]
fn reads_base64_with_and_without_padding() {
    assert_eq!(hex_or_base64::<5>("aGVsbG8="), Ok(*b"hello"));
    assert_eq!(hex_or_base64::<5>("aGVsbG8"), Ok(*b"hello"));
    assert_eq!(hex_or_base64::<4>("aGVsbA=="), Ok(*b"hell"));
    assert_eq!(hex_or_base64::<4>("aGVsbA="), Ok(*b"hell"));
    assert_eq!(hex_or_base64::<4>("aGVsbA"), Ok(*b"hell"));
    assert_eq!(hex_or_base64::<3>("+/+/"), Ok([0xfb, 0xff, 0xbf]));
}

#[test]
fn refuses_text_that_is_neither() {
    assert_eq!(hex_or_base64::<5>("aGVsbG9"), Err(InvalidData));
    assert_eq!(hex_or_base64::<5>("aGVsbG8=="), Err(InvalidData));
    assert_eq!(hex_or_base64::<5>("aGVs=bG8"), Err(InvalidData));
    assert_eq!(hex_or_base64::<4>("aGVsb"), Err(InvalidData));
    assert_eq!(hex_or_base64::<3>("aGVs===="), Err(InvalidData));
    assert_eq!(hex_or_base64::<2>("0é"), Err(InvalidData));
    assert_eq!(hex_or_base64::<2>("-_-_"), Err(InvalidData));
    assert_eq!(hex_or_base64::<2>("123"), Err(InvalidData));
    assert_eq!(hex_or_base64::<1>("="), Err(InvalidData));
    assert_eq!(InvalidData.message(), "Invalid data");
}

#[test]
fn refuses_another_length() {
    assert_eq!(hex_or_base64::<4>("00ffa7"), Err(InvalidData));
    assert_eq!(hex_or_base64::<6>("aGVsbG8="), Err(InvalidData));
    assert_eq!(hex_or_base64::<32>(""), Err(InvalidData));
}

#[test]
fn hexadecimal_is_tried_first() {
    // As base64 these two symbols are a zero byte.
    assert_eq!(hex_or_base64::<1>("AA"), Ok([0xaa]));
    assert_eq!(hex_or_base64::<1>("AA=="), Ok([0]));
    // Hexadecimal of two bytes, base64 of three.
    assert_eq!(hex_or_base64::<2>("ABCD"), Ok([0xab, 0xcd]));
    assert_eq!(hex_or_base64::<3>("ABCD"), Ok([0x00, 0x10, 0x83]));
}

#[test]
fn hexadecimal_text_is_read_back() {
    let mut key = [0u8; 32];
    for (i, byte) in key.iter_mut().enumerate() {
        *byte = (i * 37 % 256) as u8;
    }
    let text = to_hex(&key);
    assert_eq!(text.len(), 64);
    assert_eq!(hex_or_base64::<32>(&text), Ok(key));
    assert_eq!(to_hex(&[0x01, 0x9f, 0xa0]), "019fa0");
    assert_eq!(to_hex(&[]), "");
}

#[test]
fn base64_text_is_read_back() {
    for len in 0..40usize {
        let bytes: Vec<u8> = (0..len).map(|i| (i * 91 + 7 * len) as u8).collect();
        let text = base64::encode(&bytes);
        let unpadded = text.trim_end_matches('=');
        if len == 32 {
            let key: [u8; 32] = bytes.clone().try_into().unwrap();
            assert_eq!(hex_or_base64::<32>(&text), Ok(key));
            assert_eq!(hex_or_base64::<32>(unpadded), Ok(key));
        }
        if len == 4 {
            let key: [u8; 4] = bytes.clone().try_into().unwrap();
            assert_eq!(hex_or_base64::<4>(&text), Ok(key));
        }
        if len == 2 {
            let key: [u8; 2] = bytes.clone().try_into().unwrap();
            assert_eq!(hex_or_base64::<2>(&text), Ok(key));
            assert_eq!(hex_or_base64::<2>(unpadded), Ok(key));
        }
    }
}

#[test]
fn keys_may_have_white_space_around_them() {
    let text = "0101010101010101010101010101010101010101010101010101010101010101";
    assert_eq!(parse_key(text), Some([1; 32]));
    assert_eq!(parse_key(&format!(" \t{}\r\n", text)), Some([1; 32]));
    assert_eq!(parse_key(&format!("\u{3000}\u{a0}{}\u{2028}\u{85}", text)), Some([1; 32]));
    assert_eq!(parse_key(&format!("{} 01", text)), None);
    assert_eq!(parse_key(&format!("\u{200b}{}", text)), None);
    assert_eq!(parse_key("AQEBAQEBAQEBAQEBAQEBAQEBAQEBAQEBAQEBAQEBAQE="), Some([1; 32]));
    assert_eq!(parse_key("\n AQEBAQEBAQEBAQEBAQEBAQEBAQEBAQEBAQEBAQEBAQE\t"), Some([1; 32]));
    assert_eq!(parse_key(&format!(" {} ", "aB".repeat(32))), Some([0xab; 32]));
    assert_eq!(parse_key("   "), None);
}
