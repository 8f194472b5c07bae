use base64::prelude::{Engine, BASE64_STANDARD};
use lvm_multi_api::errors::{DecodeCause, Fault};
use lvm_multi_api::images::{
    decode_image, decode_images, gather_payloads, Base64Fault, LvmImage, LvmImageMetadata,
    DATA_URI_PREFIX,
};
use lvm_multi_api::text::{trim_leading, trim_trailing};

fn data_uri(payload: &[u8]) -> String {
    format!("data:image/png;base64,{}", BASE64_STANDARD.encode(payload))
}

#[test]
fn decoding_is_a_round_trip() {
    let payload: Vec<u8> = vec![0x89, b'P', b'N', b'G', 0x0d, 0x0a, 0x1a, 0x0a, 0, 1, 2, 255];
    assert_eq!(decode_image(&data_uri(&payload)), Ok(payload));
}

#[test]
fn decoding_is_a_round_trip_for_every_length() {
    for len in 0..64usize {
        let payload: Vec<u8> = (0..len).map(|i| (i * 37 + 11) as u8).collect();
        assert_eq!(decode_image(&data_uri(&payload)), Ok(payload.clone()));
        assert_eq!(decode_image(&BASE64_STANDARD.encode(&payload)), Ok(payload));
    }
}

#[test]
fn decoding_gives_the_bytes_not_the_text() {
    assert_eq!(decode_image("aGVsbG8="), Ok(b"hello".to_vec()));
    assert_eq!(decode_image("data:image/png;base64,aGVsbG8="), Ok(b"hello".to_vec()));
}

#[test]
fn prefix_is_stripped_as_often_as_it_leads() {
    assert_eq!(
        decode_image("data:image/png;base64,data:image/png;base64,aGVsbG8="),
        Ok(b"hello".to_vec())
    );
}

#[test]
fn empty_text_is_an_empty_payload() {
    assert_eq!(decode_image(""), Ok(Vec::new()));
    assert_eq!(decode_image(DATA_URI_PREFIX), Ok(Vec::new()));
}

#[test]
fn prefix_constant() {
    assert_eq!(DATA_URI_PREFIX, "data:image/png;base64,");
}

#[test]
fn another_scheme_is_not_stripped() {
    assert_eq!(
        decode_image("data:image/jpeg;base64,aGVsbG8="),
        Err(Base64Fault::InvalidByte { offset: 4, byte: b':' })
    );
}

#[test]
fn invalid_byte_is_reported() {
    assert_eq!(
        decode_image("aGVs*G8="),
        Err(Base64Fault::InvalidByte { offset: 4, byte: b'*' })
    );
    // The offset counts from behind the prefix.
    assert_eq!(
        decode_image("data:image/png;base64,aGVs*G8="),
        Err(Base64Fault::InvalidByte { offset: 4, byte: b'*' })
    );
}

#[test]
fn invalid_length_is_reported() {
    assert_eq!(decode_image("aGVsb"), Err(Base64Fault::InvalidLength { length: 5 }));
}

#[test]
fn invalid_last_symbol_is_reported() {
    assert_eq!(
        decode_image("aGVsbG9="),
        Err(Base64Fault::InvalidLastSymbol { offset: 6, byte: b'9' })
    );
}

#[test]
fn invalid_padding_is_reported() {
    assert_eq!(decode_image("aGVsbG8"), Err(Base64Fault::InvalidPadding));
}

#[test]
fn all_images_of_a_job_are_decoded_in_order() {
    let images = vec![data_uri(b"first"), data_uri(b"second"), BASE64_STANDARD.encode(b"third")];
    assert_eq!(
        decode_images(&images),
        Ok(vec![b"first".to_vec(), b"second".to_vec(), b"third".to_vec()])
    );
}

#[test]
fn no_images_decode_to_none() {
    assert_eq!(decode_images(&Vec::new()), Ok(Vec::new()));
}

#[test]
fn first_undecodable_image_fails_the_job() {
    let images = vec![
        data_uri(b"first"),
        "data:image/png;base64,aGVsbG8".to_string(),
        "****".to_string(),
    ];
    assert_eq!(
        decode_images(&images),
        Err(Fault::Decode {
            cause: DecodeCause::Image { index: 1, fault: Base64Fault::InvalidPadding }
        })
    );
}

#[test]
fn image_clone_keeps_everything() {
    let image = LvmImage {
        data: vec![1, 2, 3],
        metadata: Some(LvmImageMetadata { generation_params: Some("{}".to_string()) }),
    };
    assert_eq!(image.clone(), image);
    let bare = LvmImage { data: Vec::new(), metadata: None };
    assert_eq!(bare.clone(), bare);
}

#[test]
fn trim_leading_matches_std() {
    let cases = [
        ("", "a"),
        ("aaa", "a"),
        ("aab", "a"),
        ("abab-ab", "ab"),
        ("abc", ""),
        ("abc", "abcd"),
        ("\u{e4}\u{e4}x", "\u{e4}"),
        ("data:image/png;base64,QUJD", "data:image/png;base64,"),
    ];
    for (text, prefix) in cases {
        assert_eq!(trim_leading(text, prefix), text.trim_start_matches(prefix));
    }
}

#[test]
fn trim_trailing_matches_std() {
    let cases = [("", '/'), ("///", '/'), ("a/b//", '/'), ("a/b", '/'), ("\u{e4}\u{e4}", '\u{e4}')];
    for (text, c) in cases {
        assert_eq!(trim_trailing(text, c), text.trim_end_matches(c));
    }
}

#[test]
fn payloads_are_gathered_in_order() {
    assert_eq!(
        gather_payloads(vec![Ok(vec![1]), Ok(Vec::new()), Ok(vec![2, 3])]),
        Ok(vec![vec![1], Vec::new(), vec![2, 3]])
    );
    assert_eq!(gather_payloads(Vec::new()), Ok(Vec::new()));
}

#[test]
fn the_first_failure_decides_what_is_gathered() {
    assert_eq!(
        gather_payloads(vec![
            Ok(vec![1]),
            Ok(vec![2]),
            Err(Base64Fault::InvalidLength { length: 5 }),
            Ok(vec![4]),
            Err(Base64Fault::InvalidPadding),
        ]),
        Err(Fault::Decode {
            cause: DecodeCause::Image { index: 2, fault: Base64Fault::InvalidLength { length: 5 } }
        })
    );
    assert_eq!(
        gather_payloads(vec![Err(Base64Fault::InvalidByte { offset: 0, byte: b'?' })]),
        Err(Fault::Decode {
            cause: DecodeCause::Image {
                index: 0,
                fault: Base64Fault::InvalidByte { offset: 0, byte: b'?' }
            }
        })
    );
}
