use smaz::dictionary::{lookup, pattern_of};
use smaz::{compress, decompress, DecompressError};

const TEST_STRINGS: [&str; 16] = [
    "",
    "This is a small string",
    "foobar",
    "the end",
    "not-a-g00d-Exampl333",
    "Smaz is a simple compression library",
    "Nothing is more difficult, and therefore more precious, than to be able to decide",
    "this is an example of what works very well with smaz",
    "1000 numbers 2000 will 10 20 30 compress very little",
    "and now a few italian sentences:",
    "Nel mezzo del cammin di nostra vita, mi ritrovai in una selva oscura",
    "Mi illumino di immenso",
    "L'autore di questa libreria vive in Sicilia",
    "try it against urls",
    "http://google.com",
    "http://programming.reddit.com",
];

#[test]
fn test_compress() {
    for s in TEST_STRINGS.iter() {
        let compressed = compress(s.as_bytes());
        let decompressed = decompress(&compressed);

        if let Ok(v) = decompressed {
            assert_eq!(v, s.to_string().into_bytes());
        } else {
            panic!("Could not decompress string {}.", s);
        }

        if !s.is_empty() {
            let level = 100i8 - ((100 * compressed.len()) / s.as_bytes().len()) as i8;
            let word = if level > 0 { "compressed" } else { "enlarged" };
            println!("\"{}\" {} by {}%", s, word, level.abs());
        }
    }
}

#[test]
fn empty_input_both_ways() {
    assert_eq!(compress(b""), Vec::<u8>::new());
    assert_eq!(decompress(b""), Ok(Vec::new()));
}

#[test]
fn known_encodings() {
    assert_eq!(compress(b"string"), vec![77, 114, 84]);
    assert_eq!(compress(b"the end"), vec![1, 171, 61]);
    assert_eq!(compress(b"foobar"), vec![220, 6, 90, 79]);
    assert_eq!(compress(b"http://google.com"), vec![67, 59, 6, 6, 59, 87, 253]);
    assert_eq!(
        compress(b"not-a-g00d-Exampl333"),
        vec![
            132, 204, 4, 204, 59, 255, 1, 48, 48, 24, 204, 254, 69, 250, 4, 45, 60, 22, 255, 2, 51,
            51, 51
        ]
    );
}

#[test]
fn the_end_round_trips() {
    let c = compress(b"the end");
    assert!(c.len() < 7);
    assert_eq!(decompress(&c), Ok(b"the end".to_vec()));
}

#[test]
fn known_decodings() {
    assert_eq!(decompress(&[77, 114, 84]), Ok(b"string".to_vec()));
    assert_eq!(decompress(&[0, 1]), Ok(b" the".to_vec()));
    assert_eq!(decompress(&[254, 0]), Ok(vec![0]));
    assert_eq!(decompress(&[255, 0, 9]), Ok(vec![9]));
    assert_eq!(decompress(&[255, 2, 7, 8, 9, 1]), Ok(vec![7, 8, 9, b't', b'h', b'e']));
}

#[test]
fn single_unknown_byte() {
    assert_eq!(compress(&[0x01]), vec![254, 0x01]);
    assert_eq!(decompress(&[254, 0x01]), Ok(vec![0x01]));
}

#[test]
fn unknown_bytes_between_entries() {
    assert_eq!(compress(b"a\x01\x02b"), vec![4, 255, 1, 1, 2, 90]);
}

#[test]
fn three_hundred_zero_bytes() {
    let input = vec![0u8; 300];
    let c = compress(&input);
    assert_eq!(c.len(), 2 + 256 + 2 + 44);
    assert_eq!(&c[0..2], &[255, 255]);
    assert!(c[2..258].iter().all(|b| *b == 0));
    assert_eq!(&c[258..260], &[255, 43]);
    assert!(c[260..].iter().all(|b| *b == 0));
    assert_eq!(decompress(&c), Ok(input));
}

#[test]
fn run_of_exactly_256() {
    let input = vec![0u8; 256];
    let c = compress(&input);
    let mut expected = vec![255u8, 255];
    expected.extend_from_slice(&input);
    assert_eq!(c, expected);
    assert_eq!(decompress(&c), Ok(input));
}

#[test]
fn run_of_257() {
    let input = vec![0u8; 257];
    let c = compress(&input);
    let mut expected = vec![255u8, 255];
    expected.extend_from_slice(&input[..256]);
    expected.extend_from_slice(&[254, 0]);
    assert_eq!(c, expected);
    assert_eq!(decompress(&c), Ok(input));
}

#[test]
fn every_byte_value_round_trips() {
    let input: Vec<u8> = (0..=255u8).chain((0..=255u8).rev()).collect();
    let c = compress(&input);
    assert_eq!(decompress(&c), Ok(input));
}

#[test]
fn same_input_same_output() {
    let s = b"Nothing is more difficult, and therefore more precious";
    assert_eq!(compress(s), compress(s));
    let c = compress(s);
    assert_eq!(decompress(&c), decompress(&c));
}

#[test]
fn truncated_streams_are_rejected() {
    assert_eq!(decompress(&[254]), Err(DecompressError));
    assert_eq!(decompress(&[255]), Err(DecompressError));
    assert_eq!(decompress(&[255, 3, 1, 2, 3]), Err(DecompressError));
    assert_eq!(decompress(&[1, 254]), Err(DecompressError));
    let c = compress(b"a\x01\x02b");
    for cut in 2..5 {
        assert_eq!(decompress(&c[..cut]), Err(DecompressError));
    }
    assert_eq!(decompress(&c[..1]), Ok(b"a".to_vec()));
}

#[test]
fn error_description() {
    assert_eq!(DecompressError.description(), "invalid compressed data");
}

#[test]
fn codebook_lookup() {
    assert_eq!(pattern_of(0), b" ");
    assert_eq!(pattern_of(1), b"the");
    assert_eq!(pattern_of(253), b".com");
    assert_eq!(lookup(b"the"), Some(1));
    assert_eq!(lookup(b"http://"), Some(67));
    assert_eq!(lookup(b""), None);
    assert_eq!(lookup(b"zzz"), None);
}
