use verification_annotations::path::SymbolicPath;
use verification_annotations::scenarios::{
    bing, bounded_product, decode_fresh_pair, decode_fresh_valid_pair, decode_or_fail, is_bit,
    settle_decoding, startup,
};

#[test]
fn test_small() {
    for pick in [0u64, 1] {
        let draws: Vec<u64> = (0..100).map(|i| (i + pick) % 2).collect();
        let mut path = SymbolicPath::new(draws);
        let r = startup(&mut path, 100);
        assert!(path.is_live());
        assert_eq!(r, 0);
    }
}

#[test]
fn startup_prunes_on_a_bad_index() {
    let mut path = SymbolicPath::new(vec![0, 1, 2, 0]);
    let _ = startup(&mut path, 4);
    assert!(path.is_pruned());
}

#[test]
fn bing_writes_positions() {
    let mut mem = vec![9usize; 6];
    let refs = vec![1usize, 2, 5];
    let r = bing(&mut mem, &refs);
    assert_eq!(r, 0);
    assert_eq!(mem, vec![9, 0, 1, 9, 9, 2]);
}

#[test]
fn index_bits() {
    assert!(is_bit(0) && is_bit(1) && !is_bit(2));
}

#[test]
fn product_stays_in_range() {
    let mut live = 0;
    for a in 0u64..12 {
        for b in 0u64..12 {
            let mut path = SymbolicPath::new(vec![a, b]);
            let r = bounded_product(&mut path);
            assert!(!path.has_failed());
            if (4..=7).contains(&a) && (5..=8).contains(&b) {
                assert!(path.is_live());
                assert_eq!(r as u64, a * b);
                assert!((20..=56).contains(&r));
                live += 1;
            } else {
                assert!(path.is_pruned());
            }
        }
    }
    assert_eq!(live, 16);
}

#[test]
fn product_corners() {
    let mut path = SymbolicPath::new(vec![4, 5]);
    assert_eq!(bounded_product(&mut path), 20);
    let mut path = SymbolicPath::new(vec![7, 8]);
    assert_eq!(bounded_product(&mut path), 56);
}

#[test]
fn test_string_from_bytes_panic() {
    let mut path = SymbolicPath::new(vec![0xC3, 0x28]);
    let val = decode_fresh_pair(&mut path);
    assert!(val.is_none());
    assert!(path.has_failed());

    let mut path = SymbolicPath::new(vec![0x41, 0x42]);
    let val = decode_fresh_pair(&mut path);
    assert_eq!(val.as_deref(), Some("AB"));
    assert!(path.is_live());
}

#[test]
fn test_string_from_bytes_nopanic() {
    for pair in [[0xC3u64, 0x28], [0x41, 0x42], [0xC3, 0xA9], [0xFF, 0xFF], [0x80, 0x41]] {
        let mut path = SymbolicPath::new(pair.to_vec());
        let val = decode_fresh_valid_pair(&mut path);
        assert!(!path.has_failed());
        let valid = std::str::from_utf8(&[pair[0] as u8, pair[1] as u8]).is_ok();
        assert_eq!(path.is_live(), valid);
        assert_eq!(val.is_some(), valid);
    }
}

#[test]
fn decoding_gives_characters() {
    let mut path = SymbolicPath::new(vec![]);
    let s = decode_or_fail(&mut path, vec![0xC3, 0xA9]);
    assert_eq!(s.as_deref(), Some("\u{e9}"));
    assert_eq!(s.unwrap().chars().count(), 1);
    assert!(path.is_live());
    let e = decode_or_fail(&mut path, vec![0xE2, 0x82]);
    assert!(e.is_none());
    assert!(path.has_failed());
}

#[test]
fn settling_a_decoding() {
    let mut path = SymbolicPath::new(vec![]);
    assert_eq!(settle_decoding(&mut path, Some(String::from("x"))), Some(String::from("x")));
    assert!(path.is_live());
    assert_eq!(settle_decoding(&mut path, None), None);
    assert!(path.has_failed());
}
