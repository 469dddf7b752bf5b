//! Synthetic contents.

use fusecraft::content::{synth_byte, ContentModel, DeterministicContent};

#[test]
fn synth_byte_is_deterministic() {
    assert_eq!(synth_byte(100, 0, 1), synth_byte(100, 0, 1));
}

#[test]
fn synth_byte_varies_by_seed() {
    let seeds: Vec<u8> = (0..32).map(|s| synth_byte(100, 0, s)).collect();
    let unique: std::collections::HashSet<_> = seeds.iter().copied().collect();
    assert!(unique.len() > 4, "seeds should vary output");
}

#[test]
fn synth_byte_varies_by_ino_and_offset() {
    assert_ne!(synth_byte(100, 0, 0), synth_byte(101, 0, 0));
    assert_ne!(synth_byte(100, 0, 0), synth_byte(100, 1, 0));
}

#[test]
fn read_at_fills_entire_buffer() {
    let c = DeterministicContent::new(42, 1024);
    let mut buf = [0u8; 128];
    c.read_at(7, 10, &mut buf);
    for (i, b) in buf.iter().enumerate() {
        assert_eq!(*b, synth_byte(7, 10 + i as u64, 42));
    }
}

#[test]
fn read_at_empty_buffer_is_noop() {
    let c = DeterministicContent::new(1, 1024);
    let mut buf: [u8; 0] = [];
    c.read_at(1, 0, &mut buf);
}

#[test]
fn read_at_does_not_clamp_against_file_len() {
    // Slicing is up to the caller; the content model fills dst unconditionally.
    let c = DeterministicContent::new(1, 16);
    let mut buf = [0u8; 32];
    c.read_at(1, 0, &mut buf);
    // Every byte must be written (not the default 0 for at least one).
    let nonzero = buf.iter().filter(|&&b| b != 0).count();
    assert!(nonzero > 0);
}

#[test]
fn write_at_returns_len_and_discards() {
    let c = DeterministicContent::new(1, 1024);
    let n = c.write_at(1, 0, b"hello").unwrap();
    assert_eq!(n, 5);
    // After the write, a subsequent read returns the original synthetic bytes
    // (write was discarded).
    let mut buf = [0u8; 5];
    c.read_at(1, 0, &mut buf);
    for (i, b) in buf.iter().enumerate() {
        assert_eq!(*b, synth_byte(1, i as u64, 1));
    }
}

#[test]
fn file_len_reports_configured_size() {
    let c = DeterministicContent::new(1, 65536);
    assert_eq!(c.file_len(0), 65536);
}

#[test]
fn deterministic_usable_via_trait_object() {
    let c: Box<dyn ContentModel> = Box::new(DeterministicContent::new(99, 128));
    let mut buf = [0u8; 8];
    c.read_at(1, 0, &mut buf);
    assert_eq!(c.file_len(1), 128);
    assert_eq!(c.write_at(1, 0, b"abc").unwrap(), 3);
}

/// The byte formula, written with the integer methods of the standard library.
fn direct_byte(ino: u64, offset: u64, seed: u64) -> u8 {
    let mut x = seed ^ ino.rotate_left(17) ^ offset.rotate_left(31);
    x ^= x >> 33;
    x = x.wrapping_mul(0xff51_afd7_ed55_8ccd);
    x ^= x >> 33;
    x = x.wrapping_mul(0xc4ce_b9fe_1a85_ec53);
    (x ^ (x >> 33)) as u8
}

#[test]
fn synth_byte_follows_its_formula() {
    for ino in [0, 1, 2, 100, 1_000_099, u64::MAX] {
        for offset in [0, 1, 4095, 4096, 1 << 40, u64::MAX] {
            for seed in [0, 1, 42, u64::MAX] {
                assert_eq!(
                    synth_byte(ino, offset, seed),
                    direct_byte(ino, offset, seed)
                );
            }
        }
    }
}

#[test]
fn seed_is_kept() {
    assert_eq!(DeterministicContent::new(42, 7).seed(), 42);
}

#[test]
fn consecutive_reads_concatenate() {
    let c = DeterministicContent::new(5, 1 << 20);
    let mut whole = [0u8; 100];
    c.read_at(9, 1000, &mut whole);
    let mut first = [0u8; 37];
    let mut second = [0u8; 63];
    c.read_at(9, 1000, &mut first);
    c.read_at(9, 1037, &mut second);
    assert_eq!(&whole[..37], &first);
    assert_eq!(&whole[37..], &second);
}

#[test]
fn reads_wrap_around_the_end_of_the_offset_range() {
    let c = DeterministicContent::new(5, 16);
    let mut buf = [0u8; 4];
    c.read_at(1, u64::MAX - 1, &mut buf);
    assert_eq!(buf[0], synth_byte(1, u64::MAX - 1, 5));
    assert_eq!(buf[1], synth_byte(1, u64::MAX, 5));
    assert_eq!(buf[2], synth_byte(1, 0, 5));
    assert_eq!(buf[3], synth_byte(1, 1, 5));
}
