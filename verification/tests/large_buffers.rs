use compress_bench::compressor::{Brotli, Compressor, Gzip, Lz4, Snappy, Zstd};

const MIB: usize = 1048576;

fn zeros() -> Vec<u8> {
    vec![0u8; MIB]
}

/// A fixed-seed xorshift stream: incompressible-looking bytes that every
/// run reproduces.
fn noise() -> Vec<u8> {
    let mut state: u64 = 0x9e3779b97f4a7c15;
    let mut out: Vec<u8> = Vec::with_capacity(MIB);
    while out.len() < MIB {
        state ^= state << 13;
        state ^= state >> 7;
        state ^= state << 17;
        out.extend_from_slice(&state.to_le_bytes());
    }
    out.truncate(MIB);
    out
}

fn assert_shrinks_and_round_trips<C: Compressor>(c: &C) {
    let input = zeros();
    let compressed = c.compress(&input);
    assert!(compressed.len() < MIB / 10);
    assert_eq!(c.decompress(&compressed), input);
}

fn assert_noise_round_trips<C: Compressor>(c: &C) {
    let input = noise();
    let compressed = c.compress(&input);
    assert_eq!(c.decompress(&compressed), input);
}

#[test]
fn one_mib_of_zeros_shrinks_brotli() {
    assert_shrinks_and_round_trips(&Brotli::new());
}

#[test]
fn one_mib_of_zeros_shrinks_gzip() {
    assert_shrinks_and_round_trips(&Gzip::new());
}

#[test]
fn one_mib_of_zeros_shrinks_lz4() {
    assert_shrinks_and_round_trips(&Lz4::new());
}

#[test]
fn one_mib_of_zeros_shrinks_snappy() {
    assert_shrinks_and_round_trips(&Snappy::new());
}

#[test]
fn one_mib_of_zeros_shrinks_zstd() {
    assert_shrinks_and_round_trips(&Zstd::new());
}

#[test]
fn one_mib_of_noise_round_trips_brotli() {
    assert_noise_round_trips(&Brotli::new());
}

#[test]
fn one_mib_of_noise_round_trips_gzip() {
    assert_noise_round_trips(&Gzip::new());
}

#[test]
fn one_mib_of_noise_round_trips_lz4() {
    assert_noise_round_trips(&Lz4::new());
}

#[test]
fn one_mib_of_noise_round_trips_snappy() {
    assert_noise_round_trips(&Snappy::new());
}

#[test]
fn one_mib_of_noise_round_trips_zstd() {
    assert_noise_round_trips(&Zstd::new());
}
