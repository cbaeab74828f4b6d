//! A uniform interface over heterogeneous compression codecs.
//!
//! Every adapter promises the same two things: compression is a function of
//! the input bytes alone, and decompressing what `compress` produced yields
//! the input back exactly.

use vstd::prelude::*;

verus! {

/// The bytes that the brotli encoder (buffer 4096, quality 0, window 20)
/// produces for a given input.
pub uninterp spec fn brotli_compressed(s: Seq<u8>) -> Seq<u8>;

/// The bytes that the gzip encoder (default compression level, header
/// modification time pinned to zero) produces for a given input.
pub uninterp spec fn gzip_compressed(s: Seq<u8>) -> Seq<u8>;

/// The bytes that the LZ4 block encoder produces for a given input, with
/// the input's length prepended as a little-endian 32-bit field.
pub uninterp spec fn lz4_compressed(s: Seq<u8>) -> Seq<u8>;

/// The bytes that the Snappy frame encoder produces for a given input.
pub uninterp spec fn snappy_compressed(s: Seq<u8>) -> Seq<u8>;

/// The bytes that the zstd encoder at compression level 1 produces for a
/// given input.
pub uninterp spec fn zstd_compressed(s: Seq<u8>) -> Seq<u8>;

/// The value of a 32-bit little-endian field laid out as four bytes.
pub open spec fn le_u32_value(b0: u8, b1: u8, b2: u8, b3: u8) -> int {
    b0 + 0x100 * (b1 as int) + 0x1_0000 * (b2 as int) + 0x100_0000 * (b3 as int)
}

/// A codec that can be driven uniformly by length-agnostic orchestration
/// code.  `spec_compress` pins each adapter's output down to a function of
/// the input bytes, and `decompress` undoes exactly that function.
pub trait Compressor: Sized {
    /// Which inputs this adapter accepts without failing.
    spec fn spec_accepts(&self, input: Seq<u8>) -> bool;

    /// The compressed image of `input`.
    spec fn spec_compress(&self, input: Seq<u8>) -> Seq<u8>;

    /// The constant identifier this adapter reports.
    spec fn spec_name(&self) -> Seq<char>;

    fn compress(&self, input: &[u8]) -> (out: Vec<u8>)
        requires
            self.spec_accepts(input@),
        ensures
            out@ == self.spec_compress(input@),
    ;

    fn decompress(&self, input: &[u8]) -> (out: Vec<u8>)
        requires
            exists|x: Seq<u8>| self.spec_accepts(x) && input@ == #[trigger] self.spec_compress(x),
        ensures
            forall|x: Seq<u8>|
                self.spec_accepts(x) && input@ == #[trigger] self.spec_compress(x) ==> out@ == x,
    ;

    fn get_name(&self) -> (name: &'static str)
        ensures
            name@ == self.spec_name(),
    ;
}

/// Round-trip law: for every adapter and every accepted input, decompressing
/// what `compress` produced yields the input byte for byte.
pub fn round_trip<C: Compressor>(c: &C, input: &[u8]) -> (out: Vec<u8>)
    requires
        c.spec_accepts(input@),
    ensures
        out@ == input@,
{
    let compressed = c.compress(input);
    assert(c.spec_accepts(input@) && compressed@ == c.spec_compress(input@));
    c.decompress(compressed.as_slice())
}

/// Determinism law: compressing the same input twice yields identical bytes.
pub fn compress_twice<C: Compressor>(c: &C, input: &[u8]) -> (r: (Vec<u8>, Vec<u8>))
    requires
        c.spec_accepts(input@),
    ensures
        r.0@ == c.spec_compress(input@),
        r.1@ == c.spec_compress(input@),
        r.0@ == r.1@,
{
    let first = c.compress(input);
    let second = c.compress(input);
    (first, second)
}

/// Name-stability law: two calls on one adapter report the same identifier.
pub fn name_twice<C: Compressor>(c: &C) -> (r: (&'static str, &'static str))
    ensures
        r.0@ == c.spec_name(),
        r.1@ == c.spec_name(),
        r.0@ == r.1@,
{
    let first = c.get_name();
    let second = c.get_name();
    (first, second)
}

/// Empty-input law: a zero-length buffer compresses without failing and
/// decompresses back to a zero-length buffer.
pub fn round_trip_empty<C: Compressor>(c: &C) -> (out: Vec<u8>)
    requires
        c.spec_accepts(Seq::<u8>::empty()),
    ensures
        out@.len() == 0,
{
    let empty: Vec<u8> = Vec::new();
    round_trip(c, empty.as_slice())
}

// BROTLI //

pub struct Brotli {
    pub name: &'static str,
}

impl Brotli {
    pub fn new() -> (c: Brotli)
        ensures
            c.name@ == "brotli"@,
    {
        Brotli { name: "brotli" }
    }
}

/// Relies on brotli::CompressorWriter (buffer 4096, quality 0, window 20):
/// with the parameters fixed, the encoded bytes are a function of the input
/// alone, and `into_inner` finishes the stream.
#[verifier::external_body]
fn brotli_compress_raw(input: &[u8]) -> (out: Vec<u8>)
    ensures
        out@ == brotli_compressed(input@),
{
    let mut encoder = brotli::CompressorWriter::new(Vec::new(), 4096, 0, 20);
    std::io::Write::write_all(&mut encoder, input).unwrap();
    encoder.into_inner()
}

/// Relies on brotli::Decompressor: reading a stream that
/// brotli::CompressorWriter produced yields the original bytes.
#[verifier::external_body]
fn brotli_decompress_raw(input: &[u8]) -> (out: Vec<u8>)
    requires
        exists|x: Seq<u8>| input@ == #[trigger] brotli_compressed(x),
    ensures
        forall|x: Seq<u8>| input@ == #[trigger] brotli_compressed(x) ==> out@ == x,
{
    let mut decoder = brotli::Decompressor::new(input, 4096);
    let mut out = Vec::new();
    std::io::Read::read_to_end(&mut decoder, &mut out).unwrap();
    out
}

impl Compressor for Brotli {
    open spec fn spec_accepts(&self, input: Seq<u8>) -> bool {
        true
    }

    open spec fn spec_compress(&self, input: Seq<u8>) -> Seq<u8> {
        brotli_compressed(input)
    }

    open spec fn spec_name(&self) -> Seq<char> {
        self.name@
    }

    fn compress(&self, input: &[u8]) -> Vec<u8> {
        brotli_compress_raw(input)
    }

    fn decompress(&self, input: &[u8]) -> Vec<u8> {
        brotli_decompress_raw(input)
    }

    fn get_name(&self) -> &'static str {
        self.name
    }
}

// GZIP //

pub struct Gzip {
    pub name: &'static str,
}

impl Gzip {
    pub fn new() -> (c: Gzip)
        ensures
            c.name@ == "gzip"@,
    {
        Gzip { name: "gzip" }
    }
}

/// Relies on libflate::gzip::Encoder at the default compression level,
/// with the header's modification time pinned to zero: the header is then
/// constant, so the encoded bytes are a function of the input alone.
#[verifier::external_body]
fn gzip_compress_raw(input: &[u8]) -> (out: Vec<u8>)
    ensures
        out@ == gzip_compressed(input@),
{
    let header = libflate::gzip::HeaderBuilder::new().modification_time(0).finish();
    let options = libflate::gzip::EncodeOptions::new().header(header);
    let mut encoder = libflate::gzip::Encoder::with_options(Vec::new(), options).unwrap();
    std::io::Write::write_all(&mut encoder, input).unwrap();
    encoder.finish().into_result().unwrap()
}

/// Relies on libflate::gzip::Decoder: reading a stream that
/// libflate::gzip::Encoder produced yields the original bytes.
#[verifier::external_body]
fn gzip_decompress_raw(input: &[u8]) -> (out: Vec<u8>)
    requires
        exists|x: Seq<u8>| input@ == #[trigger] gzip_compressed(x),
    ensures
        forall|x: Seq<u8>| input@ == #[trigger] gzip_compressed(x) ==> out@ == x,
{
    let mut decoder = libflate::gzip::Decoder::new(input).unwrap();
    let mut out = Vec::new();
    std::io::Read::read_to_end(&mut decoder, &mut out).unwrap();
    out
}

impl Compressor for Gzip {
    open spec fn spec_accepts(&self, input: Seq<u8>) -> bool {
        true
    }

    open spec fn spec_compress(&self, input: Seq<u8>) -> Seq<u8> {
        gzip_compressed(input)
    }

    open spec fn spec_name(&self) -> Seq<char> {
        self.name@
    }

    fn compress(&self, input: &[u8]) -> Vec<u8> {
        gzip_compress_raw(input)
    }

    fn decompress(&self, input: &[u8]) -> Vec<u8> {
        gzip_decompress_raw(input)
    }

    fn get_name(&self) -> &'static str {
        self.name
    }
}

// LZ4 //

pub struct Lz4 {
    pub name: &'static str,
}

impl Lz4 {
    pub fn new() -> (c: Lz4)
        ensures
            c.name@ == "lz4"@,
    {
        Lz4 { name: "lz4" }
    }
}

/// Relies on lz4_flex::compress_prepend_size: the result is a function of
/// the input alone, and its first four bytes hold the input's length as a
/// little-endian 32-bit field (the length must fit in one, or the field
/// would be truncated).
#[verifier::external_body]
fn lz4_compress_raw(input: &[u8]) -> (out: Vec<u8>)
    requires
        input@.len() <= u32::MAX,
    ensures
        out@ == lz4_compressed(input@),
        out@.len() >= 4,
        le_u32_value(out@[0], out@[1], out@[2], out@[3]) == input@.len(),
{
    lz4_flex::compress_prepend_size(input)
}

/// Relies on lz4_flex::decompress_size_prepended: decoding a buffer that
/// lz4_flex::compress_prepend_size produced yields the original bytes.
#[verifier::external_body]
fn lz4_decompress_raw(input: &[u8]) -> (out: Vec<u8>)
    requires
        exists|x: Seq<u8>| x.len() <= u32::MAX && input@ == #[trigger] lz4_compressed(x),
    ensures
        forall|x: Seq<u8>|
            x.len() <= u32::MAX && input@ == #[trigger] lz4_compressed(x) ==> out@ == x,
{
    lz4_flex::decompress_size_prepended(input).unwrap()
}

impl Compressor for Lz4 {
    open spec fn spec_accepts(&self, input: Seq<u8>) -> bool {
        input.len() <= u32::MAX
    }

    open spec fn spec_compress(&self, input: Seq<u8>) -> Seq<u8> {
        lz4_compressed(input)
    }

    open spec fn spec_name(&self) -> Seq<char> {
        self.name@
    }

    fn compress(&self, input: &[u8]) -> (out: Vec<u8>)
        ensures
            out@.len() >= 4,
            le_u32_value(out@[0], out@[1], out@[2], out@[3]) == input@.len(),
    {
        lz4_compress_raw(input)
    }

    fn decompress(&self, input: &[u8]) -> Vec<u8> {
        lz4_decompress_raw(input)
    }

    fn get_name(&self) -> &'static str {
        self.name
    }
}

/// Reads a 32-bit little-endian field from the first four bytes.
pub fn read_le_u32_prefix(bytes: &[u8]) -> (n: u32)
    requires
        bytes@.len() >= 4,
    ensures
        n == le_u32_value(bytes@[0], bytes@[1], bytes@[2], bytes@[3]),
{
    let n0: u32 = bytes[0] as u32;
    let n1: u32 = bytes[1] as u32;
    let n2: u32 = bytes[2] as u32;
    let n3: u32 = bytes[3] as u32;
    n0 + n1 * 0x100 + n2 * 0x1_0000 + n3 * 0x100_0000
}

/// Size-prefix law (Lz4): the first four bytes of the compressed buffer
/// decode, little endian, to exactly the input's length.
pub fn lz4_size_prefix(c: &Lz4, input: &[u8]) -> (n: u32)
    requires
        c.spec_accepts(input@),
    ensures
        n == input@.len(),
{
    let out = c.compress(input);
    read_le_u32_prefix(out.as_slice())
}

// SNAPPY //

pub struct Snappy {
    pub name: &'static str,
}

impl Snappy {
    pub fn new() -> (c: Snappy)
        ensures
            c.name@ == "snappy"@,
    {
        Snappy { name: "snappy" }
    }
}

/// Relies on snap::write::FrameEncoder: the framed bytes are a function of
/// the input alone, and `into_inner` flushes the stream.
#[verifier::external_body]
fn snappy_compress_raw(input: &[u8]) -> (out: Vec<u8>)
    ensures
        out@ == snappy_compressed(input@),
{
    let mut encoder = snap::write::FrameEncoder::new(Vec::new());
    std::io::Write::write_all(&mut encoder, input).unwrap();
    encoder.into_inner().unwrap()
}

/// Relies on snap::read::FrameDecoder: reading a stream that
/// snap::write::FrameEncoder produced yields the original bytes.
#[verifier::external_body]
fn snappy_decompress_raw(input: &[u8]) -> (out: Vec<u8>)
    requires
        exists|x: Seq<u8>| input@ == #[trigger] snappy_compressed(x),
    ensures
        forall|x: Seq<u8>| input@ == #[trigger] snappy_compressed(x) ==> out@ == x,
{
    let mut decoder = snap::read::FrameDecoder::new(input);
    let mut out = Vec::new();
    std::io::Read::read_to_end(&mut decoder, &mut out).unwrap();
    out
}

impl Compressor for Snappy {
    open spec fn spec_accepts(&self, input: Seq<u8>) -> bool {
        true
    }

    open spec fn spec_compress(&self, input: Seq<u8>) -> Seq<u8> {
        snappy_compressed(input)
    }

    open spec fn spec_name(&self) -> Seq<char> {
        self.name@
    }

    fn compress(&self, input: &[u8]) -> Vec<u8> {
        snappy_compress_raw(input)
    }

    fn decompress(&self, input: &[u8]) -> Vec<u8> {
        snappy_decompress_raw(input)
    }

    fn get_name(&self) -> &'static str {
        self.name
    }
}

// ZSTD //

pub struct Zstd {
    pub name: &'static str,
}

impl Zstd {
    pub fn new() -> (c: Zstd)
        ensures
            c.name@ == "zstd"@,
    {
        Zstd { name: "zstd" }
    }
}

/// Relies on zstd::stream::Encoder at compression level 1 (the default of 3
/// would weigh ratio over speed): single-threaded and without a dictionary
/// the encoded bytes are a function of the input alone, and `finish` closes
/// the frame.
#[verifier::external_body]
fn zstd_compress_raw(input: &[u8]) -> (out: Vec<u8>)
    ensures
        out@ == zstd_compressed(input@),
{
    let mut encoder = zstd::stream::Encoder::new(Vec::new(), 1).unwrap();
    std::io::Write::write_all(&mut encoder, input).unwrap();
    encoder.finish().unwrap()
}

/// Relies on zstd::stream::copy_decode: decoding a frame that
/// zstd::stream::Encoder produced yields the original bytes.
#[verifier::external_body]
fn zstd_decompress_raw(input: &[u8]) -> (out: Vec<u8>)
    requires
        exists|x: Seq<u8>| input@ == #[trigger] zstd_compressed(x),
    ensures
        forall|x: Seq<u8>| input@ == #[trigger] zstd_compressed(x) ==> out@ == x,
{
    let mut out = Vec::new();
    zstd::stream::copy_decode(input, &mut out).unwrap();
    out
}

impl Compressor for Zstd {
    open spec fn spec_accepts(&self, input: Seq<u8>) -> bool {
        true
    }

    open spec fn spec_compress(&self, input: Seq<u8>) -> Seq<u8> {
        zstd_compressed(input)
    }

    open spec fn spec_name(&self) -> Seq<char> {
        self.name@
    }

    fn compress(&self, input: &[u8]) -> Vec<u8> {
        zstd_compress_raw(input)
    }

    fn decompress(&self, input: &[u8]) -> Vec<u8> {
        zstd_decompress_raw(input)
    }

    fn get_name(&self) -> &'static str {
        self.name
    }
}

} // verus!
