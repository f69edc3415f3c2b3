use vstd::prelude::*;

verus! {

/// Size in bytes of the kernel info block, and the alignment unit of every
/// variable-length segment of a disk image.
pub const BLOCK_SIZE: usize = 512;

/// Byte offset of the kernel size field inside the info block.
pub const KERNEL_SIZE_OFFSET: usize = 0;

/// Byte offset of the (legacy) package size field inside the info block.
pub const PACKAGE_SIZE_OFFSET: usize = 8;

/// Why an info block could not be encoded.
#[derive(Debug, Clone, Copy, PartialEq, Eq, Structural)]
pub enum InfoBlockError {
    /// The kernel is larger than a 32-bit size field can describe.
    KernelTooBig,
    /// The package is larger than a 32-bit size field can describe.
    PackageTooBig,
}

/// The four little-endian bytes of `v`.
pub open spec fn le_u32_bytes(v: u32) -> Seq<u8> {
    seq![
        (v % 256) as u8,
        ((v / 256) % 256) as u8,
        ((v / 65536) % 256) as u8,
        ((v / 16777216) % 256) as u8,
    ]
}

/// The number that the first four bytes of `b` denote, read little-endian.
pub open spec fn le_u32_value(b: Seq<u8>) -> int
    recommends
        b.len() >= 4,
{
    b[0] + 256 * b[1] + 65536 * b[2] + 16777216 * b[3]
}

/// The size recorded for an optional package: zero when there is none.
pub open spec fn package_size_value(p: Option<u64>) -> u64 {
    match p {
        Some(s) => s,
        None => 0,
    }
}

/// Whether both sizes fit the 32-bit fields of the info block.
pub open spec fn sizes_fit(kernel_size: u64, package_size: Option<u64>) -> bool {
    kernel_size <= u32::MAX && package_size_value(package_size) <= u32::MAX
}

/// The info block for the given sizes: zero everywhere but the two
/// little-endian size fields.
pub open spec fn info_block(kernel_size: u32, package_size: u32) -> Seq<u8> {
    Seq::new(
        BLOCK_SIZE as nat,
        |i: int|
            if 0 <= i < 4 {
                le_u32_bytes(kernel_size)[i]
            } else if 8 <= i < 12 {
                le_u32_bytes(package_size)[i - 8]
            } else {
                0u8
            },
    )
}

/// The info block that `create_kernel_info_block` yields for sizes that fit.
pub open spec fn info_block_for(kernel_size: u64, package_size: Option<u64>) -> Seq<u8> {
    info_block(kernel_size as u32, package_size_value(package_size) as u32)
}

/// Reading back the four bytes written for `v` gives `v`.
pub proof fn lemma_le_u32_round_trip(v: u32)
    ensures
        le_u32_value(le_u32_bytes(v)) == v,
{
    let b = le_u32_bytes(v);
    assert(b[0] == v % 256);
    assert(b[1] == (v / 256) % 256);
    assert(b[2] == (v / 65536) % 256);
    assert(b[3] == (v / 16777216) % 256);
    assert((v % 256) + 256 * ((v / 256) % 256) + 65536 * ((v / 65536) % 256) + 16777216 * ((v
        / 16777216) % 256) == v) by (bit_vector);
}

/// For all sizes that fit 32 bits, the info block is one block long, its
/// first four bytes read little-endian give the kernel size back, and bytes
/// eight to eleven give the package size (zero without a package) back.
pub proof fn lemma_info_block_decodes(kernel_size: u64, package_size: Option<u64>)
    requires
        sizes_fit(kernel_size, package_size),
    ensures
        info_block_for(kernel_size, package_size).len() == BLOCK_SIZE,
        le_u32_value(info_block_for(kernel_size, package_size).subrange(0, 4)) == kernel_size,
        le_u32_value(info_block_for(kernel_size, package_size).subrange(8, 12))
            == package_size_value(package_size),
{
    let k = kernel_size as u32;
    let p = package_size_value(package_size) as u32;
    let blk = info_block_for(kernel_size, package_size);
    lemma_le_u32_round_trip(k);
    lemma_le_u32_round_trip(p);
    assert(blk.subrange(0, 4) =~= le_u32_bytes(k));
    assert(blk.subrange(8, 12) =~= le_u32_bytes(p));
}

/// Writes the four little-endian bytes of `v` at `offset`.
fn write_le_u32(block: &mut Vec<u8>, offset: usize, v: u32)
    requires
        offset + 4 <= old(block).len(),
    ensures
        final(block).len() == old(block).len(),
        forall|i: int|
            0 <= i < final(block).len() ==> #[trigger] final(block)@[i] == if offset <= i < offset
                + 4 {
                le_u32_bytes(v)[i - offset]
            } else {
                old(block)@[i]
            },
{
    block.set(offset, (v % 256) as u8);
    block.set(offset + 1, ((v / 256) % 256) as u8);
    block.set(offset + 2, ((v / 65536) % 256) as u8);
    block.set(offset + 3, ((v / 16777216) % 256) as u8);
}

/// Encodes the kernel info block: a zeroed block with the kernel size at
/// offset 0 and the package size (zero without a package) at offset 8, both
/// as little-endian 32-bit integers. Fails when a size does not fit 32 bits.
pub fn create_kernel_info_block(kernel_size: u64, package_size: Option<u64>) -> (r: Result<
    Vec<u8>,
    InfoBlockError,
>)
    ensures
        r is Ok <==> sizes_fit(kernel_size, package_size),
        kernel_size > u32::MAX ==> r == Err::<Vec<u8>, InfoBlockError>(
            InfoBlockError::KernelTooBig,
        ),
        kernel_size <= u32::MAX && package_size_value(package_size) > u32::MAX ==> r == Err::<
            Vec<u8>,
            InfoBlockError,
        >(InfoBlockError::PackageTooBig),
        r matches Ok(b) ==> b@ == info_block_for(kernel_size, package_size),
{
    if kernel_size > 0xffff_ffff {
        return Err(InfoBlockError::KernelTooBig);
    }
    let package: u64 = match package_size {
        Some(s) => s,
        None => 0,
    };
    if package > 0xffff_ffff {
        return Err(InfoBlockError::PackageTooBig);
    }
    let mut block: Vec<u8> = Vec::new();
    while block.len() < BLOCK_SIZE
        invariant
            block.len() <= BLOCK_SIZE,
            forall|i: int| 0 <= i < block.len() ==> #[trigger] block@[i] == 0u8,
        decreases BLOCK_SIZE - block.len(),
    {
        block.push(0u8);
    }
    write_le_u32(&mut block, KERNEL_SIZE_OFFSET, kernel_size as u32);
    write_le_u32(&mut block, PACKAGE_SIZE_OFFSET, package as u32);
    assert(block@ =~= info_block_for(kernel_size, package_size));
    Ok(block)
}

} // verus!
