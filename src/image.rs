use vstd::prelude::*;
use crate::info_block::{
    BLOCK_SIZE,
    InfoBlockError,
    create_kernel_info_block,
    info_block,
    info_block_for,
    sizes_fit,
};

verus! {

/// `n` zero bytes.
pub open spec fn zeros(n: nat) -> Seq<u8> {
    Seq::new(n, |i: int| 0u8)
}

/// How many zero bytes bring `n` up to the next multiple of the block size.
pub open spec fn padding_for(n: nat) -> nat {
    ((BLOCK_SIZE - n % (BLOCK_SIZE as nat)) % (BLOCK_SIZE as int)) as nat
}

/// A segment followed by the zero padding that ends it on a block boundary.
pub open spec fn padded(data: Seq<u8>) -> Seq<u8> {
    data + zeros(padding_for(data.len()))
}

/// The bytes of an optional package, if any.
pub open spec fn package_view(package: Option<&[u8]>) -> Option<Seq<u8>> {
    match package {
        Some(p) => Some(p@),
        None => None,
    }
}

/// The size of an optional package, as the info block records it.
pub open spec fn package_len(package: Option<Seq<u8>>) -> Option<u64> {
    match package {
        Some(p) => Some(p.len() as u64),
        None => None,
    }
}

/// The image before any minimum size is applied: bootloader, info block,
/// padded kernel, padded package.
pub open spec fn natural_image(
    bootloader: Seq<u8>,
    kernel: Seq<u8>,
    package: Option<Seq<u8>>,
) -> Seq<u8> {
    bootloader + info_block_for(kernel.len() as u64, package_len(package)) + padded(kernel) + match package {
        Some(p) => padded(p),
        None => Seq::<u8>::empty(),
    }
}

/// `img` extended with zero bytes to `minimum` when it is shorter.
pub open spec fn extend_to(img: Seq<u8>, minimum: Option<u64>) -> Seq<u8> {
    match minimum {
        Some(m) => if img.len() < m {
            img + zeros((m - img.len()) as nat)
        } else {
            img
        },
        None => img,
    }
}

/// The complete disk image.
pub open spec fn disk_image(
    bootloader: Seq<u8>,
    kernel: Seq<u8>,
    package: Option<Seq<u8>>,
    minimum: Option<u64>,
) -> Seq<u8> {
    extend_to(natural_image(bootloader, kernel, package), minimum)
}

/// Whether the image for these inputs fits the address space.
pub open spec fn image_fits(
    bootloader: Seq<u8>,
    kernel: Seq<u8>,
    package: Option<Seq<u8>>,
    minimum: Option<u64>,
) -> bool {
    &&& bootloader.len() + kernel.len() + 3 * BLOCK_SIZE + match package {
        Some(p) => p.len(),
        None => 0,
    } <= usize::MAX
    &&& match minimum {
        Some(m) => m <= usize::MAX,
        None => true,
    }
}

/// The number of zero bytes that end a segment of `written` bytes on a block
/// boundary.
pub fn padding_len(written: u64) -> (r: u64)
    ensures
        r == padding_for(written as nat),
        r < BLOCK_SIZE,
        (written + r) % (BLOCK_SIZE as int) == 0,
{
    let block = BLOCK_SIZE as u64;
    (block - written % block) % block
}

/// The file name of the disk image built from the kernel binary `bin_name`,
/// used when no output path is configured.
pub fn default_image_file_name(bin_name: &str) -> (r: String)
    ensures
        r@ == "bootimage-"@ + bin_name@ + ".bin"@,
{
    let mut name = String::from_str("bootimage-");
    name.append(bin_name);
    name.append(".bin");
    name
}

fn append_bytes(out: &mut Vec<u8>, data: &[u8])
    requires
        old(out).len() + data@.len() <= usize::MAX,
    ensures
        final(out)@ == old(out)@ + data@,
{
    let ghost start = out@;
    let mut i: usize = 0;
    while i < data.len()
        invariant
            i <= data@.len(),
            start.len() + data@.len() <= usize::MAX,
            out@ == start + data@.subrange(0, i as int),
        decreases data@.len() - i,
    {
        out.push(data[i]);
        i = i + 1;
        assert(out@ =~= start + data@.subrange(0, i as int));
    }
    assert(data@.subrange(0, i as int) =~= data@);
}

fn append_zeros(out: &mut Vec<u8>, n: usize)
    requires
        old(out).len() + n <= usize::MAX,
    ensures
        final(out)@ == old(out)@ + zeros(n as nat),
{
    let ghost start = out@;
    let mut i: usize = 0;
    while i < n
        invariant
            i <= n,
            start.len() + n <= usize::MAX,
            out@ == start + zeros(i as nat),
        decreases n - i,
    {
        out.push(0u8);
        i = i + 1;
        assert(out@ =~= start + zeros(i as nat));
    }
}

/// Appends `data` followed by its block padding.
fn append_padded(out: &mut Vec<u8>, data: &[u8])
    requires
        old(out).len() + data@.len() + BLOCK_SIZE <= usize::MAX,
    ensures
        final(out)@ == old(out)@ + padded(data@),
{
    append_bytes(out, data);
    let pad = padding_len(data.len() as u64);
    append_zeros(out, pad as usize);
    assert(final(out)@ =~= old(out)@ + padded(data@));
}

/// Lays out a bootable disk image: the bootloader bytes, the kernel info
/// block, the kernel padded to a block boundary, the package (if any) padded
/// the same way, and finally zero bytes up to `minimum_size` when the image is
/// shorter. Fails when the kernel or the package is too large for the info
/// block.
pub fn assemble_disk_image(
    bootloader: &[u8],
    kernel: &[u8],
    package: Option<&[u8]>,
    minimum_size: Option<u64>,
) -> (r: Result<Vec<u8>, InfoBlockError>)
    requires
        image_fits(bootloader@, kernel@, package_view(package), minimum_size),
    ensures
        r is Ok <==> sizes_fit(kernel@.len() as u64, package_len(package_view(package))),
        kernel@.len() > u32::MAX ==> r == Err::<Vec<u8>, InfoBlockError>(
            InfoBlockError::KernelTooBig,
        ),
        kernel@.len() <= u32::MAX && !(r is Ok) ==> r == Err::<Vec<u8>, InfoBlockError>(
            InfoBlockError::PackageTooBig,
        ),
        r matches Ok(img) ==> img@ == disk_image(
            bootloader@,
            kernel@,
            package_view(package),
            minimum_size,
        ),
{
    let package_size: Option<u64> = match package {
        Some(p) => Some(p.len() as u64),
        None => None,
    };
    assert(package_size == package_len(package_view(package)));
    let info = match create_kernel_info_block(kernel.len() as u64, package_size) {
        Ok(b) => b,
        Err(e) => {
            return Err(e);
        },
    };
    let mut out: Vec<u8> = Vec::new();
    append_bytes(&mut out, bootloader);
    append_bytes(&mut out, info.as_slice());
    append_padded(&mut out, kernel);
    match package {
        Some(p) => {
            append_padded(&mut out, p);
        },
        None => {
            assert(out@ =~= out@ + Seq::<u8>::empty());
        },
    }
    assert(out@ =~= natural_image(bootloader@, kernel@, package_view(package)));
    match minimum_size {
        Some(m) => {
            if (out.len() as u64) < m {
                let extra = (m as usize) - out.len();
                append_zeros(&mut out, extra);
            }
        },
        None => {},
    }
    Ok(out)
}

/// Without a package or a minimum size, the image starts with the bootloader
/// followed by the info block, then holds the kernel verbatim, and the part
/// from the start of the kernel segment to the end is a whole number of
/// blocks, the bytes after the kernel being zero.
pub proof fn lemma_image_layout(bootloader: Seq<u8>, kernel: Seq<u8>)
    requires
        kernel.len() <= u32::MAX,
    ensures
        ({
            let img = disk_image(bootloader, kernel, None, None);
            let start = bootloader.len() + BLOCK_SIZE;
            &&& img.len() >= start + kernel.len()
            &&& (img.len() - start) % (BLOCK_SIZE as int) == 0
            &&& img.subrange(0, start) == bootloader + info_block(kernel.len() as u32, 0)
            &&& img.subrange(start, start + kernel.len()) == kernel
            &&& forall|i: int| start + kernel.len() <= i < img.len() ==> #[trigger] img[i] == 0u8
        }),
{
    let img = disk_image(bootloader, kernel, None, None);
    let start = bootloader.len() + BLOCK_SIZE;
    let info = info_block(kernel.len() as u32, 0);
    assert(img =~= bootloader + info + padded(kernel));
    assert(img.subrange(0, start) =~= bootloader + info);
    assert(img.subrange(start, start + kernel.len()) =~= kernel);
    let k = kernel.len();
    assert((k + padding_for(k)) % 512 == 0) by {
        assert(k % 512 < 512);
    }
}

/// A minimum size at most the natural length leaves the image unchanged; a
/// larger one makes the image exactly that long, the natural image followed
/// by zero bytes.
pub proof fn lemma_minimum_size(
    bootloader: Seq<u8>,
    kernel: Seq<u8>,
    package: Option<Seq<u8>>,
    minimum: u64,
)
    ensures
        ({
            let natural = disk_image(bootloader, kernel, package, None);
            let img = disk_image(bootloader, kernel, package, Some(minimum));
            &&& minimum <= natural.len() ==> img == natural
            &&& minimum > natural.len() ==> {
                &&& img.len() == minimum
                &&& img.subrange(0, natural.len() as int) == natural
                &&& forall|i: int| natural.len() <= i < minimum ==> #[trigger] img[i] == 0u8
            }
        }),
{
    let natural = disk_image(bootloader, kernel, package, None);
    let img = disk_image(bootloader, kernel, package, Some(minimum));
    if minimum > natural.len() {
        assert(img.subrange(0, natural.len() as int) =~= natural);
    }
}

} // verus!
