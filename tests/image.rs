use bootimage::image::{assemble_disk_image, default_image_file_name, padding_len};
use bootimage::info_block::create_kernel_info_block;

fn bytes(n: usize, seed: u8) -> Vec<u8> {
    (0..n).map(|i| (i as u8).wrapping_mul(31).wrapping_add(seed) | 1).collect()
}

#[test]
fn padding_reaches_the_next_block_boundary() {
    assert_eq!(padding_len(0), 0);
    assert_eq!(padding_len(1), 511);
    assert_eq!(padding_len(511), 1);
    assert_eq!(padding_len(512), 0);
    assert_eq!(padding_len(513), 511);
    assert_eq!(padding_len(u64::MAX), 1);
}

#[test]
fn image_starts_with_bootloader_and_info_block() {
    let bootloader = bytes(3, 7);
    let kernel = bytes(700, 9);
    let img = assemble_disk_image(&bootloader, &kernel, None, None).unwrap();
    let start = bootloader.len() + 512;
    assert_eq!(img.len(), start + 1024);
    assert_eq!((img.len() - start) % 512, 0);
    let info = create_kernel_info_block(700, None).unwrap();
    let mut head = bootloader.clone();
    head.extend_from_slice(&info);
    assert_eq!(&img[..start], &head[..]);
    assert_eq!(&img[start..start + 700], &kernel[..]);
    assert!(img[start + 700..].iter().all(|b| *b == 0));
}

#[test]
fn kernel_of_whole_blocks_gets_no_padding() {
    let img = assemble_disk_image(&[0xaa; 10], &bytes(1024, 3), None, None).unwrap();
    assert_eq!(img.len(), 10 + 512 + 1024);
}

#[test]
fn empty_kernel_gives_bootloader_and_info_block_only() {
    let img = assemble_disk_image(&[1, 2], &[], None, None).unwrap();
    assert_eq!(img.len(), 2 + 512);
    assert_eq!(&img[2..6], &[0, 0, 0, 0]);
}

#[test]
fn package_follows_the_padded_kernel() {
    let kernel = bytes(5, 1);
    let package = bytes(600, 2);
    let img = assemble_disk_image(&[9], &kernel, Some(&package), None).unwrap();
    assert_eq!(img.len(), 1 + 512 + 512 + 1024);
    assert_eq!(&img[1 + 8..1 + 12], &600u32.to_le_bytes());
    let p = 1 + 512 + 512;
    assert_eq!(&img[p..p + 600], &package[..]);
    assert!(img[p + 600..].iter().all(|b| *b == 0));
}

#[test]
fn minimum_size_below_natural_length_changes_nothing() {
    let kernel = bytes(100, 4);
    let natural = assemble_disk_image(&[5, 6], &kernel, None, None).unwrap();
    let smaller = assemble_disk_image(&[5, 6], &kernel, None, Some(100)).unwrap();
    assert_eq!(smaller, natural);
    let equal = assemble_disk_image(&[5, 6], &kernel, None, Some(natural.len() as u64)).unwrap();
    assert_eq!(equal, natural);
}

#[test]
fn minimum_size_above_natural_length_pads_with_zeros() {
    let kernel = bytes(100, 4);
    let natural = assemble_disk_image(&[5, 6], &kernel, None, None).unwrap();
    let img = assemble_disk_image(&[5, 6], &kernel, None, Some(5000)).unwrap();
    assert_eq!(img.len(), 5000);
    assert_eq!(&img[..natural.len()], &natural[..]);
    assert!(img[natural.len()..].iter().all(|b| *b == 0));
}

#[test]
fn default_image_name_wraps_the_binary_name() {
    assert_eq!(default_image_file_name("kernel"), "bootimage-kernel.bin");
    assert_eq!(default_image_file_name(""), "bootimage-.bin");
}
