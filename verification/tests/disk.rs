use frontend_im::disk::{name_has_nul, DiskError, DiskHandle, JsDiskImage, DISK_BLOCKSIZE};

fn open_handle(name: &str, size_bytes: usize) -> DiskHandle {
    DiskHandle::open(name.to_string(), 3, Some(size_bytes)).unwrap()
}

#[test]
fn open_resolves_valid_host_results() {
    let handle = DiskHandle::open("hd.img".to_string(), 0, Some(1024)).unwrap();
    assert_eq!(handle.size_bytes(), 1024);
    assert_eq!(handle.name(), "hd.img");
    assert_eq!(handle.disk_id, 0);
}

#[test]
fn open_negative_handle_is_not_found() {
    let err = DiskHandle::open("missing.img".to_string(), -1, Some(1024)).unwrap_err();
    assert_eq!(err, DiskError::NotFound { name: "missing.img".to_string() });
}

#[test]
fn open_invalid_size_is_rejected_after_resolution() {
    let err = DiskHandle::open("weird.img".to_string(), 2, None).unwrap_err();
    assert_eq!(err, DiskError::InvalidSize { name: "weird.img".to_string() });
}

#[test]
fn disk_image_requires_exact_block_multiple() {
    // One byte short of a multiple fails with a descriptive error …
    let size = DISK_BLOCKSIZE * 40 - 1;
    let err = JsDiskImage::open(open_handle("short.img", size)).unwrap_err();
    assert_eq!(
        err,
        DiskError::NotBlockMultiple { name: "short.img".to_string(), size_bytes: size }
    );
    // … while an exact multiple succeeds.
    let image = JsDiskImage::open(open_handle("exact.img", DISK_BLOCKSIZE * 40)).unwrap();
    assert_eq!(image.byte_len(), DISK_BLOCKSIZE * 40);
    assert_eq!(image.image_name(), "exact.img");
    assert!(image.media_bytes().is_none());
}

#[test]
fn zero_length_image_is_a_valid_multiple() {
    assert!(JsDiskImage::open(open_handle("empty.img", 0)).is_ok());
}

#[test]
fn name_nul_detection() {
    assert!(!name_has_nul(&b"cd.iso".to_vec()));
    assert!(name_has_nul(&b"cd\0.iso".to_vec()));
    assert!(!name_has_nul(&Vec::new()));
}
