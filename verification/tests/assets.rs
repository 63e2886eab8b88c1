use spline_test::asset::{AssetError, LoadedZipBundle, LocalAssetFolder};

fn crc32(data: &[u8]) -> u32 {
    let mut crc: u32 = 0xffff_ffff;
    for &b in data {
        crc ^= b as u32;
        for _ in 0..8 {
            let mask = (crc & 1).wrapping_neg();
            crc = (crc >> 1) ^ (0xedb8_8320 & mask);
        }
    }
    !crc
}

fn push16(v: &mut Vec<u8>, x: u16) {
    v.extend_from_slice(&x.to_le_bytes());
}

fn push32(v: &mut Vec<u8>, x: u32) {
    v.extend_from_slice(&x.to_le_bytes());
}

/// A zip archive holding stored (uncompressed) entries.
fn stored_zip(entries: &[(&str, &[u8])]) -> Vec<u8> {
    stored_zip_with_offset_shift(entries, 0)
}

/// Like `stored_zip`, with every central-directory header offset moved by `shift`.
fn stored_zip_with_offset_shift(entries: &[(&str, &[u8])], shift: u32) -> Vec<u8> {
    let mut out = Vec::new();
    let mut central = Vec::new();
    for (name, data) in entries {
        let offset = out.len() as u32;
        let crc = crc32(data);
        push32(&mut out, 0x0403_4b50);
        push16(&mut out, 20);
        push16(&mut out, 0);
        push16(&mut out, 0);
        push16(&mut out, 0);
        push16(&mut out, 0x21);
        push32(&mut out, crc);
        push32(&mut out, data.len() as u32);
        push32(&mut out, data.len() as u32);
        push16(&mut out, name.len() as u16);
        push16(&mut out, 0);
        out.extend_from_slice(name.as_bytes());
        out.extend_from_slice(data);

        push32(&mut central, 0x0201_4b50);
        push16(&mut central, 20);
        push16(&mut central, 20);
        push16(&mut central, 0);
        push16(&mut central, 0);
        push16(&mut central, 0);
        push16(&mut central, 0x21);
        push32(&mut central, crc);
        push32(&mut central, data.len() as u32);
        push32(&mut central, data.len() as u32);
        push16(&mut central, name.len() as u16);
        push16(&mut central, 0);
        push16(&mut central, 0);
        push16(&mut central, 0);
        push16(&mut central, 0);
        push32(&mut central, 0);
        push32(&mut central, offset + shift);
        central.extend_from_slice(name.as_bytes());
    }
    let cd_offset = out.len() as u32;
    let cd_size = central.len() as u32;
    out.extend_from_slice(&central);
    push32(&mut out, 0x0605_4b50);
    push16(&mut out, 0);
    push16(&mut out, 0);
    push16(&mut out, entries.len() as u16);
    push16(&mut out, entries.len() as u16);
    push32(&mut out, cd_size);
    push32(&mut out, cd_offset);
    push16(&mut out, 0);
    out
}

#[test]
fn local_folder_keeps_its_path() {
    let f = LocalAssetFolder::new(b"assets/shaders");
    assert_eq!(f.base_path, b"assets/shaders".to_vec());
    let g = LocalAssetFolder::new(&[0x61, 0xff, 0x2f, 0x62]);
    assert_eq!(g.base_path, vec![0x61, 0xff, 0x2f, 0x62]);
}

#[test]
fn zip_bundle_returns_entry_contents() {
    let bytes = stored_zip(&[("a.txt", b"hello"), ("dir/b.wgsl", b"fn main() {}")]);
    let data: &[u8] = &bytes;
    let bundle = LoadedZipBundle::new(&data).unwrap();
    assert_eq!(bundle.try_get_bytes("a.txt").unwrap().unwrap(), b"hello".to_vec());
    assert_eq!(bundle.try_get_bytes("dir/b.wgsl").unwrap().unwrap(), b"fn main() {}".to_vec());
    assert_eq!(bundle.get_bytes("a.txt").unwrap(), b"hello".to_vec());
}

#[test]
fn zip_bundle_reports_missing_entries() {
    let bytes = stored_zip(&[("a.txt", b"hello")]);
    let data: &[u8] = &bytes;
    let bundle = LoadedZipBundle::new(&data).unwrap();
    assert!(matches!(bundle.try_get_bytes("b.txt"), Some(Err(AssetError::NotFound))));
    assert!(matches!(bundle.try_get_bytes("A.TXT"), Some(Err(AssetError::NotFound))));
    assert!(matches!(bundle.get_bytes("b.txt"), Err(AssetError::NotFound)));
}

#[test]
fn non_zip_bytes_are_refused() {
    let bytes = b"this is not a zip archive".to_vec();
    let data: &[u8] = &bytes;
    assert!(matches!(LoadedZipBundle::new(&data), Err(AssetError::Zip(_))));
}

#[test]
fn zip_entry_past_the_data_is_refused() {
    let bytes = stored_zip_with_offset_shift(&[("a.txt", b"hello")], 100_000);
    let data: &[u8] = &bytes;
    let bundle = LoadedZipBundle::new(&data).unwrap();
    assert!(bundle.try_get_bytes("a.txt").is_none());
    assert!(matches!(bundle.try_get_bytes("b.txt"), Some(Err(AssetError::NotFound))));
}

#[test]
fn zip_entry_with_bad_header_is_an_io_error() {
    // an offset inside the data that points at no local header
    let bytes = stored_zip_with_offset_shift(&[("a.txt", b"hello")], 3);
    let data: &[u8] = &bytes;
    let bundle = LoadedZipBundle::new(&data).unwrap();
    assert!(matches!(bundle.try_get_bytes("a.txt"), Some(Err(AssetError::Io(_)))));
}
