use arplus::save::{Save, WrappedSave};

#[test]
fn initialize_store() {
    let _store = WrappedSave::new(Save::default(), 0);
}

#[test]
fn get_save_from_store() {
    let save = Save::default();
    let store = WrappedSave::new(save, 0);
    assert!(store.save() == save);
}

#[test]
fn get_version_from_store() {
    let store = WrappedSave::new(Save::default(), 10);
    assert_eq!(store.version(), 10);
}

#[test]
fn initialize_store_from_bytes() {
    let store_a = WrappedSave::new(Save::default(), 0);
    let bytes = store_a.to_bytes();
    let store_b = WrappedSave::from_bytes(bytes).ok().unwrap();
    assert!(store_a.save() == store_b.save());
}

#[test]
fn detect_invalid_crc_while_initializing_from_bytes() {
    let store = WrappedSave::new(Save::default(), 0);
    let mut bytes = store.to_bytes();
    bytes[5] = 0x13;
    assert!(WrappedSave::from_bytes(bytes).is_err());
}

#[test]
fn dump_store_as_bytes() {
    let save_a = Save::default();
    let store_a = WrappedSave::new(save_a, 0);
    let bytes_a = store_a.to_bytes();

    let save_b = Save::default();
    let store_b = WrappedSave::new(save_b, 1);
    let bytes_b = store_b.to_bytes();

    assert!(bytes_a != bytes_b);
}

#[test]
fn store_fits_in_two_pages() {
    let page_size = 256;
    let store_size = std::mem::size_of::<WrappedSave>();
    assert!(store_size <= page_size * 2);
}

use arplus::calibration::Calibration;

fn busy_save() -> Save {
    let mut save = Save::default();
    save.parameters.chord.group.selected_value = 3;
    save.parameters.chord.chord.selected_value = 11;
    save.parameters.scale.cv_tonic.selected_value = 24;
    save.parameters.arp_mode.toggle.selected_value = 6;
    save.parameters.stereo_mode.toggle.selected_value = 2;
    save.parameters.cv_mapping.toggle.selected_value = 7;
    save.parameters.scale_offsets.offsets[4][7][6] = -4;
    save.parameters.scale_offsets.offsets[0][0][0] = 3;
    save.inputs.tone_cv_calibration.calibration = Calibration { offset_bits: 0xdead_beef, multiplier_bits: 0x3f80_0001 };
    save.quantized_output.calibration = Calibration { offset_bits: 1, multiplier_bits: 2 };
    save
}

#[test]
fn a_save_survives_its_bytes() {
    let save = busy_save();
    let bytes = save.to_bytes();
    assert_eq!(Save::from_bytes(bytes), save);
    assert_eq!(bytes.len(), 408);
}

#[test]
fn a_store_survives_its_bytes() {
    let store = WrappedSave::new(busy_save(), 0x0102_0304);
    let read = WrappedSave::from_bytes(store.to_bytes()).ok().unwrap();
    assert_eq!(read.version(), 0x0102_0304);
    assert!(read.save() == busy_save());
}

#[test]
fn stores_of_another_layout_are_refused() {
    let store = WrappedSave::new(Save::default(), 0);
    let mut bytes = store.to_bytes();
    bytes[4] = 2;
    assert!(WrappedSave::from_bytes(bytes).is_err());
}

#[test]
fn a_corrupted_save_is_refused() {
    let store = WrappedSave::new(busy_save(), 0);
    let mut bytes = store.to_bytes();
    bytes[100] ^= 0x01;
    assert!(WrappedSave::from_bytes(bytes).is_err());
}

#[test]
fn the_store_starts_with_the_version_and_the_token() {
    let bytes = WrappedSave::new(Save::default(), 0x0a0b_0c0d).to_bytes();
    assert_eq!(&bytes[0..6], &[0x0d, 0x0c, 0x0b, 0x0a, 0x01, 0x00]);
}

#[test]
fn the_checksum_is_crc_16_usb() {
    let save = Save::default();
    let raw = save.to_bytes();
    let bytes = WrappedSave::new(save, 0).to_bytes();
    let crc = crc::Crc::<u16>::new(&crc::CRC_16_USB).checksum(&raw);
    assert_eq!(&bytes[414..416], &crc.to_le_bytes());
}

#[test]
fn a_store_is_accepted_with_the_checksum_it_carries() {
    let store = WrappedSave::new(busy_save(), 7);
    let bytes = store.to_bytes();
    let carried = u16::from_le_bytes([bytes[414], bytes[415]]);
    let read = WrappedSave::from_bytes_with_checksum(bytes, carried).ok().unwrap();
    assert_eq!(read.version(), 7);
    assert!(read.save() == busy_save());
    assert!(WrappedSave::from_bytes_with_checksum(bytes, carried ^ 0x8000).is_err());
    let mut other_layout = bytes;
    other_layout[4] = 2;
    assert!(WrappedSave::from_bytes_with_checksum(other_layout, carried).is_err());
}
