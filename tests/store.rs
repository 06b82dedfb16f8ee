use dpedal::model::{ComputerInput, Config, DpedalInput, Mapping, Profile};
use dpedal::store::{
    encode_config, erase_blocks_needed, read_be_u32, write_be_u32, ConfigError,
    ConfigFlash,
};
use dpedal::{assert_config_fits_in_flash, assert_config_size_fits_into_writable_flash_blocks, CONFIG_SIZE};

fn valid() -> Config {
    Config::default()
}

#[test]
fn layout_constants_hold() {
    assert!(assert_config_fits_in_flash());
    assert!(assert_config_size_fits_into_writable_flash_blocks());
}

#[test]
fn big_endian_prefix() {
    assert_eq!(write_be_u32(0x0102_0304), vec![1, 2, 3, 4]);
    assert_eq!(read_be_u32(&[0xde, 0xad, 0xbe, 0xef, 9]), 0xdead_beef);
    assert_eq!(encode_config(&[7, 8, 9]), vec![0, 0, 0, 3, 7, 8, 9]);
    assert_eq!(encode_config(&[]), vec![0, 0, 0, 0]);
}

#[test]
fn store_then_load_round_trips() {
    let mut flash = ConfigFlash::erased();
    let blob: Vec<u8> = (0..5000u32).map(|i| (i % 251) as u8).collect();
    let config = valid();
    assert_eq!(flash.load_config_bytes_to_flash(&blob, Some(&config)), Ok(()));
    assert_eq!(flash.load_config_bytes_from_flash(), Ok(blob.clone()));
    assert_eq!(&flash.region[..4], &[0, 0, 0x13, 0x88]);
    // Blocks past the ones that were written keep what they held.
    let shorter = vec![1u8, 2, 3];
    assert_eq!(flash.load_config_bytes_to_flash(&shorter, Some(&config)), Ok(()));
    assert_eq!(flash.load_config_bytes_from_flash(), Ok(shorter));
    assert!(flash.region[7..4096].iter().all(|b| *b == 0xff));
    assert_eq!(flash.region[4096], blob[4092]);
}

#[test]
fn erased_flash_has_no_config() {
    let flash = ConfigFlash::erased();
    assert_eq!(flash.load_config_bytes_from_flash(), Err(ConfigError::LengthOverflow));
    let mut region = vec![0u8; CONFIG_SIZE];
    region[2] = 0x3f;
    region[3] = 0xfc;
    let flash = ConfigFlash::new(region.clone());
    assert_eq!(flash.load_config_bytes_from_flash().unwrap().len(), CONFIG_SIZE - 4);
    region[3] = 0xfd;
    let flash = ConfigFlash::new(region);
    assert_eq!(flash.load_config_bytes_from_flash(), Err(ConfigError::LengthOverflow));
}

#[test]
fn store_refuses_invalid_blob_and_leaves_flash_alone() {
    let mut flash = ConfigFlash::erased();
    let config = valid();
    assert_eq!(flash.load_config_bytes_to_flash(&[5, 6], Some(&config)), Ok(()));
    let before = flash.region.clone();
    assert_eq!(
        flash.load_config_bytes_to_flash(&[1, 2, 3], None),
        Err(ConfigError::DeserializeFailed)
    );
    assert_eq!(flash.region, before);
    let mut too_many = valid();
    let one = Mapping { input: vec![DpedalInput::DpadUp], output: vec![ComputerInput::Nothing] };
    too_many.profiles = vec![Profile { mappings: vec![one; 25] }];
    assert_eq!(
        flash.load_config_bytes_to_flash(&[1, 2, 3], Some(&too_many)),
        Err(ConfigError::DeserializeFailed)
    );
    assert_eq!(flash.region, before);
    let huge = vec![1u8; CONFIG_SIZE - 3];
    assert_eq!(flash.load_config_bytes_to_flash(&huge, Some(&config)), Err(ConfigError::TooLarge));
    assert_eq!(flash.region, before);
    let fits = vec![1u8; CONFIG_SIZE - 4];
    assert_eq!(flash.load_config_bytes_to_flash(&fits, Some(&config)), Ok(()));
    assert_eq!(flash.load_config_bytes_from_flash(), Ok(fits));
}

#[test]
fn validation_outcomes() {
    assert_eq!(ConfigFlash::check_valid_config(None), Err(ConfigError::DeserializeFailed));
    assert_eq!(ConfigFlash::check_valid_config(Some(&valid())), Ok(()));
}

#[test]
fn fewest_erase_blocks() {
    assert_eq!(erase_blocks_needed(0), 0);
    assert_eq!(erase_blocks_needed(1), 1);
    assert_eq!(erase_blocks_needed(4096), 1);
    assert_eq!(erase_blocks_needed(4097), 2);
    assert_eq!(erase_blocks_needed(CONFIG_SIZE), 4);
}
