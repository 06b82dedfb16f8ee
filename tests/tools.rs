use dpedal::config_file::{DeviceKdl, DpedalInputKdl, KdlConfigFinalize, MappingKdl, MappingTextError};
use dpedal::flash_image::{
    bin_pages, check_flash_sizes, elf_to_bin, page_address, ElfError, FlashError, FLASH_PAGE_SIZE,
};
use dpedal::form::{nickname_fits, output_from_form, parse_color};
use dpedal::keys::KeyboardInput;
use dpedal::model::{ComputerInput, DPedalControl, Device, DpedalInput, MouseInput};
use dpedal::{CONFIG_OFFSET, CONFIG_SIZE, FIRMWARE_SIZE};

fn u16le(v: &mut Vec<u8>, x: u16) {
    v.extend_from_slice(&x.to_le_bytes());
}

fn u32le(v: &mut Vec<u8>, x: u32) {
    v.extend_from_slice(&x.to_le_bytes());
}

/// A 32-bit little-endian ARM executable with the given (offset, paddr, filesz, flags) segments.
fn elf32(segments: &[(u32, u32, u32, u32)], payload: &[u8]) -> Vec<u8> {
    let mut v = vec![0x7f, b'E', b'L', b'F', 1, 1, 1, 0, 0, 0, 0, 0, 0, 0, 0, 0];
    u16le(&mut v, 2);
    u16le(&mut v, 40);
    u32le(&mut v, 1);
    u32le(&mut v, 0);
    u32le(&mut v, 52);
    u32le(&mut v, 0);
    u32le(&mut v, 0);
    u16le(&mut v, 52);
    u16le(&mut v, 32);
    u16le(&mut v, segments.len() as u16);
    u16le(&mut v, 40);
    u16le(&mut v, 0);
    u16le(&mut v, 0);
    for &(offset, paddr, filesz, flags) in segments {
        u32le(&mut v, 1);
        u32le(&mut v, offset);
        u32le(&mut v, paddr);
        u32le(&mut v, paddr);
        u32le(&mut v, filesz);
        u32le(&mut v, filesz);
        u32le(&mut v, flags);
        u32le(&mut v, 4);
    }
    v.extend_from_slice(payload);
    v
}

#[test]
fn elf_segments_sorted_and_gaps_zero_filled() {
    // Headers take 52 + 3 * 32 = 148 bytes; the payload follows.
    let payload = [1u8, 2, 3, 4, 5, 6, 7];
    let elf = elf32(
        &[(152, 0x1006, 2, 4), (148, 0x1000, 4, 4), (154, 0x2000, 1, 1)],
        &payload,
    );
    assert_eq!(elf_to_bin(&elf), Ok(vec![1, 2, 3, 4, 0, 0, 5, 6]));
}

#[test]
fn elf_errors() {
    assert_eq!(elf_to_bin(&[1, 2, 3]), Err(ElfError::Parse));
    let past_end = elf32(&[(84, 0x1000, 100, 4)], &[1, 2]);
    assert_eq!(elf_to_bin(&past_end), Err(ElfError::SegmentOutOfFile));
    let overlap = elf32(&[(116, 0x1000, 4, 4), (116, 0x1002, 4, 4)], &[1, 2, 3, 4]);
    assert_eq!(elf_to_bin(&overlap), Err(ElfError::SegmentsOverlap));
    let far = elf32(&[(116, 0, 1, 4), (117, 0x0100_0000, 1, 4)], &[1, 2]);
    assert_eq!(elf_to_bin(&far), Err(ElfError::ImageTooLarge));
}

#[test]
fn pages_are_padded() {
    let fw: Vec<u8> = (0..300u32).map(|i| (i % 256) as u8 | 1).collect();
    let pages = bin_pages(&fw);
    assert_eq!(pages.len(), 2);
    assert_eq!(pages[0], fw[..FLASH_PAGE_SIZE].to_vec());
    assert_eq!(&pages[1][..44], &fw[256..]);
    assert!(pages[1][44..].iter().all(|b| *b == 0));
    assert_eq!(pages[1].len(), FLASH_PAGE_SIZE);
    assert!(bin_pages(&[]).is_empty());
}

#[test]
fn flash_sizes_and_addresses() {
    assert_eq!(check_flash_sizes(10, 10), Ok(()));
    assert_eq!(check_flash_sizes(FIRMWARE_SIZE, 10), Err(FlashError::FirmwareTooLarge));
    assert_eq!(check_flash_sizes(10, CONFIG_SIZE), Err(FlashError::ConfigTooLarge));
    assert_eq!(page_address(CONFIG_OFFSET as u32, 0), (0x10F0_0000, true));
    assert_eq!(page_address(CONFIG_OFFSET as u32, 1), (0x10F0_0100, false));
    assert_eq!(page_address(0, 16), (0x1000_1000, true));
}

#[test]
fn mapping_text() {
    let m = MappingKdl::parse_text("  dpad-left ->  mouse-scroll-left ").unwrap();
    assert_eq!(m.input, vec![DpedalInput::DpadLeft]);
    assert_eq!(m.output, vec![ComputerInput::Mouse(MouseInput::ScrollLeft(10))]);
    let m = MappingKdl::parse_text("button-right->keyboard-page-down").unwrap();
    assert_eq!(m.output, vec![ComputerInput::Keyboard(KeyboardInput::PageDown)]);
    let m = m.finalize();
    assert_eq!(m.input, vec![DpedalInput::ButtonRight]);
    assert_eq!(MappingKdl::parse_text("dpad-left mouse-scroll-left").unwrap_err(), MappingTextError::NoArrow);
    assert_eq!(MappingKdl::parse_text("pedal -> mouse-click-left").unwrap_err(), MappingTextError::UnknownInput);
    assert_eq!(MappingKdl::parse_text("dpad-up -> mouse").unwrap_err(), MappingTextError::UnknownOutput);
    assert_eq!(MappingKdl::parse_text("dpad-up -> joystick-up").unwrap_err(), MappingTextError::UnknownOutput);
    assert_eq!(MappingKdl::parse_text("dpad-up -> keyboard-nope").unwrap_err(), MappingTextError::UnknownOutput);
    assert_eq!(DpedalInputKdl::ButtonLeft.finalize(), DpedalInput::ButtonLeft);
    assert_eq!(DeviceKdl::Dpedal.finalize(), Device::Dpedal);
}

#[test]
fn form_fields() {
    assert_eq!(
        output_from_form("mouse", "MoveDown", "30"),
        Some(ComputerInput::Mouse(MouseInput::MoveDown(30)))
    );
    assert_eq!(
        output_from_form("keyboard", "Escape", ""),
        Some(ComputerInput::Keyboard(KeyboardInput::Escape))
    );
    assert_eq!(
        output_from_form("control", "DoNothing", ""),
        Some(ComputerInput::Control(DPedalControl::DoNothing))
    );
    assert_eq!(output_from_form("gamepad", "A", ""), None);
    assert_eq!(parse_color("#1790e3"), Some(0x1790e3));
    assert_eq!(parse_color("#FFFFFFFF"), Some(u32::MAX));
    assert_eq!(parse_color("#100000000"), None);
    assert_eq!(parse_color("1790e3"), None);
    assert_eq!(parse_color("#12g4"), None);
    assert_eq!(parse_color("#"), None);
    assert!(nickname_fits(&"é".repeat(25)));
    assert!(!nickname_fits(&"é".repeat(26)));
}
