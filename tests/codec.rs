use sdcard::codec::{
    block_addressed, csd_block_count, if_cond_echoed, is_start_token, trailing_word, write_status,
};
use sdcard::command::{command_frame, Cmd};
use sdcard::error::SdCardError;

#[test]
fn go_idle_frame_is_fixed() {
    assert_eq!(command_frame(Cmd::GoIdleState, 0, 0x95), vec![0x40, 0, 0, 0, 0, 0x95]);
}

#[test]
fn send_if_cond_frame() {
    assert_eq!(command_frame(Cmd::SendIfCond, 0x1aa, 0x87), vec![0x48, 0, 0, 0x01, 0xaa, 0x87]);
}

#[test]
fn frame_argument_is_big_endian_and_crc_gets_end_bit() {
    assert_eq!(
        command_frame(Cmd::ReadSingleBlock, 0x1234_5678, 0x00),
        vec![0x51, 0x12, 0x34, 0x56, 0x78, 0x01]
    );
    assert_eq!(
        command_frame(Cmd::AppSendOpCond, 0x4000_0000, 0x00),
        vec![0x69, 0x40, 0, 0, 0, 0x01]
    );
}

#[test]
fn command_indices() {
    assert_eq!(Cmd::StopTransmission.index(), 12);
    assert_eq!(Cmd::AppCmd.index(), 55);
    assert_eq!(Cmd::ReadOcr.index(), 58);
    assert_eq!(Cmd::WriteMultipleBlock.index(), 25);
}

#[test]
fn trailing_word_is_big_endian() {
    assert_eq!(trailing_word(&vec![0x12, 0x34, 0x56, 0x78]), 0x1234_5678);
    assert_eq!(trailing_word(&vec![0x00, 0x00, 0x01, 0xaa]), 0x1aa);
}

#[test]
fn if_cond_echo_looks_at_low_twelve_bits() {
    assert!(if_cond_echoed(0x1aa));
    assert!(if_cond_echoed(0xffff_f1aa));
    assert!(!if_cond_echoed(0x0aa));
    assert!(!if_cond_echoed(0x2aa));
}

#[test]
fn ccs_is_bit_thirty() {
    assert!(block_addressed(0xc0ff_8000));
    assert!(block_addressed(0x4000_0000));
    assert!(!block_addressed(0x80ff_8000));
    assert!(!block_addressed(0));
}

#[test]
fn start_token_is_any_byte_without_both_low_bits() {
    assert!(is_start_token(0xfe));
    assert!(is_start_token(0xfc));
    assert!(is_start_token(0x00));
    assert!(!is_start_token(0xff));
    assert!(!is_start_token(0x03));
}

#[test]
fn write_status_patterns() {
    assert_eq!(write_status(0b00101), Ok(()));
    assert_eq!(write_status(0xe5), Ok(()));
    assert_eq!(write_status(0b01011), Err(SdCardError::CrcError));
    assert_eq!(write_status(0xeb), Err(SdCardError::CrcError));
    assert_eq!(write_status(0b01101), Err(SdCardError::WriteError));
    assert_eq!(write_status(0xed), Err(SdCardError::WriteError));
    assert_eq!(write_status(0b00000), Err(SdCardError::Unknown));
    assert_eq!(write_status(0b11111), Err(SdCardError::Unknown));
    assert_eq!(write_status(0b00111), Err(SdCardError::Unknown));
}

fn csd_with_c_size(c_size: u32) -> Vec<u8> {
    let mut csd = vec![0u8; 18];
    csd[0] = 0x40;
    csd[7] = ((c_size >> 16) & 0x3f) as u8;
    csd[8] = ((c_size >> 8) & 0xff) as u8;
    csd[9] = (c_size & 0xff) as u8;
    csd
}

#[test]
fn capacity_from_c_size_0x1000() {
    assert_eq!(csd_block_count(&csd_with_c_size(0x1000)), Ok((0x1000 + 1) * 1000));
}

#[test]
fn capacity_uses_six_bits_of_byte_seven() {
    let mut csd = csd_with_c_size(0x3f_ffff);
    assert_eq!(csd_block_count(&csd), Ok(0x40_0000 * 1000));
    csd[7] = 0xff;
    assert_eq!(csd_block_count(&csd), Ok(0x40_0000 * 1000));
    assert_eq!(csd_block_count(&csd_with_c_size(0)), Ok(1000));
}

#[test]
fn version_one_csd_is_refused() {
    let mut csd = csd_with_c_size(0x1000);
    csd[0] = 0x00;
    assert_eq!(csd_block_count(&csd), Err(SdCardError::ReadCsdFailed));
    csd[0] = 0x80;
    assert_eq!(csd_block_count(&csd), Err(SdCardError::ReadCsdFailed));
}
