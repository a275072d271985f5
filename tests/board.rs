use sdcard::board::{fpioa_init, io};

#[test]
fn rgb_led_routed_to_first_three_gpios() {
    assert_eq!(fpioa_init(), vec![(io::RGB_LED_R, 0), (io::RGB_LED_G, 1), (io::RGB_LED_B, 2)]);
}

#[test]
fn pin_numbers() {
    assert_eq!(usize::from(io::JTAG_TCK), 0);
    assert_eq!(usize::from(io::RGB_LED_R), 22);
    assert_eq!(usize::from(io::RGB_LED_G), 24);
    assert_eq!(usize::from(io::IO29), 29);
    assert_eq!(usize::from(io::DVP_PCLK), 47);
    assert_eq!(io::LCD_CS.number(), 36);
}

#[test]
fn full_panel_area_window() {
    let (columns, rows) = sdcard::lcd::area_window(240, 320);
    assert_eq!(columns, vec![0x00, 0x00, 0x01, 0x3f]);
    assert_eq!(rows, vec![0x00, 0x00, 0x00, 0xef]);
}

#[test]
fn narrow_area_is_drawn_against_right_edge() {
    let (columns, rows) = sdcard::lcd::area_window(300, 200);
    assert_eq!(columns, vec![0x00, 120, 0x01, 0x3f]);
    assert_eq!(rows, vec![0x00, 0x00, 0x01, 0x2b]);
}
