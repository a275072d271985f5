use vstd::prelude::*;

verus! {

/// Width of the display in pixels.
pub const DISP_WIDTH: u16 = 240;

/// Height of the display in pixels.
pub const DISP_HEIGHT: u16 = 240;

/// Number of pixels on the screen.
pub const DISP_PIXELS: usize = 240 * 240;

/// The board's I/O pins, by what they are wired to.
#[allow(non_camel_case_types)]
#[derive(Clone, Copy, PartialEq, Eq, Structural, Debug)]
pub enum io {
    /// JTAG TCK
    JTAG_TCK,
    /// JTAG TDI
    JTAG_TDI,
    /// JTAG TMS
    JTAG_TMS,
    /// JTAG TDO
    JTAG_TDO,
    /// Host RX (from STM32F103C8)
    ISP_RX,
    /// Host TX (to STM32F103C8)
    ISP_TX,
    /// WIFI serial TX (from perspective of ESP8285, so our RX)
    WIFI_TX,
    /// WIFI serial RX (from perspective of ESP8285, so our TX)
    WIFI_RX,
    /// WIFI enable (to ESP8285)
    WIFI_EN,
    /// Unused
    IO9,
    /// Unused
    IO10,
    /// General purpose I/O pin
    IO11,
    /// Blue led (output)
    IO12,
    /// Green led (output)
    IO13,
    /// Red led (output)
    IO14,
    /// Key direction 1 press (input)
    IO15,
    /// Key center press (input)
    BOOT,
    /// Key direction 2 press (input)
    IO17,
    /// Microphone I2S BCK
    IO18,
    /// Microphone I2S WS
    IO19,
    /// Microphone I2S DAT3
    IO20,
    /// Microphone I2S DAT2
    IO21,
    /// Red led
    RGB_LED_R,
    /// Blue led
    RGB_LED_B,
    /// Green led
    RGB_LED_G,
    /// Microphone LED CLK
    IO25,
    /// SDCARD SPI MISO
    IO26,
    /// SDCARD SPI SCLK
    IO27,
    /// SDCARD SPI MOSI
    IO28,
    /// SDCARD SPI CS
    IO29,
    /// I2C bus 1 SCLK (NS2009, MSA300)
    IO30,
    /// I2C bus 2 SDA (NS2009, MSA300)
    IO31,
    /// General purpose I/O pin
    IO32,
    /// DAC I2S WS
    IO33,
    /// DAC I2S DA
    IO34,
    /// DAC I2S BCK
    IO35,
    /// LCD chip select (output)
    LCD_CS,
    /// LCD reset (output)
    LCD_RST,
    /// LCD Data/Command
    LCD_DC,
    /// LCD SPI SCLK
    LCD_WR,
    /// Camera DVP SDA
    DVP_SDA,
    /// Camera DVP SCL
    DVP_SCL,
    /// Camera DVP RST
    DVP_RST,
    /// Camera DVP VSYNC
    DVP_VSYNC,
    /// Camera DVP PWDN
    DVP_PWDN,
    /// Camera DVP HSYNC
    DVP_HSYNC,
    /// Camera DVP XCLK
    DVP_XCLK,
    /// Camera DVP PCLK
    DVP_PCLK,
}

impl io {
    /// The pin's number on the FPIOA.
    pub open spec fn spec_number(self) -> usize {
        match self {
            io::JTAG_TCK => 0,
            io::JTAG_TDI => 1,
            io::JTAG_TMS => 2,
            io::JTAG_TDO => 3,
            io::ISP_RX => 4,
            io::ISP_TX => 5,
            io::WIFI_TX => 6,
            io::WIFI_RX => 7,
            io::WIFI_EN => 8,
            io::IO9 => 9,
            io::IO10 => 10,
            io::IO11 => 11,
            io::IO12 => 12,
            io::IO13 => 13,
            io::IO14 => 14,
            io::IO15 => 15,
            io::BOOT => 16,
            io::IO17 => 17,
            io::IO18 => 18,
            io::IO19 => 19,
            io::IO20 => 20,
            io::IO21 => 21,
            io::RGB_LED_R => 22,
            io::RGB_LED_B => 23,
            io::RGB_LED_G => 24,
            io::IO25 => 25,
            io::IO26 => 26,
            io::IO27 => 27,
            io::IO28 => 28,
            io::IO29 => 29,
            io::IO30 => 30,
            io::IO31 => 31,
            io::IO32 => 32,
            io::IO33 => 33,
            io::IO34 => 34,
            io::IO35 => 35,
            io::LCD_CS => 36,
            io::LCD_RST => 37,
            io::LCD_DC => 38,
            io::LCD_WR => 39,
            io::DVP_SDA => 40,
            io::DVP_SCL => 41,
            io::DVP_RST => 42,
            io::DVP_VSYNC => 43,
            io::DVP_PWDN => 44,
            io::DVP_HSYNC => 45,
            io::DVP_XCLK => 46,
            io::DVP_PCLK => 47,
        }
    }

    #[verifier::when_used_as_spec(spec_number)]
    pub fn number(self) -> (r: usize)
        ensures
            r == self.spec_number(),
            r < 48,
    {
        match self {
            io::JTAG_TCK => 0,
            io::JTAG_TDI => 1,
            io::JTAG_TMS => 2,
            io::JTAG_TDO => 3,
            io::ISP_RX => 4,
            io::ISP_TX => 5,
            io::WIFI_TX => 6,
            io::WIFI_RX => 7,
            io::WIFI_EN => 8,
            io::IO9 => 9,
            io::IO10 => 10,
            io::IO11 => 11,
            io::IO12 => 12,
            io::IO13 => 13,
            io::IO14 => 14,
            io::IO15 => 15,
            io::BOOT => 16,
            io::IO17 => 17,
            io::IO18 => 18,
            io::IO19 => 19,
            io::IO20 => 20,
            io::IO21 => 21,
            io::RGB_LED_R => 22,
            io::RGB_LED_B => 23,
            io::RGB_LED_G => 24,
            io::IO25 => 25,
            io::IO26 => 26,
            io::IO27 => 27,
            io::IO28 => 28,
            io::IO29 => 29,
            io::IO30 => 30,
            io::IO31 => 31,
            io::IO32 => 32,
            io::IO33 => 33,
            io::IO34 => 34,
            io::IO35 => 35,
            io::LCD_CS => 36,
            io::LCD_RST => 37,
            io::LCD_DC => 38,
            io::LCD_WR => 39,
            io::DVP_SDA => 40,
            io::DVP_SCL => 41,
            io::DVP_RST => 42,
            io::DVP_VSYNC => 43,
            io::DVP_PWDN => 44,
            io::DVP_HSYNC => 45,
            io::DVP_XCLK => 46,
            io::DVP_PCLK => 47,
        }
    }
}

impl From<io> for usize {
    fn from(pin: io) -> (r: usize)
        ensures
            r == pin.spec_number(),
    {
        pin.number()
    }
}

impl vstd::std_specs::convert::FromSpecImpl<io> for usize {
    open spec fn obeys_from_spec() -> bool {
        true
    }

    open spec fn from_spec(pin: io) -> usize {
        pin.spec_number()
    }
}

/// The register address width of a camera sensor on the SCCB bus.
#[allow(non_camel_case_types)]
#[derive(Clone, Copy, PartialEq, Eq, Structural, Debug)]
pub enum addr_len {
    W8,
    W16,
}

/// A pin routed to a GPIO function of the FPIOA: the pin and the GPIO number.
pub type PinRoute = (io, u8);

/// The routing that lights the RGB LED: red, green and blue to GPIO 0, 1 and 2.
pub fn fpioa_init() -> (r: Vec<PinRoute>)
    ensures
        r@ == seq![(io::RGB_LED_R, 0u8), (io::RGB_LED_G, 1u8), (io::RGB_LED_B, 2u8)],
{
    let mut routes: Vec<PinRoute> = Vec::new();
    routes.push((io::RGB_LED_R, 0));
    routes.push((io::RGB_LED_G, 1));
    routes.push((io::RGB_LED_B, 2));
    assert(routes@ =~= seq![(io::RGB_LED_R, 0u8), (io::RGB_LED_G, 1u8), (io::RGB_LED_B, 2u8)]);
    routes
}

} // verus!
