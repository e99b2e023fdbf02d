//! Driver for the HCS-12SS59T 12-digit vacuum-fluorescent display controller.
//!
//! The controller is driven over a chip-select-framed serial bus plus two
//! control lines (reset and an optional supply-voltage enable). The crate
//! covers the byte-level command protocol with its timing discipline, the
//! character-to-glyph mapping of the controller's font table, and a scrolling
//! window over arbitrary-length text for animated output.
//!
//! The driver records every hardware step it attempts — control-line
//! changes, delays and single-byte bus writes — in a ghost transcript of
//! [`protocol::Action`] values, and each operation's contract states the
//! exact step sequence it produces. The hardware itself is reached through
//! the `embedded-hal` traits; those calls are the trusted boundary.

pub mod animation;
pub mod font;
pub mod protocol;

pub use font::FontTable;

use vstd::prelude::*;

verus! {

use embedded_hal::delay::DelayNs;
use embedded_hal::digital::OutputPin;
use embedded_hal::spi::SpiDevice;

use crate::font::spec_char_code;
use crate::font::spec_char_codes;
use crate::font::spec_glyph_code;
use crate::font::spec_glyph_codes;
use crate::font::font_from_char;
use crate::protocol::Action;
use crate::protocol::brightness_actions;
use crate::protocol::cgram_frame;
use crate::protocol::data_frame_actions;
use crate::protocol::dcram_frame_from_glyphs;
use crate::protocol::init_actions;
use crate::protocol::set_char_frame;
use crate::protocol::spec_brightness_trace;
use crate::protocol::spec_cgram_frame;
use crate::protocol::spec_data_frame_trace;
use crate::protocol::spec_dcram_frame;
use crate::protocol::spec_init_trace;
use crate::protocol::spec_no_supply_actions;
use crate::protocol::spec_set_char_frame;
use vstd::string::StrSliceExecFns;

/// Number of digits of the display.
pub const NUM_DIGITS: usize = 12;

/// Errors reported by the driver.
#[derive(Clone, Copy, Debug, PartialEq, Eq, Structural)]
pub enum Error {
    /// The serial bus reported a failure during a transfer.
    Spi,
    /// A control-line (GPIO) operation failed.
    Gpio,
    /// A caller-supplied argument was outside its valid domain.
    InvalidInput,
}

impl Error {
    /// A short description of the error, in words.
    pub fn describe(&self) -> (r: String)
        ensures
            self is Spi ==> r@ == "SPI error"@,
            self is Gpio ==> r@ == "GPIO error"@,
            self is InvalidInput ==> r@ == "invalid input parameter"@,
    {
        match self {
            Error::Spi => "SPI error".to_owned(),
            Error::Gpio => "GPIO error".to_owned(),
            Error::InvalidInput => "invalid input parameter".to_owned(),
        }
    }
}

/// An HCS-12SS59T instance.
///
/// A stateless driver to configure an HCS-12SS59T: it owns the bus and
/// control-line handles for its whole lifetime and keeps no state between
/// calls beyond that ownership. The supply-enable line is optional, for
/// boards without a software-controlled supply; operations on it succeed as
/// no-ops when it is absent.
///
/// Every operation's contract describes, over [`transcript`](Self::transcript),
/// the exact sequence of hardware steps the call attempts. A failed step
/// stops the operation at once, so on an error the transcript has grown by a
/// prefix of the operation's sequence ending at the failed step.
pub struct HCS12SS59T<SPI, RstPin, VdonPin, Delay, CsPin> {
    spi: SPI,
    n_reset: RstPin,
    n_vdon: Option<VdonPin>,
    delay: Delay,
    cs: CsPin,
    log: Ghost<Seq<Action>>,
}

impl<SPI, RstPin, VdonPin, Delay, CsPin> HCS12SS59T<SPI, RstPin, VdonPin, Delay, CsPin> {
    /// The hardware steps attempted so far, in order.
    pub closed spec fn transcript(&self) -> Seq<Action> {
        self.log@
    }

    /// Whether a supply-enable line was configured.
    pub closed spec fn has_supply(&self) -> bool {
        self.n_vdon is Some
    }

    /// The owned handles, in the order `destroy` returns them.
    pub closed spec fn parts(&self) -> (SPI, RstPin, Delay, Option<VdonPin>, CsPin) {
        (self.spi, self.n_reset, self.delay, self.n_vdon, self.cs)
    }
}

impl<SPI, RstPin, VdonPin, Delay, CsPin> HCS12SS59T<SPI, RstPin, VdonPin, Delay, CsPin> where
    RstPin: OutputPin,
    VdonPin: OutputPin,
 {
    /// Constructs a new HCS12SS59T.
    ///
    /// Initialization has to be done separately by calling
    /// [init()](Self::init()). A dedicated chip-select pin and a delay source
    /// are needed because of the timing restrictions of the HCS-12SS59T.
    pub fn new(spi: SPI, n_reset: RstPin, delay: Delay, n_vdon: Option<VdonPin>, cs: CsPin) -> (r:
        Self)
        ensures
            r.transcript() == Seq::<Action>::empty(),
            r.has_supply() == (n_vdon is Some),
            r.parts() == (spi, n_reset, delay, n_vdon, cs),
    {
        HCS12SS59T { spi, n_reset, n_vdon, delay, cs, log: Ghost(Seq::empty()) }
    }

    /// Returns the underlying handles to the caller.
    pub fn destroy(self) -> (r: (SPI, RstPin, Delay, Option<VdonPin>, CsPin))
        ensures
            r == self.parts(),
    {
        (self.spi, self.n_reset, self.delay, self.n_vdon, self.cs)
    }

    /// Relies on `embedded_hal::digital::OutputPin::set_low` on the
    /// supply-enable line: the supply is active-low, so driving the line low
    /// turns the display voltage on.
    #[verifier::external_body]
    fn supply_on(&mut self) -> (r: Result<(), Error>)
        requires
            old(self).has_supply(),
        ensures
            final(self).transcript() == old(self).transcript().push(Action::SupplyOn),
            final(self).has_supply() == old(self).has_supply(),
            r matches Err(e) ==> e == Error::Gpio,
    {
        if let Some(pin) = self.n_vdon.as_mut() {
            pin.set_low().map_err(|_| Error::Gpio)
        } else {
            Ok(())
        }
    }

    /// Relies on `embedded_hal::digital::OutputPin::set_high` on the
    /// supply-enable line: the supply is active-low, so driving the line high
    /// turns the display voltage off.
    #[verifier::external_body]
    fn supply_off(&mut self) -> (r: Result<(), Error>)
        requires
            old(self).has_supply(),
        ensures
            final(self).transcript() == old(self).transcript().push(Action::SupplyOff),
            final(self).has_supply() == old(self).has_supply(),
            r matches Err(e) ==> e == Error::Gpio,
    {
        if let Some(pin) = self.n_vdon.as_mut() {
            pin.set_high().map_err(|_| Error::Gpio)
        } else {
            Ok(())
        }
    }

    /// Turns the supply voltage off; a no-op without a supply pin.
    pub fn vd_off(&mut self) -> (r: Result<(), Error>)
        ensures
            final(self).has_supply() == old(self).has_supply(),
            old(self).has_supply() ==> final(self).transcript() == old(self).transcript().push(
                Action::SupplyOff,
            ),
            !old(self).has_supply() ==> r is Ok && final(self).transcript() == old(self).transcript(),
            r matches Err(e) ==> e == Error::Gpio,
    {
        if self.n_vdon.is_some() {
            self.supply_off()
        } else {
            Ok(())
        }
    }

    /// Turns the supply voltage on; a no-op without a supply pin.
    pub fn vd_on(&mut self) -> (r: Result<(), Error>)
        ensures
            final(self).has_supply() == old(self).has_supply(),
            old(self).has_supply() ==> final(self).transcript() == old(self).transcript().push(
                Action::SupplyOn,
            ),
            !old(self).has_supply() ==> r is Ok && final(self).transcript() == old(self).transcript(),
            r matches Err(e) ==> e == Error::Gpio,
    {
        if self.n_vdon.is_some() {
            self.supply_on()
        } else {
            Ok(())
        }
    }
}

impl<SPI, RstPin, VdonPin, Delay, CsPin> HCS12SS59T<SPI, RstPin, VdonPin, Delay, CsPin> where
    SPI: SpiDevice,
    RstPin: OutputPin,
    VdonPin: OutputPin,
    CsPin: OutputPin,
    Delay: DelayNs,
 {
    /// Relies on `embedded_hal::digital::OutputPin::set_low` on the reset
    /// line.
    #[verifier::external_body]
    fn reset_low(&mut self) -> (r: Result<(), Error>)
        ensures
            final(self).transcript() == old(self).transcript().push(Action::ResetLow),
            final(self).has_supply() == old(self).has_supply(),
            r matches Err(e) ==> e == Error::Gpio,
    {
        self.n_reset.set_low().map_err(|_| Error::Gpio)
    }

    /// Relies on `embedded_hal::digital::OutputPin::set_high` on the reset
    /// line.
    #[verifier::external_body]
    fn reset_high(&mut self) -> (r: Result<(), Error>)
        ensures
            final(self).transcript() == old(self).transcript().push(Action::ResetHigh),
            final(self).has_supply() == old(self).has_supply(),
            r matches Err(e) ==> e == Error::Gpio,
    {
        self.n_reset.set_high().map_err(|_| Error::Gpio)
    }

    /// Relies on `embedded_hal::digital::OutputPin::set_low` on the
    /// chip-select line.
    #[verifier::external_body]
    fn cs_low(&mut self) -> (r: Result<(), Error>)
        ensures
            final(self).transcript() == old(self).transcript().push(Action::CsLow),
            final(self).has_supply() == old(self).has_supply(),
            r matches Err(e) ==> e == Error::Gpio,
    {
        self.cs.set_low().map_err(|_| Error::Gpio)
    }

    /// Relies on `embedded_hal::digital::OutputPin::set_high` on the
    /// chip-select line.
    #[verifier::external_body]
    fn cs_high(&mut self) -> (r: Result<(), Error>)
        ensures
            final(self).transcript() == old(self).transcript().push(Action::CsHigh),
            final(self).has_supply() == old(self).has_supply(),
            r matches Err(e) ==> e == Error::Gpio,
    {
        self.cs.set_high().map_err(|_| Error::Gpio)
    }

    /// Relies on `embedded_hal::spi::SpiDevice::write`: transmits the byte
    /// as one bus transaction of its own.
    #[verifier::external_body]
    fn spi_write_byte(&mut self, b: u8) -> (r: Result<(), Error>)
        ensures
            final(self).transcript() == old(self).transcript().push(Action::WriteByte(b)),
            final(self).has_supply() == old(self).has_supply(),
            r matches Err(e) ==> e == Error::Spi,
    {
        self.spi.write(&[b]).map_err(|_| Error::Spi)
    }

    /// Relies on `embedded_hal::delay::DelayNs::delay_us`: pauses for at
    /// least the given number of microseconds and cannot fail.
    #[verifier::external_body]
    fn delay_us(&mut self, us: u32)
        ensures
            final(self).transcript() == old(self).transcript().push(Action::DelayMicros(us)),
            final(self).has_supply() == old(self).has_supply(),
    {
        self.delay.delay_us(us);
    }

    /// Performs a planned step sequence, stopping at the first failed step.
    fn run_actions(&mut self, acts: &Vec<Action>) -> (r: Result<(), Error>)
        requires
            old(self).has_supply() || spec_no_supply_actions(acts@),
        ensures
            final(self).has_supply() == old(self).has_supply(),
            acts@.len() == 0 ==> r is Ok,
            r is Ok ==> final(self).transcript() == old(self).transcript() + acts@,
            r matches Err(e) ==> (e == Error::Gpio || e == Error::Spi),
            r is Err ==> exists|n: int|
                0 <= n <= acts@.len() && final(self).transcript() == old(self).transcript()
                    + acts@.subrange(0, n),
    {
        let mut i: usize = 0;
        while i < acts.len()
            invariant
                i <= acts@.len(),
                self.has_supply() == old(self).has_supply(),
                old(self).has_supply() || spec_no_supply_actions(acts@),
                self.transcript() == old(self).transcript() + acts@.subrange(0, i as int),
            decreases acts@.len() - i,
        {
            let a = acts[i];
            let step: Result<(), Error> = match a {
                Action::ResetLow => self.reset_low(),
                Action::ResetHigh => self.reset_high(),
                Action::SupplyOn => {
                    proof {
                        if !self.has_supply() {
                            assert(!((acts@[i as int]) is SupplyOn));
                        }
                    }
                    self.supply_on()
                },
                Action::SupplyOff => {
                    proof {
                        if !self.has_supply() {
                            assert(!((acts@[i as int]) is SupplyOff));
                        }
                    }
                    self.supply_off()
                },
                Action::CsLow => self.cs_low(),
                Action::CsHigh => self.cs_high(),
                Action::DelayMicros(us) => {
                    self.delay_us(us);
                    Ok(())
                },
                Action::WriteByte(b) => self.spi_write_byte(b),
            };
            proof {
                assert(acts@.subrange(0, i as int).push(acts@[i as int]) =~= acts@.subrange(
                    0,
                    i + 1,
                ));
            }
            if let Err(e) = step {
                proof {
                    assert(0 <= i + 1 <= acts@.len() && self.transcript() == old(self).transcript()
                        + acts@.subrange(0, i + 1));
                }
                return Err(e);
            }
            i = i + 1;
        }
        proof {
            assert(acts@.subrange(0, acts@.len() as int) =~= acts@);
        }
        Ok(())
    }

    /// Initializes the VFD display.
    ///
    /// Resets the display, turns on the supply voltage and issues the three
    /// configuration commands: digit count 12, display duty (brightness) 7,
    /// lighting mode normal — exactly the steps of
    /// [`spec_init_trace`](crate::protocol::spec_init_trace). On a failure
    /// the display is left partially initialized; the caller decides whether
    /// to retry from scratch.
    pub fn init(&mut self) -> (r: Result<(), Error>)
        ensures
            final(self).has_supply() == old(self).has_supply(),
            r is Ok ==> final(self).transcript() == old(self).transcript() + spec_init_trace(
                old(self).has_supply(),
            ),
            r matches Err(e) ==> (e == Error::Gpio || e == Error::Spi),
            r is Err ==> exists|n: int|
                0 <= n <= spec_init_trace(old(self).has_supply()).len() && final(self).transcript()
                    == old(self).transcript() + spec_init_trace(old(self).has_supply()).subrange(
                    0,
                    n,
                ),
    {
        let has = self.n_vdon.is_some();
        let acts = init_actions(has);
        self.run_actions(&acts)
    }

    /// Sets the brightness (duty cycle) of the display.
    ///
    /// Level `0` turns the supply voltage off (no bus write at all); levels
    /// `1..=15` turn the supply on and issue the display-duty command. Any
    /// level above `15` is rejected with [`Error::InvalidInput`] before any
    /// hardware step.
    pub fn brightness(&mut self, brightness: u8) -> (r: Result<(), Error>)
        ensures
            final(self).has_supply() == old(self).has_supply(),
            brightness > 15 ==> (r matches Err(e) && e == Error::InvalidInput && final(self).transcript() == old(self).transcript()),
            brightness <= 15 && r is Ok ==> final(self).transcript() == old(self).transcript()
                + spec_brightness_trace(old(self).has_supply(), brightness),
            r matches Err(e) ==> (brightness <= 15 ==> (e == Error::Gpio || e == Error::Spi) && exists|n: int|
                0 <= n <= spec_brightness_trace(old(self).has_supply(), brightness).len() && final(self).transcript() == old(self).transcript() + spec_brightness_trace(
                    old(self).has_supply(),
                    brightness,
                ).subrange(0, n)),
            brightness == 0 && !old(self).has_supply() ==> r is Ok,
    {
        let has = self.n_vdon.is_some();
        let acts = match brightness_actions(has, brightness) {
            Ok(a) => a,
            Err(e) => {
                return Err(e);
            },
        };
        self.run_actions(&acts)
    }

    /// Transmits arbitrary bytes to the display controller, framed like every
    /// other bulk transfer, for advanced or undocumented controller features.
    pub fn write_buf(&mut self, buf: &[u8]) -> (r: Result<(), Error>)
        ensures
            final(self).has_supply() == old(self).has_supply(),
            r is Ok ==> final(self).transcript() == old(self).transcript() + spec_data_frame_trace(
                buf@,
            ),
            r matches Err(e) ==> (e == Error::Gpio || e == Error::Spi),
            r is Err ==> exists|n: int|
                0 <= n <= spec_data_frame_trace(buf@).len() && final(self).transcript() == old(self).transcript() + spec_data_frame_trace(buf@).subrange(0, n),
    {
        let acts = data_frame_actions(buf);
        self.run_actions(&acts)
    }

    /// Writes glyphs to the display RAM in one bulk frame.
    ///
    /// The first glyph lands in the highest-address digit, unfilled positions
    /// stay blank, and glyphs beyond the display width are dropped.
    pub fn display(&mut self, data: &[FontTable]) -> (r: Result<(), Error>)
        ensures
            final(self).has_supply() == old(self).has_supply(),
            r is Ok ==> final(self).transcript() == old(self).transcript() + spec_data_frame_trace(
                spec_dcram_frame(spec_glyph_codes(data@)),
            ),
            r matches Err(e) ==> (e == Error::Gpio || e == Error::Spi),
            r is Err ==> exists|n: int|
                0 <= n <= spec_data_frame_trace(
                    spec_dcram_frame(spec_glyph_codes(data@)),
                ).len() && final(self).transcript() == old(self).transcript()
                    + spec_data_frame_trace(
                    spec_dcram_frame(spec_glyph_codes(data@)),
                ).subrange(0, n),
    {
        let frame = dcram_frame_from_glyphs(data);
        let acts = data_frame_actions(frame.as_slice());
        self.run_actions(&acts)
    }

    /// Displays a string.
    ///
    /// Characters are mapped through the font table (unsupported ones become
    /// the replacement glyph), the first character lands in the
    /// highest-address digit, and strings longer than the display are
    /// truncated.
    pub fn display_str(&mut self, text: &str) -> (r: Result<(), Error>)
        ensures
            final(self).has_supply() == old(self).has_supply(),
            r is Ok ==> final(self).transcript() == old(self).transcript() + spec_data_frame_trace(
                spec_dcram_frame(spec_char_codes(text@)),
            ),
            r matches Err(e) ==> (e == Error::Gpio || e == Error::Spi),
            r is Err ==> exists|n: int|
                0 <= n <= spec_data_frame_trace(
                    spec_dcram_frame(spec_char_codes(text@)),
                ).len() && final(self).transcript() == old(self).transcript()
                    + spec_data_frame_trace(
                    spec_dcram_frame(spec_char_codes(text@)),
                ).subrange(0, n),
    {
        let len = text.unicode_len();
        let mut glyphs: Vec<FontTable> = Vec::new();
        let mut i: usize = 0;
        while i < len && i < NUM_DIGITS
            invariant
                i <= len,
                i <= NUM_DIGITS,
                len == text@.len(),
                glyphs@.len() == i,
                forall|j: int|
                    0 <= j < i ==> spec_glyph_code(#[trigger] glyphs@[j]) == spec_char_code(
                        text@[j],
                    ),
            decreases len - i,
        {
            glyphs.push(font_from_char(text.get_char(i)));
            i = i + 1;
        }
        proof {
            let gmap = spec_glyph_codes(glyphs@);
            let cmap = spec_char_codes(text@);
            assert forall|p: int| 0 <= p < (NUM_DIGITS + 1) as int implies spec_dcram_frame(gmap)[p]
                == spec_dcram_frame(cmap)[p] by {
                if p >= 1 {
                    let j = NUM_DIGITS - p;
                    if j < text@.len() {
                        assert(j < glyphs@.len());
                        assert(gmap[j] == spec_glyph_code(glyphs@[j]));
                        assert(cmap[j] == spec_char_code(text@[j]));
                    }
                }
            }
            assert(spec_dcram_frame(gmap) =~= spec_dcram_frame(cmap));
        }
        self.display(glyphs.as_slice())
    }

    /// Writes a single glyph to one digit-RAM address.
    ///
    /// The HCS-12SS59T has 16 bytes of digit RAM, of which addresses `0..12`
    /// drive the connected digits; the address is masked to 4 bits to match
    /// the hardware addressing.
    pub fn set_char(&mut self, addr: u8, ch: FontTable) -> (r: Result<(), Error>)
        ensures
            final(self).has_supply() == old(self).has_supply(),
            r is Ok ==> final(self).transcript() == old(self).transcript() + spec_data_frame_trace(
                spec_set_char_frame(addr, ch),
            ),
            r matches Err(e) ==> (e == Error::Gpio || e == Error::Spi),
            r is Err ==> exists|n: int|
                0 <= n <= spec_data_frame_trace(spec_set_char_frame(addr, ch)).len() && final(self).transcript() == old(self).transcript() + spec_data_frame_trace(
                    spec_set_char_frame(addr, ch),
                ).subrange(0, n),
    {
        let frame = set_char_frame(addr, ch);
        let acts = data_frame_actions(frame.as_slice());
        self.run_actions(&acts)
    }

    /// Writes a two-byte segment pattern to one of the 16 custom-pattern
    /// (CGRAM) addresses.
    ///
    /// Valid addresses are the CGRAM entries of the font table
    /// ([`Ram0`](FontTable::Ram0) to [`RamF`](FontTable::RamF)); any other
    /// entry is rejected with [`Error::InvalidInput`] before any hardware
    /// step. The pattern holds 16 segment bits; on a 14-segment display two
    /// of them are don't-care.
    pub fn set_cgram_pattern(&mut self, addr: FontTable, pattern: [u8; 2]) -> (r: Result<
        (),
        Error,
    >)
        ensures
            final(self).has_supply() == old(self).has_supply(),
            spec_glyph_code(addr) > 0x0F ==> (r matches Err(e) && e == Error::InvalidInput && final(self).transcript() == old(self).transcript()),
            spec_glyph_code(addr) <= 0x0F && r is Ok ==> final(self).transcript() == old(self).transcript() + spec_data_frame_trace(spec_cgram_frame(addr, pattern@)),
            r matches Err(e) ==> (spec_glyph_code(addr) <= 0x0F ==> (e == Error::Gpio || e == Error::Spi) && exists|n: int|
                0 <= n <= spec_data_frame_trace(spec_cgram_frame(addr, pattern@)).len() && final(self).transcript() == old(self).transcript() + spec_data_frame_trace(
                    spec_cgram_frame(addr, pattern@),
                ).subrange(0, n)),
    {
        let frame = match cgram_frame(addr, pattern) {
            Ok(f) => f,
            Err(e) => {
                return Err(e);
            },
        };
        let acts = data_frame_actions(frame.as_slice());
        self.run_actions(&acts)
    }
}

} // verus!
