//! The byte-level command protocol of the HCS-12SS59T controller.
//!
//! Every logical operation of the driver is a fixed sequence of hardware
//! steps — control-line changes, delays and single-byte bus writes — modelled
//! here as [`Action`] values. The spec functions state the exact sequence
//! each operation must produce, including the timing discipline the
//! controller demands: chip-select framing, a settle delay after asserting
//! chip-select, one bus transaction per byte with a fixed inter-byte delay,
//! and a trailing delay before chip-select is released. The executable
//! builders produce those sequences for the driver and are proved against
//! the spec functions.

use vstd::prelude::*;

verus! {

use crate::Error;
use crate::NUM_DIGITS;
use crate::font::FontTable;
use crate::font::glyph_to_code;
use crate::font::spec_glyph_code;
use crate::font::spec_glyph_codes;

/// One hardware step of the driver: a control-line change, a delay, or a
/// single-byte bus write.
///
/// Supply-line actions describe the supply voltage logically (`SupplyOn`
/// turns the display voltage on); at the pin level the supply enable is
/// active-low.
#[derive(Clone, Copy, Debug, PartialEq, Eq, Structural)]
pub enum Action {
    /// Drive the reset line low.
    ResetLow,
    /// Drive the reset line high.
    ResetHigh,
    /// Turn the supply voltage on (drives the supply-enable line low).
    SupplyOn,
    /// Turn the supply voltage off (drives the supply-enable line high).
    SupplyOff,
    /// Assert chip-select (drive it low).
    CsLow,
    /// Deassert chip-select (drive it high).
    CsHigh,
    /// Wait for at least the given number of microseconds.
    DelayMicros(u32),
    /// Transmit one byte as a bus transaction of its own.
    WriteByte(u8),
}

/// The controller's commands: each occupies the high nibble of a command
/// byte, with a 4-bit argument or address in the low nibble. The address-RAM
/// command is reserved for advanced use and currently issued by no operation.
#[allow(dead_code)]
#[derive(Clone, Copy, Debug, PartialEq, Eq, Structural)]
pub(crate) enum Command {
    DCRamWrite,
    CGRamWrite,
    ADRamWrite,
    DisplayDutySet,
    NumDigitsSet,
    Lights,
}

/// The high-nibble base byte of a command.
pub(crate) open spec fn spec_command_code(c: Command) -> u8 {
    match c {
        Command::DCRamWrite => 0x10,
        Command::CGRamWrite => 0x20,
        Command::ADRamWrite => 0x30,
        Command::DisplayDutySet => 0x50,
        Command::NumDigitsSet => 0x60,
        Command::Lights => 0x70,
    }
}

pub(crate) fn command_code(c: Command) -> (r: u8)
    ensures
        r == spec_command_code(c),
{
    match c {
        Command::DCRamWrite => 0x10,
        Command::CGRamWrite => 0x20,
        Command::ADRamWrite => 0x30,
        Command::DisplayDutySet => 0x50,
        Command::NumDigitsSet => 0x60,
        Command::Lights => 0x70,
    }
}

/// Arguments of the lighting-mode command; initialization uses the normal
/// mode only.
#[allow(dead_code)]
#[derive(Clone, Copy, Debug, PartialEq, Eq, Structural)]
pub(crate) enum Lighting {
    Normal,
    Off,
    On,
}

/// The 4-bit argument of the lighting-mode command.
pub(crate) open spec fn spec_lighting_code(l: Lighting) -> u8 {
    match l {
        Lighting::Normal => 0x00,
        Lighting::Off => 0x01,
        Lighting::On => 0x02,
    }
}

pub(crate) fn lighting_code(l: Lighting) -> (r: u8)
    ensures
        r == spec_lighting_code(l),
{
    match l {
        Lighting::Normal => 0x00,
        Lighting::Off => 0x01,
        Lighting::On => 0x02,
    }
}

/// The frame that transmits one single-byte command: chip-select asserted,
/// a 5 µs settle delay, the command byte, a 20 µs trailing delay, and
/// chip-select released.
pub open spec fn spec_cmd_frame_trace(b: u8) -> Seq<Action> {
    seq![
        Action::CsLow,
        Action::DelayMicros(5),
        Action::WriteByte(b),
        Action::DelayMicros(20),
        Action::CsHigh,
    ]
}

/// The body of a bulk-data frame: each byte as a bus transaction of its own,
/// followed by the 8 µs inter-byte delay the controller needs to process it.
pub open spec fn spec_byte_writes(bytes: Seq<u8>) -> Seq<Action>
    decreases bytes.len(),
{
    if bytes.len() == 0 {
        Seq::empty()
    } else {
        seq![Action::WriteByte(bytes[0]), Action::DelayMicros(8)] + spec_byte_writes(bytes.skip(1))
    }
}

/// The frame that transmits a byte sequence: chip-select asserted, a 1 µs
/// settle delay, the bytes with their inter-byte delays, a 12 µs trailing
/// delay, and chip-select released.
pub open spec fn spec_data_frame_trace(bytes: Seq<u8>) -> Seq<Action> {
    seq![Action::CsLow, Action::DelayMicros(1)] + spec_byte_writes(bytes) + seq![
        Action::DelayMicros(12),
        Action::CsHigh,
    ]
}

/// The initialization sequence: reset pulsed low for 25 µs then high,
/// a 5 µs wait, supply on (when a supply line exists), then exactly three
/// command frames in fixed order — digit count 12 (`0x6C`), display duty 7
/// (`0x57`), lighting mode normal (`0x70`).
pub open spec fn spec_init_trace(has_supply: bool) -> Seq<Action> {
    seq![
        Action::ResetLow,
        Action::DelayMicros(25),
        Action::ResetHigh,
        Action::DelayMicros(5),
    ] + (if has_supply {
        seq![Action::SupplyOn]
    } else {
        Seq::<Action>::empty()
    }) + spec_cmd_frame_trace(0x6C) + spec_cmd_frame_trace(0x57) + spec_cmd_frame_trace(0x70)
}

/// The steps of a brightness change: level `0` turns the supply off (when a
/// supply line exists) and writes nothing to the bus; levels `1..=15` turn
/// the supply on and issue the display-duty command with that level. Levels
/// above `15` are invalid and have no steps at all.
pub open spec fn spec_brightness_trace(has_supply: bool, level: u8) -> Seq<Action> {
    if level == 0 {
        if has_supply {
            seq![Action::SupplyOff]
        } else {
            Seq::<Action>::empty()
        }
    } else if level <= 15 {
        (if has_supply {
            seq![Action::SupplyOn]
        } else {
            Seq::<Action>::empty()
        }) + spec_cmd_frame_trace(0x50 | level)
    } else {
        Seq::<Action>::empty()
    }
}

/// The bulk digit-RAM frame for a sequence of glyph codes: the digit-RAM
/// write command at address 0, then one byte per digit. The first code lands
/// in the highest-address digit (the frame is filled back to front), unfilled
/// positions stay at the blank code `0x30`, and codes beyond the display
/// width are dropped.
pub open spec fn spec_dcram_frame(codes: Seq<u8>) -> Seq<u8> {
    Seq::new(
        (NUM_DIGITS + 1) as nat,
        |i: int|
            if i == 0 {
                0x10u8
            } else {
                if NUM_DIGITS - i < codes.len() {
                    codes[NUM_DIGITS - i]
                } else {
                    0x30u8
                }
            },
    )
}

/// The two-byte frame that writes one glyph to one digit-RAM address; the
/// address is masked to the controller's 4 address bits.
pub open spec fn spec_set_char_frame(addr: u8, g: FontTable) -> Seq<u8> {
    seq![0x10u8 | (addr & 0x0F), spec_glyph_code(g)]
}

/// The three-byte frame that writes a two-byte segment pattern to one
/// custom-pattern (CGRAM) address. Meaningful for the sixteen CGRAM entries,
/// whose codes are the addresses `0x00..=0x0F`.
pub open spec fn spec_cgram_frame(addr: FontTable, pattern: Seq<u8>) -> Seq<u8> {
    seq![0x20u8 | spec_glyph_code(addr)] + pattern
}

/// Whether a step sequence never touches the supply line. Sequences run on a
/// driver without a supply line must satisfy this.
pub open spec fn spec_no_supply_actions(t: Seq<Action>) -> bool {
    forall|i: int|
        0 <= i < t.len() ==> !((#[trigger] t[i]) is SupplyOn) && !(t[i] is SupplyOff)
}

proof fn lemma_no_supply_push(t: Seq<Action>, a: Action)
    requires
        spec_no_supply_actions(t),
        !(a is SupplyOn),
        !(a is SupplyOff),
    ensures
        spec_no_supply_actions(t.push(a)),
{
    assert forall|i: int| 0 <= i < t.push(a).len() implies !((#[trigger] t.push(a)[i]) is SupplyOn)
        && !(t.push(a)[i] is SupplyOff) by {
        if i < t.len() {
            assert(t.push(a)[i] == t[i]);
        } else {
            assert(t.push(a)[i] == a);
        }
    }
}

proof fn lemma_no_supply_append(a: Seq<Action>, b: Seq<Action>)
    requires
        spec_no_supply_actions(a),
        spec_no_supply_actions(b),
    ensures
        spec_no_supply_actions(a + b),
{
    assert forall|i: int| 0 <= i < (a + b).len() implies !((#[trigger] (a + b)[i]) is SupplyOn)
        && !((a + b)[i] is SupplyOff) by {
        if i < a.len() {
            assert((a + b)[i] == a[i]);
        } else {
            assert((a + b)[i] == b[i - a.len()]);
        }
    }
}

/// Builds the command frame for one command byte.
pub fn cmd_frame_actions(b: u8) -> (v: Vec<Action>)
    ensures
        v@ == spec_cmd_frame_trace(b),
        spec_no_supply_actions(v@),
{
    let mut v: Vec<Action> = Vec::new();
    v.push(Action::CsLow);
    v.push(Action::DelayMicros(5));
    v.push(Action::WriteByte(b));
    v.push(Action::DelayMicros(20));
    v.push(Action::CsHigh);
    proof {
        assert(v@ =~= spec_cmd_frame_trace(b));
    }
    v
}

proof fn lemma_byte_writes_push(bytes: Seq<u8>, b: u8)
    ensures
        spec_byte_writes(bytes.push(b)) == spec_byte_writes(bytes) + seq![
            Action::WriteByte(b),
            Action::DelayMicros(8),
        ],
    decreases bytes.len(),
{
    if bytes.len() == 0 {
        assert(bytes.push(b)[0] == b);
        assert(bytes.push(b).skip(1) =~= Seq::<u8>::empty());
        assert(bytes =~= Seq::<u8>::empty());
        assert(spec_byte_writes(Seq::<u8>::empty()) == Seq::<Action>::empty());
        assert(spec_byte_writes(bytes.push(b)) == seq![
            Action::WriteByte(b),
            Action::DelayMicros(8),
        ] + Seq::<Action>::empty());
        assert(spec_byte_writes(bytes.push(b)) =~= spec_byte_writes(bytes) + seq![
            Action::WriteByte(b),
            Action::DelayMicros(8),
        ]);
    } else {
        assert(bytes.push(b)[0] == bytes[0]);
        assert(bytes.push(b).skip(1) =~= bytes.skip(1).push(b));
        lemma_byte_writes_push(bytes.skip(1), b);
        assert(spec_byte_writes(bytes.push(b)) == seq![
            Action::WriteByte(bytes[0]),
            Action::DelayMicros(8),
        ] + (spec_byte_writes(bytes.skip(1)) + seq![Action::WriteByte(b), Action::DelayMicros(8)]));
        assert(spec_byte_writes(bytes) == seq![
            Action::WriteByte(bytes[0]),
            Action::DelayMicros(8),
        ] + spec_byte_writes(bytes.skip(1)));
        assert(spec_byte_writes(bytes.push(b)) =~= spec_byte_writes(bytes) + seq![
            Action::WriteByte(b),
            Action::DelayMicros(8),
        ]);
    }
}

/// Builds the bulk-data frame for a byte sequence.
pub fn data_frame_actions(bytes: &[u8]) -> (v: Vec<Action>)
    ensures
        v@ == spec_data_frame_trace(bytes@),
        spec_no_supply_actions(v@),
{
    let mut v: Vec<Action> = Vec::new();
    v.push(Action::CsLow);
    v.push(Action::DelayMicros(1));
    let mut i: usize = 0;
    while i < bytes.len()
        invariant
            i <= bytes@.len(),
            v@ == seq![Action::CsLow, Action::DelayMicros(1)] + spec_byte_writes(
                bytes@.take(i as int),
            ),
            spec_no_supply_actions(v@),
        decreases bytes@.len() - i,
    {
        let b = bytes[i];
        proof {
            lemma_no_supply_push(v@, Action::WriteByte(b));
            lemma_no_supply_push(v@.push(Action::WriteByte(b)), Action::DelayMicros(8));
        }
        v.push(Action::WriteByte(b));
        v.push(Action::DelayMicros(8));
        proof {
            lemma_byte_writes_push(bytes@.take(i as int), b);
            assert(bytes@.take(i as int).push(b) =~= bytes@.take(i + 1));
            assert(v@ =~= seq![Action::CsLow, Action::DelayMicros(1)] + spec_byte_writes(
                bytes@.take(i + 1),
            ));
        }
        i = i + 1;
    }
    proof {
        assert(bytes@.take(bytes@.len() as int) =~= bytes@);
        lemma_no_supply_push(v@, Action::DelayMicros(12));
        lemma_no_supply_push(v@.push(Action::DelayMicros(12)), Action::CsHigh);
    }
    v.push(Action::DelayMicros(12));
    v.push(Action::CsHigh);
    proof {
        assert(v@ =~= spec_data_frame_trace(bytes@));
    }
    v
}

/// Builds the initialization sequence.
pub fn init_actions(has_supply: bool) -> (v: Vec<Action>)
    ensures
        v@ == spec_init_trace(has_supply),
        !has_supply ==> spec_no_supply_actions(v@),
{
    let mut v: Vec<Action> = Vec::new();
    v.push(Action::ResetLow);
    v.push(Action::DelayMicros(25));
    v.push(Action::ResetHigh);
    v.push(Action::DelayMicros(5));
    if has_supply {
        v.push(Action::SupplyOn);
    }
    let ghost head = v@;
    proof {
        if !has_supply {
            assert(spec_no_supply_actions(head)) by {
                assert forall|i: int| 0 <= i < head.len() implies !((#[trigger] head[i])
                    is SupplyOn) && !(head[i] is SupplyOff) by {
                    if i == 0 {
                    } else if i == 1 {
                    } else if i == 2 {
                    } else {
                        assert(i == 3);
                    }
                }
            }
        }
    }
    let mut c1 = cmd_frame_actions(command_code(Command::NumDigitsSet) | (12u8 & 0x0F));
    let mut c2 = cmd_frame_actions(command_code(Command::DisplayDutySet) | (7u8 & 0x0F));
    let mut c3 = cmd_frame_actions(command_code(Command::Lights) | (lighting_code(Lighting::Normal) & 0x0F));
    proof {
        if !has_supply {
            lemma_no_supply_append(head, c1@);
            lemma_no_supply_append(head + c1@, c2@);
            lemma_no_supply_append(head + c1@ + c2@, c3@);
        }
        assert(0x60u8 | (12u8 & 0x0F) == 0x6C) by (bit_vector);
        assert(0x50u8 | (7u8 & 0x0F) == 0x57) by (bit_vector);
        assert(0x70u8 | (0x00u8 & 0x0F) == 0x70) by (bit_vector);
    }
    v.append(&mut c1);
    v.append(&mut c2);
    v.append(&mut c3);
    proof {
        assert(v@ =~= spec_init_trace(has_supply));
    }
    v
}

/// Decides the steps of a brightness change, rejecting levels above `15`
/// before any hardware step is planned.
pub fn brightness_actions(has_supply: bool, level: u8) -> (r: Result<Vec<Action>, Error>)
    ensures
        level <= 15 ==> (r matches Ok(v) && v@ == spec_brightness_trace(has_supply, level)),
        level <= 15 && !has_supply ==> (r matches Ok(v) && spec_no_supply_actions(v@)),
        level > 15 ==> r == Err::<Vec<Action>, Error>(Error::InvalidInput),
{
    if level == 0 {
        let mut v: Vec<Action> = Vec::new();
        if has_supply {
            v.push(Action::SupplyOff);
        }
        proof {
            assert(v@ =~= spec_brightness_trace(has_supply, 0));
        }
        Ok(v)
    } else if level <= 15 {
        let mut v: Vec<Action> = Vec::new();
        if has_supply {
            v.push(Action::SupplyOn);
        }
        let ghost head = v@;
        let mut frame = cmd_frame_actions(command_code(Command::DisplayDutySet) | (level & 0x0F));
        proof {
            if !has_supply {
                lemma_no_supply_append(head, frame@);
            }
            assert(level <= 15 ==> (0x50u8 | (level & 0x0F)) == (0x50u8 | level)) by (bit_vector);
        }
        v.append(&mut frame);
        proof {
            assert(v@ =~= spec_brightness_trace(has_supply, level));
        }
        Ok(v)
    } else {
        Err(Error::InvalidInput)
    }
}

/// Builds the bulk digit-RAM frame for a sequence of glyphs.
pub fn dcram_frame_from_glyphs(data: &[FontTable]) -> (v: Vec<u8>)
    ensures
        v@ == spec_dcram_frame(spec_glyph_codes(data@)),
{
    let ghost codes = spec_glyph_codes(data@);
    let mut v: Vec<u8> = Vec::new();
    v.push(command_code(Command::DCRamWrite));
    let mut i: usize = 1;
    while i <= NUM_DIGITS
        invariant
            1 <= i <= NUM_DIGITS + 1,
            codes == spec_glyph_codes(data@),
            v@.len() == i,
            v@ == spec_dcram_frame(codes).take(i as int),
        decreases NUM_DIGITS + 1 - i,
    {
        let j = NUM_DIGITS - i;
        let b = if j < data.len() {
            glyph_to_code(data[j])
        } else {
            0x30
        };
        v.push(b);
        proof {
            assert(v@ =~= spec_dcram_frame(codes).take(i + 1));
        }
        i = i + 1;
    }
    proof {
        assert(v@ =~= spec_dcram_frame(codes));
    }
    v
}

/// Builds the two-byte frame that writes one glyph to one digit-RAM address.
pub fn set_char_frame(addr: u8, g: FontTable) -> (v: Vec<u8>)
    ensures
        v@ == spec_set_char_frame(addr, g),
{
    let mut v: Vec<u8> = Vec::new();
    v.push(command_code(Command::DCRamWrite) | (addr & 0x0F));
    v.push(glyph_to_code(g));
    proof {
        assert(v@ =~= spec_set_char_frame(addr, g));
    }
    v
}

/// Builds the three-byte frame that writes a custom pattern, validating the
/// address: only the sixteen CGRAM entries (codes `0x00..=0x0F`) are
/// accepted, so an invalid address is rejected before any frame exists.
pub fn cgram_frame(addr: FontTable, pattern: [u8; 2]) -> (r: Result<Vec<u8>, Error>)
    ensures
        spec_glyph_code(addr) <= 0x0F ==> (r matches Ok(v) && v@ == spec_cgram_frame(
            addr,
            pattern@,
        )),
        spec_glyph_code(addr) > 0x0F ==> r == Err::<Vec<u8>, Error>(Error::InvalidInput),
{
    let code = glyph_to_code(addr);
    if code > 0x0F {
        return Err(Error::InvalidInput);
    }
    let mut v: Vec<u8> = Vec::new();
    v.push(command_code(Command::CGRamWrite) | code);
    v.push(pattern[0]);
    v.push(pattern[1]);
    proof {
        assert(v@ =~= spec_cgram_frame(addr, pattern@));
    }
    Ok(v)
}

/// The bytes a step sequence writes to the bus, in order.
pub open spec fn spec_writes_of(t: Seq<Action>) -> Seq<u8>
    decreases t.len(),
{
    if t.len() == 0 {
        Seq::empty()
    } else {
        (match t[0] {
            Action::WriteByte(b) => seq![b],
            _ => Seq::<u8>::empty(),
        }) + spec_writes_of(t.skip(1))
    }
}

proof fn lemma_writes_of_concat(a: Seq<Action>, b: Seq<Action>)
    ensures
        spec_writes_of(a + b) == spec_writes_of(a) + spec_writes_of(b),
    decreases a.len(),
{
    if a.len() == 0 {
        assert(a + b =~= b);
        assert(spec_writes_of(a) + spec_writes_of(b) =~= spec_writes_of(b));
    } else {
        assert((a + b).skip(1) =~= a.skip(1) + b);
        lemma_writes_of_concat(a.skip(1), b);
        assert((a + b)[0] == a[0]);
        assert(spec_writes_of(a + b) =~= spec_writes_of(a) + spec_writes_of(b));
    }
}

proof fn lemma_writes_of_cmd_frame(b: u8)
    ensures
        spec_writes_of(spec_cmd_frame_trace(b)) == seq![b],
{
    reveal_with_fuel(spec_writes_of, 6);
    let t = spec_cmd_frame_trace(b);
    assert(t.skip(1) =~= seq![
        Action::DelayMicros(5),
        Action::WriteByte(b),
        Action::DelayMicros(20),
        Action::CsHigh,
    ]);
    assert(t.skip(1).skip(1) =~= seq![
        Action::WriteByte(b),
        Action::DelayMicros(20),
        Action::CsHigh,
    ]);
    assert(t.skip(1).skip(1).skip(1) =~= seq![Action::DelayMicros(20), Action::CsHigh]);
    assert(t.skip(1).skip(1).skip(1).skip(1) =~= seq![Action::CsHigh]);
    assert(t.skip(1).skip(1).skip(1).skip(1).skip(1) =~= Seq::<Action>::empty());
    assert(spec_writes_of(t) =~= seq![b]);
}

proof fn lemma_byte_writes_write_exactly(bytes: Seq<u8>)
    ensures
        spec_writes_of(spec_byte_writes(bytes)) == bytes,
    decreases bytes.len(),
{
    if bytes.len() == 0 {
        assert(spec_writes_of(spec_byte_writes(bytes)) =~= bytes);
    } else {
        lemma_byte_writes_write_exactly(bytes.skip(1));
        let head = seq![Action::WriteByte(bytes[0]), Action::DelayMicros(8)];
        lemma_writes_of_concat(head, spec_byte_writes(bytes.skip(1)));
        reveal_with_fuel(spec_writes_of, 3);
        assert(head.skip(1) =~= seq![Action::DelayMicros(8)]);
        assert(head.skip(1).skip(1) =~= Seq::<Action>::empty());
        assert(spec_writes_of(head) =~= seq![bytes[0]]);
        assert(spec_writes_of(spec_byte_writes(bytes)) =~= bytes);
    }
}

/// A bulk-data frame writes exactly the given bytes to the bus, in order:
/// the chip-select framing and the delays around the bytes add no bus
/// traffic of their own.
pub proof fn lemma_data_frame_writes_exactly_its_bytes(bytes: Seq<u8>)
    ensures
        spec_writes_of(spec_data_frame_trace(bytes)) == bytes,
{
    let head = seq![Action::CsLow, Action::DelayMicros(1)];
    let tail = seq![Action::DelayMicros(12), Action::CsHigh];
    lemma_writes_of_concat(head, spec_byte_writes(bytes));
    lemma_writes_of_concat(head + spec_byte_writes(bytes), tail);
    lemma_byte_writes_write_exactly(bytes);
    reveal_with_fuel(spec_writes_of, 3);
    assert(head.skip(1) =~= seq![Action::DelayMicros(1)]);
    assert(head.skip(1).skip(1) =~= Seq::<Action>::empty());
    assert(spec_writes_of(head) =~= Seq::<u8>::empty());
    assert(tail.skip(1) =~= seq![Action::CsHigh]);
    assert(tail.skip(1).skip(1) =~= Seq::<Action>::empty());
    assert(spec_writes_of(tail) =~= Seq::<u8>::empty());
    assert(spec_writes_of(spec_data_frame_trace(bytes)) =~= bytes);
}

/// Initialization writes exactly the three configuration command bytes to
/// the bus, in fixed order: digit count 12 (`0x6C`), display duty 7
/// (`0x57`), lighting mode normal (`0x70`) — whether or not a supply line
/// exists.
pub proof fn lemma_init_writes_exactly_the_three_commands(has_supply: bool)
    ensures
        spec_writes_of(spec_init_trace(has_supply)) == seq![0x6Cu8, 0x57u8, 0x70u8],
{
    reveal_with_fuel(spec_writes_of, 6);
    let head = seq![
        Action::ResetLow,
        Action::DelayMicros(25),
        Action::ResetHigh,
        Action::DelayMicros(5),
    ];
    let supply = if has_supply {
        seq![Action::SupplyOn]
    } else {
        Seq::<Action>::empty()
    };
    assert(head.skip(1) =~= seq![
        Action::DelayMicros(25),
        Action::ResetHigh,
        Action::DelayMicros(5),
    ]);
    assert(head.skip(1).skip(1) =~= seq![Action::ResetHigh, Action::DelayMicros(5)]);
    assert(head.skip(1).skip(1).skip(1) =~= seq![Action::DelayMicros(5)]);
    assert(head.skip(1).skip(1).skip(1).skip(1) =~= Seq::<Action>::empty());
    assert(spec_writes_of(head) =~= Seq::<u8>::empty());
    if has_supply {
        assert(supply.skip(1) =~= Seq::<Action>::empty());
    }
    assert(spec_writes_of(supply) =~= Seq::<u8>::empty());
    lemma_writes_of_concat(head, supply);
    lemma_writes_of_concat(head + supply, spec_cmd_frame_trace(0x6C));
    lemma_writes_of_concat(head + supply + spec_cmd_frame_trace(0x6C), spec_cmd_frame_trace(0x57));
    lemma_writes_of_concat(
        head + supply + spec_cmd_frame_trace(0x6C) + spec_cmd_frame_trace(0x57),
        spec_cmd_frame_trace(0x70),
    );
    lemma_writes_of_cmd_frame(0x6C);
    lemma_writes_of_cmd_frame(0x57);
    lemma_writes_of_cmd_frame(0x70);
    assert(spec_writes_of(spec_init_trace(has_supply)) =~= seq![0x6Cu8, 0x57u8, 0x70u8]);
}

/// Turning the brightness to `0` writes nothing to the bus, whether or not a
/// supply line exists: the display is darkened by the supply line alone.
pub proof fn lemma_brightness_zero_writes_nothing(has_supply: bool)
    ensures
        spec_writes_of(spec_brightness_trace(has_supply, 0)) == Seq::<u8>::empty(),
{
    reveal_with_fuel(spec_writes_of, 3);
    if has_supply {
        assert(seq![Action::SupplyOff].skip(1) =~= Seq::<Action>::empty());
    }
    assert(spec_writes_of(spec_brightness_trace(has_supply, 0)) =~= Seq::<u8>::empty());
}

} // verus!
