//! Command protocol encoder for an RGB-lit, fan-equipped HID peripheral.
//!
//! Every command travels to the device as a 65-byte feature report: byte 0 is
//! the reserved report-ID slot (always zero in this protocol), byte 1 the
//! command opcode, bytes 2 onward the command's payload, and every remaining
//! byte zero. The encoders here turn a user-level intent (set the LED color,
//! set the fan speed, set the brightness, wake the device) into exactly that
//! byte sequence, applying the device's clamping and scaling rules. Encoding
//! is pure and stateless; sending the report over the HID link is the
//! caller's business.

use vstd::pervasive::VecAdditionalExecFns;
use vstd::prelude::*;

verus! {

/// Opcode of the set-LED-color command.
pub const SET_LED_COLOR_CMD: u8 = 0x4C;

/// Opcode of the set-fan-speed command.
pub const SET_FAN_SPEED_CMD: u8 = 0x46;

/// Opcode of the set-brightness command.
pub const SET_BRIGHTNESS_CMD: u8 = 0x49;

/// Opcode of the wakeup command.
pub const WAKEUP_CMD: u8 = 0x5A;

/// Lowest fan speed the fan motor safely supports.
pub const MIN_FAN_SPEED: u8 = 40;

/// Highest fan speed the firmware accepts.
pub const MAX_FAN_SPEED: u8 = 100;

/// Lowest device-native brightness value.
pub const MIN_BRIGHTNESS: u16 = 0x0032;

/// Highest device-native brightness value.
pub const MAX_BRIGHTNESS: u16 = 0x010A;

/// Numerator of the brightness curve's slope: the device curve multiplies
/// the raw input by 215/100 (that is, 2.15), kept as a ratio so that the
/// whole computation stays in integers.
pub const BRIGHTNESS_STEP_NUM: u16 = 215;

/// Denominator of the brightness curve's slope.
pub const BRIGHTNESS_STEP_DEN: u16 = 100;

/// Length of every feature report this protocol exchanges.
pub const REPORT_LEN: usize = 65;

/// Fan speed saturated to the supported operating range
/// [`MIN_FAN_SPEED`, `MAX_FAN_SPEED`]: out-of-range values are clamped to
/// the nearest bound, never rejected.
pub open spec fn spec_clamp_fan_speed(speed: u8) -> u8 {
    if speed > MAX_FAN_SPEED {
        MAX_FAN_SPEED
    } else if speed < MIN_FAN_SPEED {
        MIN_FAN_SPEED
    } else {
        speed
    }
}

/// The device-native brightness value for a raw input.
///
/// The raw 0-100 input is compared directly against the native-scale bounds
/// (50 and 266): at or above the maximum the maximum is emitted, at or below
/// the minimum the minimum, and otherwise the linear curve
/// `floor(215 * raw / 100) + 50` applies. Comparing the raw input, not the
/// rescaled value, against the native constants is the device's observed
/// behavior and is kept bit for bit, odd as it looks.
pub open spec fn spec_native_brightness(raw: u16) -> u16 {
    if raw >= MAX_BRIGHTNESS {
        MAX_BRIGHTNESS
    } else if raw <= MIN_BRIGHTNESS {
        MIN_BRIGHTNESS
    } else {
        ((BRIGHTNESS_STEP_NUM * raw) as int / BRIGHTNESS_STEP_DEN as int + MIN_BRIGHTNESS as int) as u16
    }
}

/// High byte of a 16-bit value in big-endian order.
pub open spec fn spec_be_hi(v: u16) -> u8 {
    (v / 256) as u8
}

/// Low byte of a 16-bit value in big-endian order.
pub open spec fn spec_be_lo(v: u16) -> u8 {
    (v % 256) as u8
}

/// A user-level intent, one variant per device command.
///
/// Each carries the raw values as the caller supplies them; clamping and
/// scaling happen at encoding time, so a `Command` is a faithful record of
/// what was asked for.
#[derive(Clone, Copy, Debug, PartialEq, Eq, Structural)]
pub enum Command {
    /// Set the LED to an RGB color; the full 8-bit range of every channel
    /// is accepted by the device as-is.
    SetLedColor { red: u8, green: u8, blue: u8 },
    /// Set the fan speed; the value is saturated to the supported range.
    SetFanSpeed { speed: u8 },
    /// Set the brightness from the raw 0-100 input scale.
    SetBrightness { brightness: u8 },
    /// Bring the device out of its low-power state.
    Wakeup,
}

/// The byte at index `i` of the feature report that `c` encodes to.
pub open spec fn spec_report_byte(c: Command, i: int) -> u8 {
    match c {
        Command::SetLedColor { red, green, blue } => {
            if i == 1 {
                SET_LED_COLOR_CMD
            } else if i == 2 {
                red
            } else if i == 3 {
                green
            } else if i == 4 {
                blue
            } else {
                0u8
            }
        },
        Command::SetFanSpeed { speed } => {
            if i == 1 {
                SET_FAN_SPEED_CMD
            } else if i == 2 {
                spec_clamp_fan_speed(speed)
            } else {
                0u8
            }
        },
        Command::SetBrightness { brightness } => {
            if i == 1 {
                SET_BRIGHTNESS_CMD
            } else if i == 2 {
                spec_be_hi(spec_native_brightness(brightness as u16))
            } else if i == 3 {
                spec_be_lo(spec_native_brightness(brightness as u16))
            } else {
                0u8
            }
        },
        Command::Wakeup => {
            if i == 1 {
                WAKEUP_CMD
            } else {
                0u8
            }
        },
    }
}

/// The full feature report that `c` encodes to: `REPORT_LEN` bytes, byte 0
/// the reserved report-ID slot, byte 1 the opcode, the payload behind it,
/// and every other byte zero.
pub open spec fn spec_report(c: Command) -> Seq<u8> {
    Seq::new(REPORT_LEN as nat, |i: int| spec_report_byte(c, i))
}

/// Fan speed saturated to the supported operating range.
pub fn clamp_fan_speed(speed: u8) -> (clamped: u8)
    ensures
        clamped == spec_clamp_fan_speed(speed),
        MIN_FAN_SPEED <= clamped <= MAX_FAN_SPEED,
{
    if speed > MAX_FAN_SPEED {
        MAX_FAN_SPEED
    } else if speed < MIN_FAN_SPEED {
        MIN_FAN_SPEED
    } else {
        speed
    }
}

/// The device-native brightness value for a raw input, split into its two
/// transmission bytes, most-significant first.
pub fn compute_brightness_value(brightness: u16) -> (bytes: (u8, u8))
    ensures
        bytes.0 == spec_be_hi(spec_native_brightness(brightness)),
        bytes.1 == spec_be_lo(spec_native_brightness(brightness)),
        (bytes.0 as u16) * 256 + (bytes.1 as u16) == spec_native_brightness(brightness),
{
    let native: u16 = if brightness >= MAX_BRIGHTNESS {
        MAX_BRIGHTNESS
    } else if brightness <= MIN_BRIGHTNESS {
        MIN_BRIGHTNESS
    } else {
        (BRIGHTNESS_STEP_NUM * brightness) / BRIGHTNESS_STEP_DEN + MIN_BRIGHTNESS
    };
    ((native / 256) as u8, (native % 256) as u8)
}

/// A report buffer of `REPORT_LEN` zero bytes, ready to take an opcode and
/// a payload.
fn zeroed_report() -> (buf: Vec<u8>)
    ensures
        buf@.len() == REPORT_LEN,
        forall|i: int| 0 <= i < buf@.len() ==> buf@[i] == 0u8,
{
    let mut buf: Vec<u8> = Vec::new();
    let mut n: usize = 0;
    while n < REPORT_LEN
        invariant
            buf@.len() == n,
            n <= REPORT_LEN,
            forall|i: int| 0 <= i < n ==> buf@[i] == 0u8,
        decreases REPORT_LEN - n,
    {
        buf.push(0u8);
        n = n + 1;
    }
    buf
}

/// Encode a command into the exact feature report the device expects.
pub fn encode_command(c: Command) -> (report: Vec<u8>)
    ensures
        report@ == spec_report(c),
{
    let mut report = zeroed_report();
    match c {
        Command::SetLedColor { red, green, blue } => {
            report.set(1, SET_LED_COLOR_CMD);
            report.set(2, red);
            report.set(3, green);
            report.set(4, blue);
        },
        Command::SetFanSpeed { speed } => {
            report.set(1, SET_FAN_SPEED_CMD);
            report.set(2, clamp_fan_speed(speed));
        },
        Command::SetBrightness { brightness } => {
            let bytes = compute_brightness_value(brightness as u16);
            report.set(1, SET_BRIGHTNESS_CMD);
            report.set(2, bytes.0);
            report.set(3, bytes.1);
        },
        Command::Wakeup => {
            report.set(1, WAKEUP_CMD);
        },
    }
    proof {
        assert(report@ =~= spec_report(c));
    }
    report
}

/// Encode a set-LED-color command: byte 1 is the opcode, bytes 2..=4 the
/// red, green and blue channels in that order, every other byte zero. The
/// full 8-bit range of each channel is valid; nothing is clamped. An alpha
/// channel, if the caller has one, has no payload slot and is simply not
/// passed in.
pub fn encode_set_led_color(red: u8, green: u8, blue: u8) -> (report: Vec<u8>)
    ensures
        report@ == spec_report(Command::SetLedColor { red, green, blue }),
        report@.len() == REPORT_LEN,
        report@[1] == SET_LED_COLOR_CMD,
        report@[2] == red,
        report@[3] == green,
        report@[4] == blue,
        forall|i: int| 0 <= i < report@.len() && i != 1 && i != 2 && i != 3 && i != 4
            ==> report@[i] == 0u8,
{
    encode_command(Command::SetLedColor { red, green, blue })
}

/// Encode a set-fan-speed command: byte 1 is the opcode, byte 2 the speed
/// saturated to the supported range, every other byte zero. Out-of-range
/// speeds are clamped to the nearest bound, never rejected.
pub fn encode_set_fan_speed(speed: u8) -> (report: Vec<u8>)
    ensures
        report@ == spec_report(Command::SetFanSpeed { speed }),
        report@.len() == REPORT_LEN,
        report@[1] == SET_FAN_SPEED_CMD,
        speed > MAX_FAN_SPEED ==> report@[2] == MAX_FAN_SPEED,
        speed < MIN_FAN_SPEED ==> report@[2] == MIN_FAN_SPEED,
        MIN_FAN_SPEED <= speed <= MAX_FAN_SPEED ==> report@[2] == speed,
        forall|i: int| 0 <= i < report@.len() && i != 1 && i != 2 ==> report@[i] == 0u8,
{
    encode_command(Command::SetFanSpeed { speed })
}

/// Encode a set-brightness command: byte 1 is the opcode, bytes 2 and 3 the
/// device-native brightness value in big-endian order, every other byte
/// zero. The raw 0-100 input is mapped through the device's non-linear
/// curve; see [`spec_native_brightness`] for the exact rule.
pub fn encode_set_brightness(brightness: u8) -> (report: Vec<u8>)
    ensures
        report@ == spec_report(Command::SetBrightness { brightness }),
        report@.len() == REPORT_LEN,
        report@[1] == SET_BRIGHTNESS_CMD,
        report@[2] == spec_be_hi(spec_native_brightness(brightness as u16)),
        report@[3] == spec_be_lo(spec_native_brightness(brightness as u16)),
        (report@[2] as u16) * 256 + (report@[3] as u16)
            == spec_native_brightness(brightness as u16),
        forall|i: int| 0 <= i < report@.len() && i != 1 && i != 2 && i != 3
            ==> report@[i] == 0u8,
{
    encode_command(Command::SetBrightness { brightness })
}

/// Encode a wakeup command: byte 1 is the opcode, every other byte zero.
pub fn encode_wakeup() -> (report: Vec<u8>)
    ensures
        report@ == spec_report(Command::Wakeup),
        report@.len() == REPORT_LEN,
        report@[1] == WAKEUP_CMD,
        forall|i: int| 0 <= i < report@.len() && i != 1 ==> report@[i] == 0u8,
{
    encode_command(Command::Wakeup)
}

/// Every encode operation, for every valid input, yields a report of
/// exactly `REPORT_LEN` bytes: never more, never fewer.
pub proof fn lemma_report_len(c: Command)
    ensures
        spec_report(c).len() == REPORT_LEN,
{
}

/// Byte 0 of every report is the reserved report-ID slot and is always
/// zero in this protocol.
pub proof fn lemma_report_id_zero(c: Command)
    ensures
        spec_report(c)[0] == 0u8,
{
}

/// Encoding is idempotent: the command alone determines the report, so two
/// encodings of the same command are byte-identical, however far apart the
/// calls.
pub proof fn lemma_encode_idempotent(c: Command, first: Seq<u8>, second: Seq<u8>)
    requires
        first == spec_report(c),
        second == spec_report(c),
    ensures
        first == second,
{
}

/// For raw inputs on the 0-100 input scale, the device-native brightness
/// value stays within the device's documented native range.
pub proof fn lemma_native_brightness_range(raw: u16)
    requires
        raw <= 100,
    ensures
        MIN_BRIGHTNESS <= spec_native_brightness(raw) <= MAX_BRIGHTNESS,
{
}

} // verus!
