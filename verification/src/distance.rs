//! HI50 laser measurement sensor: the reading and error taxonomy, the
//! response-frame parser, and the request/response state machine of the
//! distance controller.
//!
//! The device answers a one-byte mode request with a fixed-format frame:
//! on success `"<mode>: D.DDDm,QQQQ\r\n"` (16 bytes), on failure
//! `"<mode>:ErCC!\r\n"` with a two-digit error code.  Parsing never
//! panics: every malformed frame degrades to a typed error.

use crate::shared::{IsDead, SharedState, StateEq};
use vstd::prelude::*;

verus! {

/// Distance measured by the sensor.
#[derive(PartialEq, Eq, Clone, Copy, Debug, Structural)]
pub struct Distance {
    pub millimeters: u32,
}

impl Distance {
    pub fn from_mm(millimeters: u32) -> (r: Self)
        ensures
            r.millimeters == millimeters,
    {
        Distance { millimeters }
    }

    pub fn as_mm(&self) -> (r: u32)
        ensures
            r == self.millimeters,
    {
        self.millimeters
    }
}

/// Error conditions the sensor reports, by its two-digit error code,
/// plus the two conditions produced on this side of the wire: an I/O
/// failure (`UnknownError`) and a malformed frame (`ParsingError`).
#[derive(PartialEq, Eq, Clone, Copy, Debug, Structural)]
pub enum DistanceReadingError {
    UnknownError,
    /// VBAT too low, supply voltage should be >= 2.0V (code 1)
    VbatTooLow,
    /// Internal error (code 2)
    InternalError,
    /// Module temperature too low, below -20C (code 3)
    TempTooLow,
    /// Module temperature too high, above +40C (code 4)
    TempTooHigh,
    /// Target out of measuring range (code 5)
    TargetOutOfMeasureRange,
    /// Invalid measure result (code 6)
    InvalidMeasureResult,
    /// Background light too strong (code 7)
    BackgroundLightIsTooStrong,
    /// Laser signal too weak (code 8)
    LaserSignalIsTooWeak,
    /// Laser signal too strong (code 9)
    LaserSignalIsTooStrong,
    /// Hardware fault 1 (code 10)
    HardwareFault1,
    /// Hardware fault 2 (code 11)
    HardwareFault2,
    /// Hardware fault 3 (code 12)
    HardwareFault3,
    /// Hardware fault 4 (code 13)
    HardwareFault4,
    /// Hardware fault 5 (code 14)
    HardwareFault5,
    /// Laser signal not stable (code 15)
    LaserSignalIsNotStable,
    /// Hardware fault 6 (code 16)
    HardwareFault6,
    /// Hardware fault 7 (code 17)
    HardwareFault7,
    /// The frame itself could not be read as a measurement or an error.
    ParsingError,
}

/// The device error kind named by a reported code; codes outside the
/// fixed taxonomy fall back to `UnknownError`.
pub open spec fn spec_error_kind(code: u8) -> DistanceReadingError {
    if code == 1 {
        DistanceReadingError::VbatTooLow
    } else if code == 2 {
        DistanceReadingError::InternalError
    } else if code == 3 {
        DistanceReadingError::TempTooLow
    } else if code == 4 {
        DistanceReadingError::TempTooHigh
    } else if code == 5 {
        DistanceReadingError::TargetOutOfMeasureRange
    } else if code == 6 {
        DistanceReadingError::InvalidMeasureResult
    } else if code == 7 {
        DistanceReadingError::BackgroundLightIsTooStrong
    } else if code == 8 {
        DistanceReadingError::LaserSignalIsTooWeak
    } else if code == 9 {
        DistanceReadingError::LaserSignalIsTooStrong
    } else if code == 10 {
        DistanceReadingError::HardwareFault1
    } else if code == 11 {
        DistanceReadingError::HardwareFault2
    } else if code == 12 {
        DistanceReadingError::HardwareFault3
    } else if code == 13 {
        DistanceReadingError::HardwareFault4
    } else if code == 14 {
        DistanceReadingError::HardwareFault5
    } else if code == 15 {
        DistanceReadingError::LaserSignalIsNotStable
    } else if code == 16 {
        DistanceReadingError::HardwareFault6
    } else if code == 17 {
        DistanceReadingError::HardwareFault7
    } else {
        DistanceReadingError::UnknownError
    }
}

impl DistanceReadingError {
    pub fn new(code: u8) -> (r: Self)
        ensures
            r == spec_error_kind(code),
    {
        match code {
            1 => DistanceReadingError::VbatTooLow,
            2 => DistanceReadingError::InternalError,
            3 => DistanceReadingError::TempTooLow,
            4 => DistanceReadingError::TempTooHigh,
            5 => DistanceReadingError::TargetOutOfMeasureRange,
            6 => DistanceReadingError::InvalidMeasureResult,
            7 => DistanceReadingError::BackgroundLightIsTooStrong,
            8 => DistanceReadingError::LaserSignalIsTooWeak,
            9 => DistanceReadingError::LaserSignalIsTooStrong,
            10 => DistanceReadingError::HardwareFault1,
            11 => DistanceReadingError::HardwareFault2,
            12 => DistanceReadingError::HardwareFault3,
            13 => DistanceReadingError::HardwareFault4,
            14 => DistanceReadingError::HardwareFault5,
            15 => DistanceReadingError::LaserSignalIsNotStable,
            16 => DistanceReadingError::HardwareFault6,
            17 => DistanceReadingError::HardwareFault7,
            _ => DistanceReadingError::UnknownError,
        }
    }
}

/// Result of one measurement request; overwritten whole by the next.
#[derive(PartialEq, Eq, Clone, Copy, Debug, Structural)]
pub enum DistanceReading {
    /// Before the first measurement.
    NoReading,
    /// A successful measurement.
    Measured { distance: Distance, quality: u16, measuring_time_ms: u64 },
    /// A failed measurement.
    Failed { error: DistanceReadingError, measuring_time_ms: u64 },
}

/// ASCII decimal digit.
pub open spec fn is_digit(b: u8) -> bool {
    48 <= b <= 57
}

pub open spec fn digit_val(b: u8) -> int {
    b - 48
}

pub open spec fn all_digits(s: Seq<u8>) -> bool {
    forall|i: int| 0 <= i < s.len() ==> is_digit(#[trigger] s[i])
}

/// The number written by a sequence of ASCII digits, most significant first.
pub open spec fn digits_val(s: Seq<u8>) -> int
    decreases s.len(),
{
    if s.len() == 0 {
        0
    } else {
        digits_val(s.drop_last()) * 10 + digit_val(s.last())
    }
}

pub open spec fn pow10(n: nat) -> int
    decreases n,
{
    if n == 0 {
        1
    } else {
        10 * pow10((n - 1) as nat)
    }
}

proof fn lemma_pow10_pos(n: nat)
    ensures
        pow10(n) >= 1,
    decreases n,
{
    if n > 0 {
        lemma_pow10_pos((n - 1) as nat);
    }
}

proof fn lemma_pow10_mono(a: nat, b: nat)
    requires
        a <= b,
    ensures
        1 <= pow10(a) <= pow10(b),
    decreases b,
{
    lemma_pow10_pos(a);
    if a < b {
        lemma_pow10_mono(a, (b - 1) as nat);
    }
}

proof fn lemma_digits_val_bound(s: Seq<u8>)
    requires
        all_digits(s),
    ensures
        0 <= digits_val(s) < pow10(s.len()),
    decreases s.len(),
{
    if s.len() > 0 {
        assert(all_digits(s.drop_last()));
        lemma_digits_val_bound(s.drop_last());
    }
}

/// Leading ASCII spaces removed; the device left-pads short readings.
pub open spec fn strip_leading_spaces(s: Seq<u8>) -> Seq<u8>
    decreases s.len(),
{
    if s.len() > 0 && s[0] == 32 {
        strip_leading_spaces(s.drop_first())
    } else {
        s
    }
}

proof fn lemma_strip_leading_spaces(s: Seq<u8>, k: int)
    requires
        0 <= k <= s.len(),
        forall|i: int| 0 <= i < k ==> s[i] == 32,
        k < s.len() ==> s[k] != 32,
    ensures
        strip_leading_spaces(s) == s.skip(k),
    decreases k,
{
    if k == 0 {
        assert(s.skip(0) =~= s);
    } else {
        lemma_strip_leading_spaces(s.drop_first(), k - 1);
        assert(s.drop_first().skip(k - 1) =~= s.skip(k));
    }
}

/// The five bytes of a success frame that carry the distance reading
/// (metres, then three decimals; the decimal point and the unit are
/// fixed text around them).
pub open spec fn dist_bytes(s: Seq<u8>) -> Seq<u8> {
    seq![s[2], s[3], s[5], s[6], s[7]]
}

/// The four bytes of a success frame that carry the quality figure.
pub open spec fn qual_bytes(s: Seq<u8>) -> Seq<u8> {
    seq![s[10], s[11], s[12], s[13]]
}

/// An error frame: at least 9 bytes, `Er` after the echoed mode byte and
/// colon, then a two-digit error code (`"D:Er08!\r\n"`).
pub open spec fn is_error_frame(s: Seq<u8>) -> bool {
    &&& s.len() >= 9
    &&& s[2] == 69  // 'E'
    &&& s[3] == 114  // 'r'
    &&& is_digit(s[4])
    &&& is_digit(s[5])
}

pub open spec fn frame_error_code(s: Seq<u8>) -> int {
    digit_val(s[4]) * 10 + digit_val(s[5])
}

/// A success frame: exactly 16 bytes (`"D: 5.614m,1211\r\n"`), the
/// distance digits possibly left-padded with spaces, the quality written
/// as four digits.
pub open spec fn is_success_frame(s: Seq<u8>) -> bool {
    &&& s.len() == 16
    &&& strip_leading_spaces(dist_bytes(s)).len() > 0
    &&& all_digits(strip_leading_spaces(dist_bytes(s)))
    &&& all_digits(qual_bytes(s))
}

pub open spec fn frame_distance(s: Seq<u8>) -> int {
    digits_val(strip_leading_spaces(dist_bytes(s)))
}

pub open spec fn frame_quality(s: Seq<u8>) -> int {
    digits_val(qual_bytes(s))
}

/// What a raw response frame means: a recognizable error frame names the
/// device's error kind; a well-formed success frame carries millimeters
/// and quality; anything else is a parsing failure.  No frame panics.
pub open spec fn response_spec(s: Seq<u8>, measuring_time_ms: u64) -> DistanceReading {
    if is_error_frame(s) {
        DistanceReading::Failed {
            error: spec_error_kind(frame_error_code(s) as u8),
            measuring_time_ms,
        }
    } else if is_success_frame(s) {
        DistanceReading::Measured {
            distance: Distance { millimeters: frame_distance(s) as u32 },
            quality: frame_quality(s) as u16,
            measuring_time_ms,
        }
    } else {
        DistanceReading::Failed { error: DistanceReadingError::ParsingError, measuring_time_ms }
    }
}

/// Parse a run of at most five ASCII digits into its value.
fn parse_digits(v: &Vec<u8>) -> (r: Option<u32>)
    requires
        v@.len() <= 5,
    ensures
        match r {
            Some(x) => v@.len() > 0 && all_digits(v@) && x == digits_val(v@),
            None => v@.len() == 0 || !all_digits(v@),
        },
{
    if v.len() == 0 {
        return None;
    }
    let mut acc: u32 = 0;
    let mut i: usize = 0;
    while i < v.len()
        invariant
            0 <= i <= v@.len() <= 5,
            all_digits(v@.subrange(0, i as int)),
            acc == digits_val(v@.subrange(0, i as int)),
        decreases v@.len() - i,
    {
        let b = v[i];
        if b < 48 || b > 57 {
            return None;
        }
        proof {
            let prefix = v@.subrange(0, i as int);
            let extended = v@.subrange(0, i + 1);
            assert(extended.drop_last() =~= prefix);
            assert(all_digits(extended));
            lemma_digits_val_bound(prefix);
            lemma_pow10_mono(prefix.len(), 4);
            reveal_with_fuel(pow10, 6);
        }
        acc = acc * 10 + ((b - 48) as u32);
        i = i + 1;
    }
    proof {
        assert(v@.subrange(0, v@.len() as int) =~= v@);
    }
    Some(acc)
}

/// Parse one complete response frame from the sensor.  Every outcome is a
/// typed reading: a recognizable error frame maps the device's code
/// through the taxonomy, a malformed frame becomes `ParsingError`, and
/// nothing panics whatever the bytes are.
#[verifier::rlimit(50)]
pub fn parse_response(buf: &[u8], measuring_time_ms: u64) -> (r: DistanceReading)
    ensures
        r == response_spec(buf@, measuring_time_ms),
{
    if buf.len() >= 9 {
        let b4 = buf[4];
        let b5 = buf[5];
        if buf[2] == 69 && buf[3] == 114 && 48 <= b4 && b4 <= 57 && 48 <= b5 && b5 <= 57 {
            let code: u8 = (b4 - 48) * 10 + (b5 - 48);
            return DistanceReading::Failed {
                error: DistanceReadingError::new(code),
                measuring_time_ms,
            };
        }
    }
    if buf.len() != 16 {
        return DistanceReading::Failed {
            error: DistanceReadingError::ParsingError,
            measuring_time_ms,
        };
    }

    // Distance digits, left-padded with spaces by the device.
    let mut dist: Vec<u8> = Vec::new();
    dist.push(buf[2]);
    dist.push(buf[3]);
    dist.push(buf[5]);
    dist.push(buf[6]);
    dist.push(buf[7]);
    proof {
        assert(dist@ =~= dist_bytes(buf@));
    }
    let mut k: usize = 0;
    while k < 5 && dist[k] == 32
        invariant
            0 <= k <= 5,
            dist@.len() == 5,
            forall|i: int| 0 <= i < k ==> dist@[i] == 32,
        decreases 5 - k,
    {
        k = k + 1;
    }
    let mut stripped: Vec<u8> = Vec::new();
    let mut j: usize = k;
    while j < 5
        invariant
            k <= j <= 5,
            dist@.len() == 5,
            stripped@ =~= dist@.subrange(k as int, j as int),
        decreases 5 - j,
    {
        stripped.push(dist[j]);
        j = j + 1;
    }
    proof {
        assert(stripped@ =~= dist@.skip(k as int));
        lemma_strip_leading_spaces(dist@, k as int);
    }
    let distance_value = parse_digits(&stripped);

    // Quality digits, exactly four of them.
    let mut qual: Vec<u8> = Vec::new();
    qual.push(buf[10]);
    qual.push(buf[11]);
    qual.push(buf[12]);
    qual.push(buf[13]);
    proof {
        assert(qual@ =~= qual_bytes(buf@));
    }
    let quality_value = parse_digits(&qual);

    match (distance_value, quality_value) {
        (Some(d), Some(q)) => {
            proof {
                lemma_digits_val_bound(qual@);
                reveal_with_fuel(pow10, 6);
            }
            DistanceReading::Measured {
                distance: Distance::from_mm(d),
                quality: q as u16,
                measuring_time_ms,
            }
        }
        _ => DistanceReading::Failed {
            error: DistanceReadingError::ParsingError,
            measuring_time_ms,
        },
    }
}

/// Whether a partially filled response buffer is already a complete
/// answer: the transport reads chunk by chunk until either an error
/// frame is recognized early or a full 16-byte frame is in, and then
/// hands the bytes to `parse_response`.
pub fn response_complete(buf: &[u8]) -> (r: bool)
    ensures
        r == (is_error_frame(buf@) || buf@.len() >= 16),
{
    if buf.len() >= 16 {
        return true;
    }
    if buf.len() >= 9 {
        let b4 = buf[4];
        let b5 = buf[5];
        return buf[2] == 69 && buf[3] == 114 && 48 <= b4 && b4 <= 57 && 48 <= b5 && b5 <= 57;
    }
    false
}

/// The request/response state of the distance controller: at most one
/// measurement is outstanding at a time.
#[derive(PartialEq, Eq, Clone, Copy, Debug, Structural)]
pub enum ReadingState {
    /// No request outstanding; the last reading stands.
    Ready,
    /// A measurement was requested and is not finished yet.
    Pending,
    /// The controller is shut down; all waiters are released.
    Dead,
}

impl IsDead for ReadingState {
    open spec fn dead_spec(&self) -> bool {
        *self is Dead
    }

    fn is_dead(&self) -> (r: bool) {
        *self == ReadingState::Dead
    }
}

impl StateEq for ReadingState {
    open spec fn eq_spec(&self, other: &Self) -> bool {
        *self == *other
    }

    proof fn eq_spec_reflexive(&self) {
    }

    fn state_eq(&self, other: &Self) -> (r: bool) {
        *self == *other
    }
}

impl Default for ReadingState {
    fn default() -> (r: Self)
        ensures
            r == ReadingState::Ready,
    {
        ReadingState::Ready
    }
}

/// Which measurement the sensor is asked for; the modes differ in
/// device-side integration time.
#[derive(PartialEq, Eq, Clone, Copy, Debug, Structural)]
pub enum ReadingMode {
    Default,
    Fast,
    Slow,
}

impl ReadingMode {
    /// The request byte sent on the wire: `D`, `F` or `M`.
    pub open spec fn spec_request_byte(self) -> u8 {
        match self {
            ReadingMode::Default => 68,
            ReadingMode::Fast => 70,
            ReadingMode::Slow => 77,
        }
    }

    pub fn as_u8(&self) -> (r: u8)
        ensures
            r == self.spec_request_byte(),
    {
        match self {
            ReadingMode::Default => 68,
            ReadingMode::Fast => 70,
            ReadingMode::Slow => 77,
        }
    }
}

/// Controller for the distance sensor: a Ready/Pending/Dead state
/// machine around the latest reading.
///
/// A caller requests a measurement (Ready to Pending), the sensor-owning
/// loop reads the device's response frame and publishes it
/// (`process_response`, back to Ready), and callers read the published
/// reading.  The loop and the callers share only this state; the serial
/// port stays with the loop.
pub struct DistanceController {
    state: SharedState<ReadingState>,
    reading: DistanceReading,
    reading_mode: ReadingMode,
}

impl DistanceController {
    pub closed spec fn state_spec(&self) -> ReadingState {
        self.state.current()
    }

    pub closed spec fn reading_spec(&self) -> DistanceReading {
        self.reading
    }

    pub closed spec fn mode_spec(&self) -> ReadingMode {
        self.reading_mode
    }

    pub fn new() -> (r: Self)
        ensures
            r.state_spec() == ReadingState::Ready,
            r.reading_spec() == DistanceReading::NoReading,
            r.mode_spec() == ReadingMode::Default,
    {
        DistanceController {
            state: SharedState::new(ReadingState::Ready),
            reading: DistanceReading::NoReading,
            reading_mode: ReadingMode::Default,
        }
    }

    pub fn set_mode(&mut self, mode: ReadingMode)
        ensures
            final(self).mode_spec() == mode,
            final(self).state_spec() == old(self).state_spec(),
            final(self).reading_spec() == old(self).reading_spec(),
    {
        self.reading_mode = mode;
    }

    pub fn get_mode(&self) -> (r: ReadingMode)
        ensures
            r == self.mode_spec(),
    {
        self.reading_mode
    }

    /// Non-blocking request to measure distance: arms the pending flag.
    /// Requesting again before completion just re-arms it.
    pub fn request_measurement(&mut self)
        ensures
            final(self).state_spec() == ReadingState::Pending,
            final(self).reading_spec() == old(self).reading_spec(),
            final(self).mode_spec() == old(self).mode_spec(),
    {
        self.state.set_state(ReadingState::Pending);
    }

    /// What the sensor-owning loop does once the device has answered:
    /// parse the frame, publish the reading, and return to Ready.
    pub fn process_response(&mut self, buf: &[u8], measuring_time_ms: u64)
        ensures
            final(self).reading_spec() == response_spec(buf@, measuring_time_ms),
            final(self).state_spec() == ReadingState::Ready,
            final(self).mode_spec() == old(self).mode_spec(),
    {
        self.reading = parse_response(buf, measuring_time_ms);
        self.state.set_state(ReadingState::Ready);
    }

    /// What the sensor-owning loop does when the device could not be read
    /// at all: publish an unknown error and return to Ready.
    pub fn process_read_failure(&mut self, measuring_time_ms: u64)
        ensures
            final(self).reading_spec() == (DistanceReading::Failed {
                error: DistanceReadingError::UnknownError,
                measuring_time_ms,
            }),
            final(self).state_spec() == ReadingState::Ready,
            final(self).mode_spec() == old(self).mode_spec(),
    {
        self.reading = DistanceReading::Failed {
            error: DistanceReadingError::UnknownError,
            measuring_time_ms,
        };
        self.state.set_state(ReadingState::Ready);
    }

    /// The request/response state, as the sensor-owning loop reads it
    /// to decide between working, parking and exiting.
    pub fn reading_state(&self) -> (r: ReadingState)
        ensures
            r == self.state_spec(),
    {
        self.state.get_state()
    }

    /// Whether a wait for the current request completes: true once no
    /// request is pending (or the controller is dead).  A caller blocked
    /// on a pending measurement proceeds exactly when this holds.
    pub fn await_measurement(&self) -> (r: bool)
        ensures
            r == (self.state_spec() == ReadingState::Ready || self.state_spec()
                == ReadingState::Dead),
    {
        self.state.await_state(ReadingState::Ready)
    }

    /// Request a measurement and hand the device's answer through:
    /// returns the reading that `buf`, the response frame, parses to,
    /// leaving the controller Ready with that reading published.
    pub fn get_measurement(&mut self, buf: &[u8], measuring_time_ms: u64) -> (r: DistanceReading)
        ensures
            r == response_spec(buf@, measuring_time_ms),
            final(self).reading_spec() == r,
            final(self).state_spec() == ReadingState::Ready,
            final(self).mode_spec() == old(self).mode_spec(),
    {
        self.request_measurement();
        self.process_response(buf, measuring_time_ms);
        self.get_last_measurement()
    }

    /// Non-blocking read of the most recent reading; does not trigger a
    /// new measurement.
    pub fn get_last_measurement(&self) -> (r: DistanceReading)
        ensures
            r == self.reading_spec(),
    {
        self.reading
    }

    /// Shut the controller down: the dead state releases every waiter.
    pub fn kill(&mut self)
        ensures
            final(self).state_spec() == ReadingState::Dead,
            final(self).reading_spec() == old(self).reading_spec(),
            final(self).mode_spec() == old(self).mode_spec(),
    {
        self.state.set_state(ReadingState::Dead);
    }
}

} // verus!
