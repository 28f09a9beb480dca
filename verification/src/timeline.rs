//! The timeline clock: mapping the event-time tick counter onto frame
//! boundaries and wall-clock-relative playback positions.

use vstd::arithmetic::div_mod::{
    lemma_mod_division_less_than_divisor, lemma_multiply_divide_lt,
};
use vstd::arithmetic::mul::lemma_mul_inequality;
use vstd::prelude::*;

verus! {

/// The playback position of a source: a monotonically increasing tick
/// counter, the frame index it is aimed at, and the frame duration in
/// ticks. Mutated every consumption cycle; reset to its start state on
/// rebuild or loop restart.
#[derive(Clone, Copy, PartialEq, Eq, Structural, Debug)]
pub struct TimelineState {
    /// Event-time counter, in ticks.
    pub current_ticks: u64,
    /// Index of the frame currently being reconstructed.
    pub current_frame: u32,
    /// Duration of one output frame, in ticks.
    pub ticks_per_frame: u64,
    /// Playback speed multiplier, in hundredths (100 = real time).
    pub playback_speed_hundredths: u32,
}

impl TimelineState {
    /// The state a reset returns to: the tick counter at zero and the
    /// frame index at `start_frame`, with the frame duration and the
    /// speed kept.
    pub open spec fn spec_reset(self, start_frame: u32) -> TimelineState {
        TimelineState { current_ticks: 0, current_frame: start_frame, ..self }
    }

    /// Fresh timeline at tick zero.
    pub fn new(ticks_per_frame: u64, playback_speed_hundredths: u32, start_frame: u32) -> (r:
        TimelineState)
        ensures
            r == (TimelineState {
                current_ticks: 0,
                current_frame: start_frame,
                ticks_per_frame,
                playback_speed_hundredths,
            }),
    {
        TimelineState {
            current_ticks: 0,
            current_frame: start_frame,
            ticks_per_frame,
            playback_speed_hundredths,
        }
    }

    /// Rewinds the clock to tick zero and the given start frame,
    /// keeping the frame duration and speed.
    pub fn reset(&mut self, start_frame: u32)
        ensures
            *final(self) == old(self).spec_reset(start_frame),
    {
        self.current_ticks = 0;
        self.current_frame = start_frame;
    }

    /// Whether the tick counter has passed the end of the current
    /// frame, so that the frame must be emitted and the index
    /// advanced.
    pub open spec fn spec_frame_boundary_reached(self) -> bool {
        self.current_ticks > self.current_frame * self.ticks_per_frame
    }

    /// Whether the tick counter has passed the end of the current
    /// frame.
    pub fn frame_boundary_reached(&self) -> (b: bool)
        ensures
            b == self.spec_frame_boundary_reached(),
    {
        proof {
            lemma_mul_inequality(
                self.current_frame as int,
                0x1_0000_0000,
                self.ticks_per_frame as int,
            );
            lemma_mul_inequality(
                self.ticks_per_frame as int,
                0x1_0000_0000_0000_0000,
                0x1_0000_0000,
            );
        }
        (self.current_ticks as u128) > (self.current_frame as u128) * (self.ticks_per_frame
            as u128)
    }

    /// Moves on to the next frame index.
    pub fn advance_frame(&mut self)
        requires
            old(self).current_frame < u32::MAX,
        ensures
            *final(self) == (TimelineState {
                current_frame: (old(self).current_frame + 1) as u32,
                ..*old(self)
            }),
    {
        self.current_frame = self.current_frame + 1;
    }

    /// Advances the tick counter by one event's delta-t.
    pub fn add_ticks(&mut self, delta_t: u32)
        requires
            old(self).current_ticks + delta_t <= u64::MAX,
        ensures
            *final(self) == (TimelineState {
                current_ticks: (old(self).current_ticks + delta_t) as u64,
                ..*old(self)
            }),
    {
        self.current_ticks = self.current_ticks + delta_t as u64;
    }
}

/// The duration of one output frame in ticks: the reference interval
/// scaled by the playback speed, truncated to whole ticks.
pub open spec fn spec_frame_duration_ticks(ref_interval: u32, speed_hundredths: u32) -> int {
    ref_interval * speed_hundredths / 100
}

/// Computes the frame duration in ticks for a reference interval and a
/// playback speed in hundredths.
pub fn frame_duration_ticks(ref_interval: u32, speed_hundredths: u32) -> (r: u64)
    ensures
        r == spec_frame_duration_ticks(ref_interval, speed_hundredths),
{
    proof {
        assert((ref_interval as int) * (speed_hundredths as int) < 0x1_0000_0000
            * 0x1_0000_0000) by (nonlinear_arith)
            requires
                ref_interval <= 0xFFFF_FFFFu32,
                speed_hundredths <= 0xFFFF_FFFFu32,
        ;
        assert((ref_interval as int) * (speed_hundredths as int) >= 0) by (nonlinear_arith)
            requires
                ref_interval >= 0,
                speed_hundredths >= 0,
        ;
        lemma_multiply_divide_lt(
            (ref_interval as int) * (speed_hundredths as int),
            100,
            0x1_0000_0000_0000_0000,
        );
    }
    let product: u128 = (ref_interval as u128) * (speed_hundredths as u128);
    (product / 100) as u64
}

/// The elapsed source time denoted by a tick counter, as whole seconds
/// and leftover nanoseconds: `ticks / tps` seconds, with the remainder
/// scaled to nanoseconds.
pub open spec fn spec_elapsed(ticks: u64, tps: u32) -> (int, int) {
    (ticks as int / tps as int, (ticks as int % tps as int) * 1_000_000_000 / tps as int)
}

/// Splits a tick counter into whole seconds and nanoseconds of source
/// time.
pub fn elapsed_seconds(ticks: u64, tps: u32) -> (r: (u64, u32))
    requires
        tps >= 1,
    ensures
        r.0 == spec_elapsed(ticks, tps).0,
        r.1 == spec_elapsed(ticks, tps).1,
        r.1 < 1_000_000_000,
{
    let secs: u64 = ticks / (tps as u64);
    let rem: u64 = ticks % (tps as u64);
    proof {
        lemma_mod_division_less_than_divisor(ticks as int, tps as int);
        lemma_mul_inequality(rem as int, tps as int - 1, 1_000_000_000);
        assert((tps as int - 1) * 1_000_000_000 < (tps as int) * 1_000_000_000)
            by (nonlinear_arith)
            requires
                tps >= 1,
        ;
        assert((rem as int) * 1_000_000_000 == 1_000_000_000 * (rem as int)) by (nonlinear_arith);
        lemma_multiply_divide_lt((rem as int) * 1_000_000_000, tps as int, 1_000_000_000);
        lemma_mul_inequality(rem as int, 0xFFFF_FFFF, 1_000_000_000);
    }
    let nanos: u64 = (rem * 1_000_000_000) / (tps as u64);
    (secs, nanos as u32)
}

/// A decimal digit as a character.
pub open spec fn spec_digit(d: int) -> char {
    if d == 0 {
        '0'
    } else if d == 1 {
        '1'
    } else if d == 2 {
        '2'
    } else if d == 3 {
        '3'
    } else if d == 4 {
        '4'
    } else if d == 5 {
        '5'
    } else if d == 6 {
        '6'
    } else if d == 7 {
        '7'
    } else if d == 8 {
        '8'
    } else {
        '9'
    }
}

/// The decimal digits of `n`, most significant first.
pub open spec fn spec_decimal(n: nat) -> Seq<char>
    decreases n,
{
    if n < 10 {
        seq![spec_digit(n as int)]
    } else {
        spec_decimal(n / 10).push(spec_digit((n % 10) as int))
    }
}

/// The lowest `width` decimal digits of `n`, zero padded to exactly
/// `width` characters.
pub open spec fn spec_decimal_padded(n: nat, width: nat) -> Seq<char>
    decreases width,
{
    if width == 0 {
        Seq::empty()
    } else {
        spec_decimal_padded(n / 10, (width - 1) as nat).push(spec_digit((n % 10) as int))
    }
}

/// The playback position text `hours:minutes:seconds.nanoseconds`,
/// with nanoseconds zero padded to nine digits.
pub open spec fn spec_duration_text(secs: u64, nanos: u32) -> Seq<char> {
    spec_decimal((secs as nat) / 3600) + seq![':'] + spec_decimal(((secs as nat) % 3600) / 60)
        + seq![':'] + spec_decimal((secs as nat) % 60) + seq!['.'] + spec_decimal_padded(
        nanos as nat,
        9,
    )
}

/// One decimal digit as a string slice.
fn digit_str(d: u8) -> (r: &'static str)
    requires
        d < 10,
    ensures
        r@ == seq![spec_digit(d as int)],
{
    proof {
        reveal_strlit("0");
        reveal_strlit("1");
        reveal_strlit("2");
        reveal_strlit("3");
        reveal_strlit("4");
        reveal_strlit("5");
        reveal_strlit("6");
        reveal_strlit("7");
        reveal_strlit("8");
        reveal_strlit("9");
    }
    let r = match d {
        0 => "0",
        1 => "1",
        2 => "2",
        3 => "3",
        4 => "4",
        5 => "5",
        6 => "6",
        7 => "7",
        8 => "8",
        _ => "9",
    };
    proof {
        assert(r@ =~= seq![spec_digit(d as int)]);
    }
    r
}

/// Appends the decimal digits of `n` to `out`.
fn push_decimal(out: &mut String, n: u64)
    ensures
        final(out)@ == old(out)@ + spec_decimal(n as nat),
    decreases n,
{
    if n < 10 {
        out.append(digit_str(n as u8));
        proof {
            assert(final(out)@ =~= old(out)@ + spec_decimal(n as nat));
        }
    } else {
        push_decimal(out, n / 10);
        out.append(digit_str((n % 10) as u8));
        proof {
            assert(final(out)@ =~= old(out)@ + spec_decimal(n as nat));
        }
    }
}

/// Appends the lowest `width` decimal digits of `n` to `out`, zero
/// padded.
fn push_decimal_padded(out: &mut String, n: u64, width: u8)
    ensures
        final(out)@ == old(out)@ + spec_decimal_padded(n as nat, width as nat),
    decreases width,
{
    if width > 0 {
        push_decimal_padded(out, n / 10, width - 1);
        out.append(digit_str((n % 10) as u8));
    }
    proof {
        assert(final(out)@ =~= old(out)@ + spec_decimal_padded(n as nat, width as nat));
    }
}

/// Renders a playback position, given as whole seconds and
/// nanoseconds, as the text `hours:minutes:seconds.nanoseconds`.
pub fn to_string(secs: u64, nanos: u32) -> (r: String)
    ensures
        r@ == spec_duration_text(secs, nanos),
{
    let hours: u64 = secs / 3600;
    let mins: u64 = (secs % 3600) / 60;
    let s: u64 = secs % 60;
    let mut out = String::new();
    push_decimal(&mut out, hours);
    out.append(":");
    push_decimal(&mut out, mins);
    out.append(":");
    push_decimal(&mut out, s);
    out.append(".");
    push_decimal_padded(&mut out, nanos as u64, 9);
    proof {
        reveal_strlit(":");
        reveal_strlit(".");
        assert(out@ =~= spec_duration_text(secs, nanos));
    }
    out
}

} // verus!
