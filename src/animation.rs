use vstd::prelude::*;
use vstd::arithmetic::div_mod::{lemma_div_by_multiple, lemma_div_is_ordered};
use vstd::arithmetic::mul::lemma_mul_inequality;
use crate::color::{Frame, Rgb, Rgba};

verus! {

/// What the light should do. Durations and intervals are in milliseconds.
#[derive(Clone, Copy, Debug, PartialEq, Eq, Structural)]
pub enum Animation {
    /// The color at its own brightness, unchanging.
    SolidColor(Rgba),
    /// Brightness rises linearly from 0 to the color's brightness during the
    /// first half of `duration`, falls back to 0 during the second half, and
    /// repeats.
    FadeOnOff(Rgba, u64),
    /// Color and brightness move linearly from the first color to the second
    /// over `duration`; the next cycle starts again from the first color.
    FadeFromTo(Rgba, Rgba, u64),
    /// On for `on` milliseconds at the start of each `interval`, off for the rest.
    Blink(Rgba, u64, u64),
    /// `bursts` pulses, one at the start of each `interval`, each lit for `on`
    /// milliseconds, followed by one whole `interval` of rest; the cycle is
    /// `(bursts + 1) * interval` long.
    BlinkBurst(Rgba, u8, u64, u64),
    /// Dark: black at zero brightness.
    Off,
}

/// Why an animation cannot be evaluated.
#[derive(Clone, Copy, Debug, PartialEq, Eq, Structural)]
pub enum AnimationError {
    /// A duration, on-time or interval is zero.
    InvalidParameter,
}

/// Linear interpolation from `x` towards `y` at position `ph` of `d`,
/// rounded towards `x`.
pub open spec fn lerp(x: int, y: int, ph: int, d: int) -> int {
    if x <= y {
        x + (y - x) * ph / d
    } else {
        x - (x - y) * ph / d
    }
}

/// Triangular envelope: rises from 0 to `a` over the first half of `d`,
/// falls back over the second half; rounded down.
pub open spec fn fade_level(a: int, ph: int, d: int) -> int {
    if 2 * ph < d {
        a * (2 * ph) / d
    } else {
        a * (2 * (d - ph)) / d
    }
}

impl Animation {
    /// Every duration, on-time and interval that the animation has is positive.
    pub open spec fn valid(self) -> bool {
        match self {
            Animation::FadeOnOff(_, d) => d > 0,
            Animation::FadeFromTo(_, _, d) => d > 0,
            Animation::Blink(_, on, interval) => on > 0 && interval > 0,
            Animation::BlinkBurst(_, _, on, interval) => on > 0 && interval > 0,
            _ => true,
        }
    }

    /// Whether the animation repeats with a cycle.
    pub open spec fn periodic(self) -> bool {
        match self {
            Animation::SolidColor(_) | Animation::Off => false,
            _ => true,
        }
    }

    /// The length of one cycle in milliseconds (0 for the unchanging kinds).
    pub open spec fn period(self) -> int {
        match self {
            Animation::FadeOnOff(_, d) => d as int,
            Animation::FadeFromTo(_, _, d) => d as int,
            Animation::Blink(_, _, interval) => interval as int,
            Animation::BlinkBurst(_, n, _, interval) => (n + 1) * interval,
            _ => 0,
        }
    }

    /// Whether a `BlinkBurst` is lit at phase `ph` of its cycle.
    pub open spec fn burst_lit(n: int, on: int, interval: int, ph: int) -> bool {
        ph / interval < n && ph % interval < on
    }

    /// The output `t` milliseconds into the animation, as
    /// (red, green, blue, brightness).
    pub open spec fn output_at(self, t: int) -> (int, int, int, int) {
        match self {
            Animation::SolidColor(c) => (c.r as int, c.g as int, c.b as int, c.a as int),
            Animation::FadeOnOff(c, d) => (
                c.r as int,
                c.g as int,
                c.b as int,
                fade_level(c.a as int, t % (d as int), d as int),
            ),
            Animation::FadeFromTo(c1, c2, d) => {
                let ph = t % (d as int);
                (
                    lerp(c1.r as int, c2.r as int, ph, d as int),
                    lerp(c1.g as int, c2.g as int, ph, d as int),
                    lerp(c1.b as int, c2.b as int, ph, d as int),
                    lerp(c1.a as int, c2.a as int, ph, d as int),
                )
            },
            Animation::Blink(c, on, interval) => (
                c.r as int,
                c.g as int,
                c.b as int,
                if t % (interval as int) < on { c.a as int } else { 0 },
            ),
            Animation::BlinkBurst(c, n, on, interval) => (
                c.r as int,
                c.g as int,
                c.b as int,
                if Self::burst_lit(
                    n as int,
                    on as int,
                    interval as int,
                    t % ((n + 1) * interval),
                ) {
                    c.a as int
                } else {
                    0
                },
            ),
            Animation::Off => (0, 0, 0, 0),
        }
    }

    /// Checks the parameters: `Ok` exactly when the animation is valid.
    pub fn validate(&self) -> (r: Result<(), AnimationError>)
        ensures
            r is Ok <==> self.valid(),
            r is Err ==> r == Err::<(), AnimationError>(AnimationError::InvalidParameter),
    {
        let ok = match self {
            Animation::FadeOnOff(_, d) => *d > 0,
            Animation::FadeFromTo(_, _, d) => *d > 0,
            Animation::Blink(_, on, interval) => *on > 0 && *interval > 0,
            Animation::BlinkBurst(_, _, on, interval) => *on > 0 && *interval > 0,
            _ => true,
        };
        if ok {
            Ok(())
        } else {
            Err(AnimationError::InvalidParameter)
        }
    }

    /// The cycle length, or `None` for the unchanging kinds.
    pub fn cycle(&self) -> (r: Option<u128>)
        ensures
            r is Some <==> self.periodic(),
            r matches Some(p) ==> p == self.period(),
    {
        match self {
            Animation::FadeOnOff(_, d) => Some(*d as u128),
            Animation::FadeFromTo(_, _, d) => Some(*d as u128),
            Animation::Blink(_, _, interval) => Some(*interval as u128),
            Animation::BlinkBurst(_, n, _, interval) => {
                proof {
                    lemma_burst_period_fits(*n, *interval);
                }
                Some((*n as u128 + 1) * (*interval as u128))
            },
            _ => None,
        }
    }
}

proof fn lemma_burst_period_fits(n: u8, interval: u64)
    ensures
        0 <= (n + 1) * interval <= 256 * 0xffff_ffff_ffff_ffffu64,
        interval <= (n + 1) * interval,
{
    assert(interval <= (n + 1) * interval) by (nonlinear_arith)
        requires
            0 <= n,
            0 <= interval,
    ;
    assert(0 <= (n + 1) * interval <= 256 * 0xffff_ffff_ffff_ffffu64) by (nonlinear_arith)
        requires
            n <= 255,
            interval <= 0xffff_ffff_ffff_ffffu64,
    ;
}

/// `a * y / d` lies between 0 and `a` when `y` is at most `d`.
proof fn lemma_scaled_within(a: int, y: int, d: int)
    requires
        0 <= a,
        0 <= y <= d,
        0 < d,
    ensures
        0 <= a * y / d <= a,
{
    lemma_mul_inequality(y, d, a);
    lemma_mul_inequality(0, y, a);
    assert(y * a == a * y) by (nonlinear_arith);
    lemma_div_is_ordered(a * y, a * d, d);
    lemma_div_is_ordered(0, a * y, d);
    lemma_div_by_multiple(a, d);
    assert(a * d == d * a) by (nonlinear_arith);
}

/// The interpolated value lies between its two ends.
pub(crate) proof fn lemma_lerp_within(x: int, y: int, ph: int, d: int)
    requires
        0 <= x <= 255,
        0 <= y <= 255,
        0 <= ph < d,
    ensures
        0 <= lerp(x, y, ph, d) <= 255,
        x <= y ==> x <= lerp(x, y, ph, d) <= y,
        y < x ==> y <= lerp(x, y, ph, d) <= x,
{
    if x <= y {
        lemma_scaled_within(y - x, ph, d);
    } else {
        lemma_scaled_within(x - y, ph, d);
    }
}

/// The envelope lies between 0 and its peak `a`.
pub(crate) proof fn lemma_fade_within(a: int, ph: int, d: int)
    requires
        0 <= a,
        0 <= ph < d,
    ensures
        0 <= fade_level(a, ph, d) <= a,
{
    if 2 * ph < d {
        lemma_scaled_within(a, 2 * ph, d);
    } else {
        lemma_scaled_within(a, 2 * (d - ph), d);
    }
}

fn lerp_channel(x: u8, y: u8, ph: u64, d: u64) -> (r: u8)
    requires
        ph < d,
    ensures
        r == lerp(x as int, y as int, ph as int, d as int),
{
    proof {
        lemma_lerp_within(x as int, y as int, ph as int, d as int);
    }
    if x <= y {
        let span: u128 = (y - x) as u128;
        assert(span * (ph as u128) <= 255 * 0xffff_ffff_ffff_ffffu64) by (nonlinear_arith)
            requires
                span <= 255,
                ph <= 0xffff_ffff_ffff_ffffu64,
        ;
        let step: u128 = span * (ph as u128) / (d as u128);
        x + step as u8
    } else {
        let span: u128 = (x - y) as u128;
        assert(span * (ph as u128) <= 255 * 0xffff_ffff_ffff_ffffu64) by (nonlinear_arith)
            requires
                span <= 255,
                ph <= 0xffff_ffff_ffff_ffffu64,
        ;
        let step: u128 = span * (ph as u128) / (d as u128);
        x - step as u8
    }
}

fn fade_channel(a: u8, ph: u64, d: u64) -> (r: u8)
    requires
        ph < d,
    ensures
        r == fade_level(a as int, ph as int, d as int),
{
    proof {
        lemma_fade_within(a as int, ph as int, d as int);
    }
    let peak: u128 = a as u128;
    let twice: u128 = if 2 * (ph as u128) < d as u128 {
        2 * (ph as u128)
    } else {
        2 * ((d - ph) as u128)
    };
    assert(peak * twice <= 255 * 0x1_ffff_ffff_ffff_fffeu128) by (nonlinear_arith)
        requires
            peak <= 255,
            twice <= 0x1_ffff_ffff_ffff_fffeu128,
    ;
    (peak * twice / (d as u128)) as u8
}

/// The frame `elapsed` milliseconds into `anim`; `InvalidParameter` where
/// a duration, on-time or interval is zero.
pub fn evaluate(anim: &Animation, elapsed: u64) -> (r: Result<Frame, AnimationError>)
    ensures
        r is Ok <==> anim.valid(),
        r is Err ==> r == Err::<Frame, AnimationError>(AnimationError::InvalidParameter),
        r matches Ok(f) ==> f@ == anim.output_at(elapsed as int),
{
    match anim {
        Animation::SolidColor(c) => Ok(Frame { color: c.rgb(), brightness: c.a }),
        Animation::FadeOnOff(c, d) => {
            if *d == 0 {
                return Err(AnimationError::InvalidParameter);
            }
            let ph = elapsed % *d;
            Ok(Frame { color: c.rgb(), brightness: fade_channel(c.a, ph, *d) })
        },
        Animation::FadeFromTo(c1, c2, d) => {
            if *d == 0 {
                return Err(AnimationError::InvalidParameter);
            }
            let ph = elapsed % *d;
            let color = Rgb {
                r: lerp_channel(c1.r, c2.r, ph, *d),
                g: lerp_channel(c1.g, c2.g, ph, *d),
                b: lerp_channel(c1.b, c2.b, ph, *d),
            };
            Ok(Frame { color, brightness: lerp_channel(c1.a, c2.a, ph, *d) })
        },
        Animation::Blink(c, on, interval) => {
            if *on == 0 || *interval == 0 {
                return Err(AnimationError::InvalidParameter);
            }
            let lit = elapsed % *interval < *on;
            Ok(Frame { color: c.rgb(), brightness: if lit { c.a } else { 0 } })
        },
        Animation::BlinkBurst(c, n, on, interval) => {
            if *on == 0 || *interval == 0 {
                return Err(AnimationError::InvalidParameter);
            }
            proof {
                lemma_burst_period_fits(*n, *interval);
            }
            let period: u128 = (*n as u128 + 1) * (*interval as u128);
            let ph: u128 = elapsed as u128 % period;
            let iv: u128 = *interval as u128;
            let lit = ph / iv < *n as u128 && ph % iv < *on as u128;
            Ok(Frame { color: c.rgb(), brightness: if lit { c.a } else { 0 } })
        },
        Animation::Off => Ok(Frame::dark()),
    }
}

} // verus!
