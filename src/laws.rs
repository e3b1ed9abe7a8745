//! Properties of the evaluator, stated over `Animation::output_at`.
use vstd::prelude::*;
use vstd::arithmetic::div_mod::{
    lemma_div_by_multiple, lemma_mod_add_multiples_vanish, lemma_mod_bound, lemma_mod_twice,
    lemma_small_mod,
};
use crate::animation::{fade_level, lemma_fade_within, lemma_lerp_within, Animation};
use crate::color::Rgba;

verus! {

/// Every channel and the brightness of any valid animation's output lie in
/// 0..=255, at every elapsed time.
pub proof fn law_output_in_range(anim: Animation, t: nat)
    requires
        anim.valid(),
    ensures
        0 <= anim.output_at(t as int).0 <= 255,
        0 <= anim.output_at(t as int).1 <= 255,
        0 <= anim.output_at(t as int).2 <= 255,
        0 <= anim.output_at(t as int).3 <= 255,
{
    match anim {
        Animation::FadeOnOff(c, d) => {
            lemma_mod_bound(t as int, d as int);
            lemma_fade_within(c.a as int, t as int % d as int, d as int);
        },
        Animation::FadeFromTo(c1, c2, d) => {
            let ph = t as int % d as int;
            lemma_mod_bound(t as int, d as int);
            lemma_lerp_within(c1.r as int, c2.r as int, ph, d as int);
            lemma_lerp_within(c1.g as int, c2.g as int, ph, d as int);
            lemma_lerp_within(c1.b as int, c2.b as int, ph, d as int);
            lemma_lerp_within(c1.a as int, c2.a as int, ph, d as int);
        },
        _ => {},
    }
}

/// A solid color shows the same frame at every elapsed time.
pub proof fn law_solid_is_constant(c: Rgba, t1: nat, t2: nat)
    ensures
        Animation::SolidColor(c).output_at(t1 as int) == Animation::SolidColor(c).output_at(
            t2 as int,
        ),
        Animation::SolidColor(c).output_at(t1 as int) == (
            c.r as int,
            c.g as int,
            c.b as int,
            c.a as int,
        ),
{
}

/// A valid periodic animation repeats after one period.
pub proof fn law_cycle_repeats(anim: Animation, t: int)
    requires
        anim.valid(),
        anim.periodic(),
    ensures
        anim.output_at(t + anim.period()) == anim.output_at(t),
{
    lemma_period_positive(anim);
    lemma_mod_add_multiples_vanish(t, anim.period());
    assert(anim.period() + t == t + anim.period());
}

/// A valid periodic animation at any time shows what it shows at that time
/// reduced modulo its period.
pub proof fn law_phase_within_cycle(anim: Animation, t: int)
    requires
        anim.valid(),
        anim.periodic(),
    ensures
        anim.output_at(t % anim.period()) == anim.output_at(t),
{
    lemma_period_positive(anim);
    lemma_mod_twice(t, anim.period());
}

/// The period of a valid periodic animation is positive.
pub proof fn lemma_period_positive(anim: Animation)
    requires
        anim.valid(),
        anim.periodic(),
    ensures
        anim.period() > 0,
{
    if let Animation::BlinkBurst(_, n, _, interval) = anim {
        assert((n + 1) * interval > 0) by (nonlinear_arith)
            requires
                0 <= n,
                0 < interval,
        ;
    }
}

/// A fade starts dark at the beginning of its cycle and, for an even
/// duration, reaches the color's full brightness at half the cycle; the
/// color itself never changes.
pub proof fn law_fade_start_and_peak(c: Rgba, d: u64)
    requires
        d > 0,
        d % 2 == 0,
    ensures
        Animation::FadeOnOff(c, d).output_at(0) == (c.r as int, c.g as int, c.b as int, 0int),
        Animation::FadeOnOff(c, d).output_at(d as int / 2) == (
            c.r as int,
            c.g as int,
            c.b as int,
            c.a as int,
        ),
{
    let h = (d / 2) as int;
    lemma_small_mod(0, d as nat);
    lemma_small_mod(h as nat, d as nat);
    assert(2 * (d - h) == d);
    lemma_div_by_multiple(c.a as int, d as int);
    assert(fade_level(c.a as int, h, d as int) == c.a as int);
    assert(fade_level(c.a as int, 0, d as int) == 0);
}

/// A blink shows the color's brightness while the position within the
/// interval is below the on-time, and 0 otherwise, with the color unchanged.
pub proof fn law_blink_on_off(c: Rgba, on: u64, interval: u64, t: nat)
    requires
        on > 0,
        interval > 0,
    ensures
        Animation::Blink(c, on, interval).output_at(t as int) == (
            c.r as int,
            c.g as int,
            c.b as int,
            if t % (interval as nat) < on {
                c.a as int
            } else {
                0
            },
        ),
{
}

/// `Off` is black at zero brightness at every elapsed time.
pub proof fn law_off_is_dark(t: int)
    ensures
        Animation::Off.output_at(t) == (0int, 0int, 0int, 0int),
{
}

} // verus!
