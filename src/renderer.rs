//! The frame renderer: keeps the active animation and its time base, and
//! produces one frame per tick.
use vstd::prelude::*;
use vstd::arithmetic::div_mod::{
    lemma_fundamental_div_mod, lemma_mod_bound, lemma_mod_decreases, lemma_mod_multiples_basic,
};
use crate::animation::{evaluate, Animation};
use crate::color::Frame;
use crate::mailbox::Mailbox;

verus! {

/// What the renderer is playing.
#[derive(Clone, Copy, Debug, PartialEq, Eq, Structural)]
pub enum Phase {
    /// Nothing adopted yet: dark.
    Idle,
    /// Playing `anim`, whose current cycle began at `anchor` (milliseconds).
    Playing { anim: Animation, anchor: u64 },
}

/// The phase after a pending value, if any, was considered at time `now`:
/// a valid animation is adopted with its cycle starting now, even when it
/// equals the one playing; an invalid one is refused and play goes on.
pub open spec fn adopt(phase: Phase, pending: Option<Animation>, now: u64) -> Phase {
    match pending {
        Some(a) => if a.valid() {
            Phase::Playing { anim: a, anchor: now }
        } else {
            phase
        },
        None => phase,
    }
}

/// The phase after the time base is brought up to `now`: for a periodic
/// animation the anchor moves forward by as many whole periods as have
/// fully passed; otherwise nothing changes.
pub open spec fn advance(phase: Phase, now: u64) -> Phase {
    match phase {
        Phase::Playing { anim, anchor } => if anim.periodic() && anchor <= now {
            let e = now - anchor;
            Phase::Playing { anim, anchor: (anchor + (e - e % anim.period())) as u64 }
        } else {
            phase
        },
        Phase::Idle => phase,
    }
}

/// The output of `phase` at time `now`; a clock reading before the anchor
/// counts as the start of the cycle.
pub open spec fn output_of(phase: Phase, now: u64) -> (int, int, int, int) {
    match phase {
        Phase::Playing { anim, anchor } => anim.output_at(
            if anchor <= now {
                now - anchor
            } else {
                0
            },
        ),
        Phase::Idle => (0, 0, 0, 0),
    }
}

/// Only valid animations are ever played.
pub open spec fn phase_ok(phase: Phase) -> bool {
    phase matches Phase::Playing { anim, .. } ==> anim.valid()
}

/// The renderer's own state: what plays, and the last frame it produced.
pub struct Renderer {
    phase: Phase,
    last: Frame,
}

impl View for Renderer {
    type V = (Phase, Frame);

    closed spec fn view(&self) -> (Phase, Frame) {
        (self.phase, self.last)
    }
}

impl Renderer {
    /// Well-formed: whatever plays is a valid animation.
    pub open spec fn wf(&self) -> bool {
        phase_ok(self@.0)
    }

    /// A renderer that has adopted nothing yet and shows dark.
    pub fn new() -> (r: Renderer)
        ensures
            r.wf(),
            r@.0 == Phase::Idle,
            r@.1@ == (0int, 0int, 0int, 0int),
    {
        Renderer { phase: Phase::Idle, last: Frame::dark() }
    }

    /// What is playing.
    pub fn phase(&self) -> (p: Phase)
        ensures
            p == self@.0,
    {
        self.phase
    }

    /// The frame that the last tick produced.
    pub fn last_frame(&self) -> (f: Frame)
        ensures
            f == self@.1,
    {
        self.last
    }

    /// One tick at time `now`: takes a pending animation from the mailbox
    /// (adopting it if valid), brings the time base up to `now`, and returns
    /// the frame to show.
    pub fn tick(&mut self, mailbox: &mut Mailbox, now: u64) -> (f: Frame)
        requires
            old(self).wf(),
        ensures
            final(self).wf(),
            final(mailbox)@ is None,
            final(self)@.0 == advance(adopt(old(self)@.0, old(mailbox)@, now), now),
            f@ == output_of(final(self)@.0, now),
            final(self)@.1 == f,
    {
        if let Some(a) = mailbox.try_take() {
            if a.validate().is_ok() {
                self.phase = Phase::Playing { anim: a, anchor: now };
            }
        }
        let f = match self.phase {
            Phase::Idle => Frame::dark(),
            Phase::Playing { anim, anchor } => {
                let mut elapsed: u64 = 0;
                if anchor <= now {
                    elapsed = now - anchor;
                    if let Some(p) = anim.cycle() {
                        proof {
                            crate::laws::lemma_period_positive(anim);
                            lemma_mod_decreases(elapsed as nat, p as nat);
                        }
                        let rest = (elapsed as u128 % p) as u64;
                        self.phase = Phase::Playing { anim, anchor: anchor + (elapsed - rest) };
                        elapsed = rest;
                    }
                }
                match evaluate(&anim, elapsed) {
                    Ok(f) => f,
                    Err(_) => Frame::dark(),
                }
            },
        };
        self.last = f;
        f
    }
}

/// Phase continuity: however late a tick comes, the anchor of a periodic
/// animation moves by whole periods only, ends within one period of `now`,
/// and the frame shown is the animation at `(now - anchor) mod period`,
/// which is also what it shows at `now - anchor` itself.
pub proof fn law_phase_continuity(anim: Animation, anchor: u64, now: u64)
    requires
        anim.valid(),
        anim.periodic(),
        anchor <= now,
    ensures
        advance(Phase::Playing { anim, anchor }, now) matches Phase::Playing { anim: a2, anchor: k2 }
            && a2 == anim && anchor <= k2 <= now && now < k2 + anim.period()
            && (k2 - anchor) % anim.period() == 0,
        output_of(advance(Phase::Playing { anim, anchor }, now), now) == anim.output_at(
            (now - anchor) % anim.period(),
        ),
        output_of(advance(Phase::Playing { anim, anchor }, now), now) == anim.output_at(
            now - anchor,
        ),
{
    let p = anim.period();
    let e = now - anchor;
    crate::laws::lemma_period_positive(anim);
    lemma_mod_decreases(e as nat, p as nat);
    lemma_mod_bound(e, p);
    lemma_fundamental_div_mod(e, p);
    lemma_mod_multiples_basic(e / p, p);
    assert(e - e % p == (e / p) * p) by (nonlinear_arith)
        requires
            e == p * (e / p) + e % p,
    ;
    crate::laws::law_phase_within_cycle(anim, e);
}

} // verus!
