//! The show/fade animation of the overlay.
//!
//! A shortcut makes the overlay visible at the configured opacity; once the
//! display duration has passed it fades out linearly over a fixed fade
//! duration and then goes idle. Times are nanoseconds on a monotonic clock
//! whose origin is the creation of the animation.

use vstd::prelude::*;

use crate::overlay::OverlayConfig;

verus! {

/// Length of the fade-out (300 ms), in nanoseconds.
pub const FADE_DURATION_NS: u128 = 300_000_000;

/// Phase of the animation.
#[derive(Debug, Clone, Copy, PartialEq, Eq, Structural)]
pub enum AnimationState {
    Idle,
    Visible,
    Fading,
}

/// The overlay's current opacity.
///
/// Opacities are bit patterns of single-precision numbers; the fading value
/// is the single-precision result of `target * (1 - elapsed / fade)`, with
/// both durations taken in seconds, which the renderer evaluates.
#[derive(Debug, Clone, Copy, PartialEq, Eq, Structural)]
pub enum OpacityLevel {
    Exact(u32),
    Fading { target_bits: u32, elapsed_ns: u128, fade_ns: u128 },
}

/// The bit pattern of the single-precision zero.
pub const ZERO_OPACITY_BITS: u32 = 0;

#[verifier::external_type_specification]
#[verifier::external_body]
pub struct ExInstant(std::time::Instant);

/// Reads the monotonic clock (`std::time::Instant::now`); nothing is known of
/// the reading.
#[verifier::external_body]
fn clock_now() -> std::time::Instant {
    std::time::Instant::now()
}

/// Nanoseconds elapsed on the monotonic clock since `origin`
/// (`std::time::Instant::elapsed`); the value depends on the time of the call
/// and nothing is stated of it.
#[verifier::external_body]
fn nanos_since(origin: &std::time::Instant) -> u128 {
    origin.elapsed().as_nanos()
}

/// `a - b`, or zero when `b` is later than `a` (`Instant::duration_since` saturates).
pub open spec fn saturating_sub(a: u128, b: u128) -> u128 {
    if a >= b {
        (a - b) as u128
    } else {
        0
    }
}

/// The animation seen as plain data.
pub struct AnimationModel {
    pub state: AnimationState,
    pub shown_at: u128,
    pub fade_start: u128,
    pub display_duration_ns: u128,
    pub fade_duration_ns: u128,
    pub current: OpacityLevel,
    pub target_bits: u32,
    pub dirty: bool,
}

impl AnimationModel {
    /// The invariant every operation keeps: an idle overlay is fully
    /// transparent and has no redraw pending, and a fading opacity is taken
    /// strictly before the end of the fade.
    pub open spec fn wf(self) -> bool {
        &&& self.fade_duration_ns == FADE_DURATION_NS
        &&& self.state == AnimationState::Idle ==> self.current == OpacityLevel::Exact(ZERO_OPACITY_BITS)
        &&& self.state == AnimationState::Idle ==> !self.dirty
        &&& self.current matches OpacityLevel::Fading { elapsed_ns, fade_ns, .. } ==> elapsed_ns
            < fade_ns && fade_ns == self.fade_duration_ns
    }

    /// The overlay is on screen.
    pub open spec fn visible(self) -> bool {
        self.state != AnimationState::Idle
    }

    /// The state after a tick at time `now`.
    pub open spec fn after_tick(self, now: u128) -> AnimationModel {
        let base = match self.state {
            AnimationState::Idle => self,
            AnimationState::Visible => if saturating_sub(now, self.shown_at)
                >= self.display_duration_ns {
                AnimationModel { state: AnimationState::Fading, fade_start: now, ..self }
            } else {
                self
            },
            AnimationState::Fading => {
                let elapsed = saturating_sub(now, self.fade_start);
                if elapsed >= self.fade_duration_ns {
                    AnimationModel {
                        state: AnimationState::Idle,
                        current: OpacityLevel::Exact(ZERO_OPACITY_BITS),
                        ..self
                    }
                } else {
                    AnimationModel {
                        current: OpacityLevel::Fading {
                            target_bits: self.target_bits,
                            elapsed_ns: elapsed,
                            fade_ns: self.fade_duration_ns,
                        },
                        ..self
                    }
                }
            },
        };
        AnimationModel { dirty: false, ..base }
    }

    /// Whether a tick at time `now` asks for a redraw: a pending change, a
    /// phase change, or a fading step.
    pub open spec fn tick_changed(self, now: u128) -> bool {
        ||| self.dirty
        ||| self.state == AnimationState::Fading
        ||| (self.state == AnimationState::Visible && saturating_sub(now, self.shown_at)
            >= self.display_duration_ns)
    }

    /// The state after showing a shortcut at `opacity_bits` at time `now`.
    pub open spec fn after_show(self, opacity_bits: u32, now: u128) -> AnimationModel {
        AnimationModel {
            state: AnimationState::Visible,
            shown_at: now,
            current: OpacityLevel::Exact(opacity_bits),
            target_bits: opacity_bits,
            dirty: true,
            ..self
        }
    }

    /// The state after taking the display duration and opacity of `config`.
    pub open spec fn after_config(self, config: OverlayConfig) -> AnimationModel {
        AnimationModel {
            display_duration_ns: config.display_duration_ns,
            target_bits: config.opacity_bits,
            current: if self.state == AnimationState::Visible {
                OpacityLevel::Exact(config.opacity_bits)
            } else {
                self.current
            },
            ..self
        }
    }

    /// Time left before the fade starts, as seen at time `now`.
    pub open spec fn until_fade(self, now: u128) -> u128 {
        if self.state == AnimationState::Visible {
            let elapsed = saturating_sub(now, self.shown_at);
            if elapsed >= self.display_duration_ns {
                0
            } else {
                (self.display_duration_ns - elapsed) as u128
            }
        } else {
            0
        }
    }
}

/// The fresh, idle animation for `config`.
pub open spec fn fresh_model(config: OverlayConfig) -> AnimationModel {
    AnimationModel {
        state: AnimationState::Idle,
        shown_at: 0,
        fade_start: 0,
        display_duration_ns: config.display_duration_ns,
        fade_duration_ns: FADE_DURATION_NS,
        current: OpacityLevel::Exact(ZERO_OPACITY_BITS),
        target_bits: config.opacity_bits,
        dirty: false,
    }
}

/// Show/fade state of the overlay.
pub struct Animation {
    origin: std::time::Instant,
    state: AnimationState,
    shown_at: u128,
    fade_start: u128,
    display_duration_ns: u128,
    fade_duration_ns: u128,
    current_opacity: OpacityLevel,
    target_opacity_bits: u32,
    dirty: bool,
}

impl View for Animation {
    type V = AnimationModel;

    closed spec fn view(&self) -> AnimationModel {
        AnimationModel {
            state: self.state,
            shown_at: self.shown_at,
            fade_start: self.fade_start,
            display_duration_ns: self.display_duration_ns,
            fade_duration_ns: self.fade_duration_ns,
            current: self.current_opacity,
            target_bits: self.target_opacity_bits,
            dirty: self.dirty,
        }
    }
}

impl Animation {
    /// A new, idle and transparent animation for `config`; its clock starts now.
    pub fn new(config: &OverlayConfig) -> (r: Animation)
        ensures
            r@ == fresh_model(*config),
            r@.wf(),
    {
        Animation {
            origin: clock_now(),
            state: AnimationState::Idle,
            shown_at: 0,
            fade_start: 0,
            display_duration_ns: config.display_duration_ns,
            fade_duration_ns: FADE_DURATION_NS,
            current_opacity: OpacityLevel::Exact(ZERO_OPACITY_BITS),
            target_opacity_bits: config.opacity_bits,
            dirty: false,
        }
    }

    /// Nanoseconds on this animation's clock.
    pub fn now(&self) -> u128 {
        nanos_since(&self.origin)
    }

    /// Shows the overlay at `opacity_bits` at time `now`.
    pub fn show_at(&mut self, opacity_bits: u32, now: u128)
        requires
            old(self)@.wf(),
        ensures
            final(self)@ == old(self)@.after_show(opacity_bits, now),
            final(self)@.wf(),
    {
        self.state = AnimationState::Visible;
        self.shown_at = now;
        self.current_opacity = OpacityLevel::Exact(opacity_bits);
        self.target_opacity_bits = opacity_bits;
        self.dirty = true;
    }

    /// Shows the overlay at `opacity_bits`, now.
    pub fn show(&mut self, opacity_bits: u32)
        requires
            old(self)@.wf(),
        ensures
            exists|now: u128| final(self)@ == old(self)@.after_show(opacity_bits, now),
            final(self)@.wf(),
    {
        let now = self.now();
        self.show_at(opacity_bits, now);
    }

    /// Takes the display duration and opacity of `config`; a visible overlay
    /// switches to the new opacity at once.
    pub fn update_config(&mut self, config: &OverlayConfig)
        requires
            old(self)@.wf(),
        ensures
            final(self)@ == old(self)@.after_config(*config),
            final(self)@.wf(),
    {
        self.display_duration_ns = config.display_duration_ns;
        self.target_opacity_bits = config.opacity_bits;
        if self.state == AnimationState::Visible {
            self.current_opacity = OpacityLevel::Exact(config.opacity_bits);
        }
    }

    /// Advances the animation to time `now`; returns whether a redraw is needed.
    pub fn tick_at(&mut self, now: u128) -> (changed: bool)
        requires
            old(self)@.wf(),
        ensures
            final(self)@ == old(self)@.after_tick(now),
            changed == old(self)@.tick_changed(now),
            final(self)@.wf(),
            old(self)@.state == AnimationState::Idle ==> !changed && final(self)@ == old(self)@,
    {
        let mut changed = false;
        match self.state {
            AnimationState::Idle => {},
            AnimationState::Visible => {
                let since_shown = if now >= self.shown_at {
                    now - self.shown_at
                } else {
                    0
                };
                if since_shown >= self.display_duration_ns {
                    self.state = AnimationState::Fading;
                    self.fade_start = now;
                    changed = true;
                }
            },
            AnimationState::Fading => {
                let elapsed = if now >= self.fade_start {
                    now - self.fade_start
                } else {
                    0
                };
                if elapsed >= self.fade_duration_ns {
                    self.current_opacity = OpacityLevel::Exact(ZERO_OPACITY_BITS);
                    self.state = AnimationState::Idle;
                    changed = true;
                } else {
                    self.current_opacity = OpacityLevel::Fading {
                        target_bits: self.target_opacity_bits,
                        elapsed_ns: elapsed,
                        fade_ns: self.fade_duration_ns,
                    };
                    changed = true;
                }
            },
        }
        if self.dirty {
            self.dirty = false;
            changed = true;
        }
        changed
    }

    /// Advances the animation to the present; returns whether a redraw is needed.
    pub fn tick(&mut self) -> (changed: bool)
        requires
            old(self)@.wf(),
        ensures
            exists|now: u128|
                final(self)@ == old(self)@.after_tick(now) && changed == old(self)@.tick_changed(
                    now,
                ),
            final(self)@.wf(),
            old(self)@.state == AnimationState::Idle ==> !changed && final(self)@ == old(self)@,
    {
        let now = self.now();
        self.tick_at(now)
    }

    /// The current opacity.
    pub fn current_opacity(&self) -> (r: OpacityLevel)
        ensures
            r == self@.current,
    {
        self.current_opacity
    }

    /// Whether the overlay is on screen (visible or fading).
    pub fn is_visible(&self) -> (r: bool)
        ensures
            r == self@.visible(),
    {
        self.state != AnimationState::Idle
    }

    /// The current phase.
    pub fn state(&self) -> (r: AnimationState)
        ensures
            r == self@.state,
    {
        self.state
    }

    /// Time left at `now` before the fade starts; zero unless visible.
    pub fn time_until_fade_at(&self, now: u128) -> (r: u128)
        ensures
            r == self@.until_fade(now),
    {
        match self.state {
            AnimationState::Visible => {
                let elapsed = if now >= self.shown_at {
                    now - self.shown_at
                } else {
                    0
                };
                if elapsed >= self.display_duration_ns {
                    0
                } else {
                    self.display_duration_ns - elapsed
                }
            },
            _ => 0,
        }
    }

    /// Time left before the fade starts, in nanoseconds; zero unless visible.
    pub fn time_until_fade(&self) -> (r: u128)
        ensures
            exists|now: u128| r == self@.until_fade(now),
    {
        let now = self.now();
        self.time_until_fade_at(now)
    }
}

/// Once shown, the overlay stays visible at the shown opacity, with nothing
/// left to redraw, through every tick before its display duration has passed.
pub proof fn lemma_stays_visible(m: AnimationModel, opacity_bits: u32, t: u128, t1: u128, t2: u128)
    requires
        m.wf(),
        saturating_sub(t1, t) < m.display_duration_ns,
        saturating_sub(t2, t) < m.display_duration_ns,
    ensures
        m.after_show(opacity_bits, t).tick_changed(t1),
        m.after_show(opacity_bits, t).after_tick(t1).state == AnimationState::Visible,
        m.after_show(opacity_bits, t).after_tick(t1).current == OpacityLevel::Exact(opacity_bits),
        m.after_show(opacity_bits, t).after_tick(t1).after_tick(t2) == m.after_show(
            opacity_bits,
            t,
        ).after_tick(t1),
        !m.after_show(opacity_bits, t).after_tick(t1).tick_changed(t2),
{
}

/// A shown overlay starts to fade at the first tick once its display duration
/// has passed, fades linearly from the shown opacity, and is idle and fully
/// transparent at the first tick once the fade duration has passed.
pub proof fn lemma_fades_out(
    m: AnimationModel,
    opacity_bits: u32,
    t: u128,
    t1: u128,
    t_mid: u128,
    t2: u128,
)
    requires
        m.wf(),
        saturating_sub(t1, t) >= m.display_duration_ns,
        saturating_sub(t_mid, t1) < FADE_DURATION_NS,
        saturating_sub(t2, t1) >= FADE_DURATION_NS,
    ensures
        m.after_show(opacity_bits, t).tick_changed(t1),
        m.after_show(opacity_bits, t).after_tick(t1).state == AnimationState::Fading,
        m.after_show(opacity_bits, t).after_tick(t1).fade_start == t1,
        m.after_show(opacity_bits, t).after_tick(t1).after_tick(t_mid).current
            == (OpacityLevel::Fading {
            target_bits: opacity_bits,
            elapsed_ns: saturating_sub(t_mid, t1),
            fade_ns: FADE_DURATION_NS,
        }),
        m.after_show(opacity_bits, t).after_tick(t1).tick_changed(t2),
        m.after_show(opacity_bits, t).after_tick(t1).after_tick(t2).state == AnimationState::Idle,
        m.after_show(opacity_bits, t).after_tick(t1).after_tick(t2).current == OpacityLevel::Exact(
            ZERO_OPACITY_BITS,
        ),
{
}

/// A tick leaves an idle overlay exactly as it is, idle and transparent,
/// and asks for no redraw.
pub proof fn lemma_idle_stays_idle(m: AnimationModel, now: u128)
    requires
        m.wf(),
        m.state == AnimationState::Idle,
    ensures
        m.after_tick(now) == m,
        m.after_tick(now).current == OpacityLevel::Exact(ZERO_OPACITY_BITS),
        !m.tick_changed(now),
{
}

/// While visible and before the fade, the time left and the time elapsed
/// since the overlay was shown add up to the display duration.
pub proof fn lemma_until_fade_counts_down(m: AnimationModel, now: u128)
    requires
        m.state == AnimationState::Visible,
        saturating_sub(now, m.shown_at) < m.display_duration_ns,
    ensures
        m.until_fade(now) + saturating_sub(now, m.shown_at) == m.display_duration_ns,
        m.until_fade(now) > 0,
{
}

/// Every operation keeps the invariant, and a new configuration never changes
/// the phase.
pub proof fn lemma_operations_keep_invariant(
    m: AnimationModel,
    opacity_bits: u32,
    config: OverlayConfig,
    now: u128,
)
    requires
        m.wf(),
    ensures
        fresh_model(config).wf(),
        m.after_show(opacity_bits, now).wf(),
        m.after_config(config).wf(),
        m.after_config(config).state == m.state,
        m.after_tick(now).wf(),
{
}

} // verus!
