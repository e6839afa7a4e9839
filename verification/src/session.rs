//! The state of the renderer's event loop: what it shows, what commands
//! do to it, and what each frame does with the surface.

use vstd::prelude::*;

use crate::animation::{
    fresh_model, saturating_sub, Animation, AnimationModel, AnimationState, OpacityLevel,
    FADE_DURATION_NS, ZERO_OPACITY_BITS,
};
use crate::overlay::OverlayConfig;

verus! {

/// What the overlay is asked to show.
#[derive(Debug, Clone)]
pub enum DisplayEvent {
    /// One shortcut, by its display text.
    Shortcut(String),
    /// Several shortcuts, most recent first.
    History(Vec<String>),
    /// Nothing.
    Clear,
    /// A new configuration.
    UpdateConfig(OverlayConfig),
}

/// Commands sent to the overlay over the message bus.
#[derive(Debug, Clone)]
pub enum OverlayCommand {
    Start,
    Stop,
    Restart,
    Clear,
    UpdateConfig(OverlayConfig),
}

/// Commands sent to the renderer's event loop.
#[derive(Debug, Clone)]
pub enum RendererCommand {
    Update(DisplayEvent),
    Stop,
}

/// What the event loop does with the surface on a frame.
#[derive(Debug, Clone, Copy, PartialEq, Eq, Structural)]
pub enum FrameAction {
    /// Render the shortcuts at this opacity and commit.
    Draw(OpacityLevel),
    /// Detach the buffer: the overlay has gone idle.
    Hide,
    /// Leave the surface as it is.
    Keep,
}

/// The state of the renderer's event loop.
pub struct OverlaySession {
    config: OverlayConfig,
    animation: Animation,
    combos: Vec<String>,
    running: bool,
}

/// The event loop's state seen as plain data.
pub struct SessionModel {
    pub config: OverlayConfig,
    pub animation: AnimationModel,
    pub combos: Seq<String>,
    pub running: bool,
}

impl SessionModel {
    /// The animation keeps its invariant and runs on the configured display
    /// duration and opacity.
    pub open spec fn wf(self) -> bool {
        &&& self.animation.wf()
        &&& self.animation.display_duration_ns == self.config.display_duration_ns
        &&& self.animation.target_bits == self.config.opacity_bits
    }

    /// The session after `frame_step` at `now`, and the frame's action: an
    /// overlay on screen is ticked, and redrawn at its current opacity when
    /// the tick asks for it, or detached when it went idle.
    pub open spec fn frame_step(self, now: u128) -> (SessionModel, FrameAction) {
        if self.animation.visible() {
            let a = self.animation.after_tick(now);
            let action = if !self.animation.tick_changed(now) {
                FrameAction::Keep
            } else if a.visible() {
                FrameAction::Draw(a.current)
            } else {
                FrameAction::Hide
            };
            (SessionModel { animation: a, ..self }, action)
        } else {
            (self, FrameAction::Keep)
        }
    }

    /// `self` is `old` after taking `event`: a shortcut or a history replaces
    /// what is shown and shows the overlay at the configured opacity at some
    /// time; `Clear` empties it; a configuration is taken over.
    pub open spec fn displays(self, old: SessionModel, event: DisplayEvent) -> bool {
        match event {
            DisplayEvent::Shortcut(c) => {
                &&& self.combos == seq![c]
                &&& self.config == old.config
                &&& self.running == old.running
                &&& exists|now: u128|
                    self.animation == old.animation.after_show(old.config.opacity_bits, now)
            },
            DisplayEvent::History(cs) => {
                &&& self.combos == cs@
                &&& self.config == old.config
                &&& self.running == old.running
                &&& exists|now: u128|
                    self.animation == old.animation.after_show(old.config.opacity_bits, now)
            },
            DisplayEvent::Clear => self.cleared(old),
            DisplayEvent::UpdateConfig(c) => self == (SessionModel {
                config: c,
                animation: old.animation.after_config(c),
                ..old
            }),
        }
    }

    /// Nothing shown and the animation back to its fresh state.
    pub open spec fn cleared(self, old: SessionModel) -> bool {
        &&& self.config == old.config
        &&& self.running == old.running
        &&& self.combos.len() == 0
        &&& self.animation == fresh_model(old.config)
    }
}

impl View for OverlaySession {
    type V = SessionModel;

    closed spec fn view(&self) -> SessionModel {
        SessionModel {
            config: self.config,
            animation: self.animation@,
            combos: self.combos@,
            running: self.running,
        }
    }
}

impl OverlaySession {
    /// A running session for `config`, showing nothing.
    pub fn new(config: OverlayConfig) -> (r: OverlaySession)
        ensures
            r@.config == config,
            r@.animation == fresh_model(config),
            r@.combos.len() == 0,
            r@.running,
            r@.wf(),
    {
        let animation = Animation::new(&config);
        OverlaySession { config, animation, combos: Vec::new(), running: true }
    }

    /// The configuration in force.
    pub fn config(&self) -> (r: &OverlayConfig)
        ensures
            *r == self@.config,
    {
        &self.config
    }

    /// The shortcuts on display, most recent first.
    pub fn combos(&self) -> (r: &Vec<String>)
        ensures
            r@ == self@.combos,
    {
        &self.combos
    }

    /// How many of the shortcuts on display are drawn: the first ones, at
    /// most the configured history length.
    pub fn drawn_count(&self) -> (r: usize)
        ensures
            r == if self@.combos.len() < self@.config.history_length {
                self@.combos.len() as usize
            } else {
                self@.config.history_length
            },
    {
        if self.combos.len() < self.config.history_length {
            self.combos.len()
        } else {
            self.config.history_length
        }
    }

    /// Whether the event loop keeps going.
    pub fn is_running(&self) -> (r: bool)
        ensures
            r == self@.running,
    {
        self.running
    }

    /// Whether the overlay is on screen.
    pub fn is_visible(&self) -> (r: bool)
        ensures
            r == self@.animation.visible(),
    {
        self.animation.is_visible()
    }

    /// Nanoseconds on the animation's clock.
    pub fn now(&self) -> u128 {
        self.animation.now()
    }

    /// Milliseconds to sleep between iterations: short while the overlay is
    /// on screen, longer while it is idle.
    pub fn idle_sleep_ms(&self) -> (r: u64)
        ensures
            r == if self@.animation.visible() {
                16u64
            } else {
                50u64
            },
    {
        if self.animation.is_visible() {
            16
        } else {
            50
        }
    }

    fn clear(&mut self)
        requires
            old(self)@.wf(),
        ensures
            final(self)@.cleared(old(self)@),
            final(self)@.wf(),
    {
        self.combos = Vec::new();
        self.animation = Animation::new(&self.config);
    }

    /// Takes what the overlay is asked to show.
    pub fn handle_display_event(&mut self, event: DisplayEvent)
        requires
            old(self)@.wf(),
        ensures
            final(self)@.wf(),
            final(self)@.displays(old(self)@, event),
    {
        match event {
            DisplayEvent::Shortcut(c) => {
                let mut combos = Vec::new();
                combos.push(c);
                self.combos = combos;
                let opacity = self.config.opacity_bits;
                self.animation.show(opacity);
            },
            DisplayEvent::History(cs) => {
                self.combos = cs;
                let opacity = self.config.opacity_bits;
                self.animation.show(opacity);
            },
            DisplayEvent::Clear => {
                self.clear();
            },
            DisplayEvent::UpdateConfig(c) => {
                self.animation.update_config(&c);
                self.config = c;
            },
        }
    }

    /// Takes a command sent to the event loop.
    pub fn handle_renderer_command(&mut self, command: RendererCommand)
        requires
            old(self)@.wf(),
        ensures
            final(self)@.wf(),
            match command {
                RendererCommand::Update(event) => final(self)@.displays(old(self)@, event),
                RendererCommand::Stop => final(self)@ == (SessionModel { running: false, ..old(self)@ }),
            },
    {
        match command {
            RendererCommand::Update(event) => self.handle_display_event(event),
            RendererCommand::Stop => {
                self.running = false;
            },
        }
    }

    /// Takes a command from the message bus; returns whether the layer
    /// surface must be recreated.
    pub fn handle_overlay_command(&mut self, command: OverlayCommand) -> (recreate: bool)
        requires
            old(self)@.wf(),
        ensures
            final(self)@.wf(),
            recreate == (command is Restart),
            match command {
                OverlayCommand::Start => final(self)@ == (SessionModel {
                    running: true,
                    ..old(self)@
                }),
                OverlayCommand::Stop => final(self)@ == (SessionModel {
                    running: false,
                    ..old(self)@
                }),
                OverlayCommand::Restart => final(self)@.cleared(old(self)@),
                OverlayCommand::Clear => final(self)@.cleared(old(self)@),
                OverlayCommand::UpdateConfig(c) => final(self)@ == (SessionModel {
                    config: c,
                    animation: old(self)@.animation.after_config(c),
                    ..old(self)@
                }),
            },
    {
        match command {
            OverlayCommand::Start => {
                self.running = true;
                false
            },
            OverlayCommand::Stop => {
                self.running = false;
                false
            },
            OverlayCommand::Restart => {
                self.clear();
                true
            },
            OverlayCommand::Clear => {
                self.clear();
                false
            },
            OverlayCommand::UpdateConfig(c) => {
                self.animation.update_config(&c);
                self.config = c;
                false
            },
        }
    }

    /// One frame at time `now` on the animation's clock.
    pub fn frame_at(&mut self, now: u128) -> (r: FrameAction)
        requires
            old(self)@.wf(),
        ensures
            (final(self)@, r) == old(self)@.frame_step(now),
            final(self)@.wf(),
    {
        if self.animation.is_visible() {
            let changed = self.animation.tick_at(now);
            if changed {
                if self.animation.is_visible() {
                    FrameAction::Draw(self.animation.current_opacity())
                } else {
                    FrameAction::Hide
                }
            } else {
                FrameAction::Keep
            }
        } else {
            FrameAction::Keep
        }
    }

    /// One frame, now.
    pub fn frame(&mut self) -> (r: FrameAction)
        requires
            old(self)@.wf(),
        ensures
            exists|now: u128| (final(self)@, r) == old(self)@.frame_step(now),
            final(self)@.wf(),
    {
        let now = self.now();
        self.frame_at(now)
    }
}

/// A shortcut that has just been shown is drawn at the configured opacity on
/// the next frame, whenever that frame comes.
pub proof fn lemma_shown_shortcut_is_drawn(m: SessionModel, t: u128, now: u128)
    requires
        m.wf(),
    ensures
        (SessionModel {
            animation: m.animation.after_show(m.config.opacity_bits, t),
            ..m
        }).frame_step(now).1 == FrameAction::Draw(OpacityLevel::Exact(m.config.opacity_bits)),
{
}

/// A shown shortcut is detached from the screen by the first frame once the
/// display and fade durations have passed, after which frames leave the
/// surface alone and the loop sleeps its idle interval.
pub proof fn lemma_shown_shortcut_goes_away(m: SessionModel, t: u128, t1: u128, t2: u128, t3: u128)
    requires
        m.wf(),
        saturating_sub(t1, t) >= m.config.display_duration_ns,
        saturating_sub(t2, t1) >= FADE_DURATION_NS,
    ensures
        ({
            let shown = SessionModel {
                animation: m.animation.after_show(m.config.opacity_bits, t),
                ..m
            };
            let (s1, a1) = shown.frame_step(t1);
            let (s2, a2) = s1.frame_step(t2);
            let (s3, a3) = s2.frame_step(t3);
            &&& a1 == FrameAction::Draw(OpacityLevel::Exact(m.config.opacity_bits))
            &&& a2 == FrameAction::Hide
            &&& !s2.animation.visible()
            &&& s2.animation.current == OpacityLevel::Exact(ZERO_OPACITY_BITS)
            &&& a3 == FrameAction::Keep
            &&& s3 == s2
        }),
{
}

/// A cleared session shows nothing: no shortcuts, an idle and transparent
/// animation, and frames that leave the surface alone.
pub proof fn lemma_cleared_session_is_blank(m: SessionModel, old: SessionModel, now: u128)
    requires
        m.cleared(old),
    ensures
        m.wf(),
        m.combos.len() == 0,
        m.animation.state == AnimationState::Idle,
        m.animation.current == OpacityLevel::Exact(ZERO_OPACITY_BITS),
        m.frame_step(now) == (m, FrameAction::Keep),
{
}

/// While the overlay fades, each frame before the end of the fade is drawn
/// at the fading opacity: the configured opacity scaled down by the part of
/// the fade that has passed since it began.
pub proof fn lemma_fading_frames_draw_fading_opacity(m: SessionModel, now: u128)
    requires
        m.wf(),
        m.animation.state == AnimationState::Fading,
        now >= m.animation.fade_start,
        now - m.animation.fade_start < FADE_DURATION_NS,
    ensures
        m.frame_step(now).1 == FrameAction::Draw(
            OpacityLevel::Fading {
                target_bits: m.config.opacity_bits,
                elapsed_ns: (now - m.animation.fade_start) as u128,
                fade_ns: FADE_DURATION_NS,
            },
        ),
        m.frame_step(now).0.animation.state == AnimationState::Fading,
        m.frame_step(now).0.animation.current == m.animation.after_tick(now).current,
{
}

/// Once the fade is over, the next frame takes the overlay off the screen.
pub proof fn lemma_fade_end_hides(m: SessionModel, now: u128)
    requires
        m.wf(),
        m.animation.state == AnimationState::Fading,
        saturating_sub(now, m.animation.fade_start) >= FADE_DURATION_NS,
    ensures
        m.frame_step(now).1 == FrameAction::Hide,
        m.frame_step(now).0.animation.current == OpacityLevel::Exact(0),
{
}

} // verus!
