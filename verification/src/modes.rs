//! The mode coordinator.
//!
//! Two ideas carry its weight. **Desired is not effective**: asking for
//! PassThrough does not make the overlay PassThrough; the platform confirms,
//! and only then is the mode effective. **Every transition is numbered**: a
//! confirmation or failure carrying an old number is ignored, so a callback
//! that arrives late cannot overwrite a state the user has since left.
use vstd::prelude::*;
use crate::platform_error::PlatformError;
use crate::tool::Action;

verus! {

/// A stable, user-visible mode.
#[derive(Clone, Copy, Debug, PartialEq, Eq, Structural)]
pub enum Mode {
    /// No ink, no interception. Committed annotations are retained.
    Hidden,
    /// The canvas receives annotation gestures.
    Draw,
    /// Ink stays visible; input belongs to the applications underneath.
    PassThrough,
}

/// Identifies one attempt to change mode.
#[derive(Clone, Copy, Debug, PartialEq, Eq, Structural, PartialOrd, Ord, Hash)]
pub struct TransitionId(u64);

impl TransitionId {
    pub closed spec fn value(self) -> u64 {
        self.0
    }

    pub fn get(self) -> (value: u64)
        ensures
            value == self.value(),
    {
        self.0
    }
}

/// A mode change that has been requested but not confirmed.
#[derive(Clone, Copy, Debug, PartialEq, Eq, Structural)]
pub struct Pending {
    pub transition: TransitionId,
    pub target: Mode,
}

/// The mode half of the controller: what the user asked for, what the
/// platform has confirmed, and the transition in flight.
#[derive(Clone, Copy, Debug, PartialEq, Eq, Structural)]
pub struct ModeState {
    desired: Mode,
    effective: Mode,
    pending: Option<Pending>,
    next_transition: u64,
    faulted: bool,
    /// Last known state of the drawing button, used to decide whether a
    /// resumed Draw should ignore a button that was already held.
    button_held: bool,
}

/// How a confirmation was received.
#[derive(Clone, Copy, Debug, PartialEq, Eq, Structural)]
pub enum Confirmation {
    /// It named a transition that is not the one in flight, and changed
    /// nothing.
    Stale,
    /// The mode is now effective. When `ignore_held_button` is set, Draw
    /// came back while the button was held, and that press must be ignored
    /// until it is released.
    Applied { ignore_held_button: bool },
}

/// Native work the mode coordinator asks for, in the order it must happen.
#[derive(Clone, Debug, PartialEq, Eq)]
pub enum ModeEffect {
    /// Apply `mode` natively, then confirm or fail it as `transition`.
    ApplyMode { mode: Mode, transition: TransitionId },
    /// Withdraw every surface now, without waiting for anything.
    WithdrawImmediately,
    /// Report a fault. It always comes after the withdrawal it caused.
    Faulted { error: PlatformError },
}

/// The mode an action asks for when `desired` is the mode desired now, for
/// the actions that ask for one. The direct ones ask for their mode whatever
/// is desired; the toggles depend on it.
pub open spec fn requested_mode(action: Action, desired: Mode) -> Option<Mode> {
    match action {
        Action::EnterDraw => Some(Mode::Draw),
        Action::EnterPassThrough => Some(Mode::PassThrough),
        Action::EnterHidden => Some(Mode::Hidden),
        Action::ToggleDraw => Some(if desired == Mode::Draw { Mode::PassThrough } else { Mode::Draw }),
        Action::ToggleVisibility => Some(if desired == Mode::Hidden { Mode::PassThrough } else { Mode::Hidden }),
        _ => None,
    }
}

/// The effects of a request: the transition it started, if it started one.
pub open spec fn request_effects(mode: Mode, started: Option<TransitionId>) -> Seq<ModeEffect> {
    match started {
        Some(t) => seq![ModeEffect::ApplyMode { mode, transition: t }],
        None => seq![],
    }
}

impl ModeState {
    pub closed spec fn desired_spec(self) -> Mode {
        self.desired
    }

    pub closed spec fn effective_spec(self) -> Mode {
        self.effective
    }

    pub closed spec fn pending_spec(self) -> Option<Pending> {
        self.pending
    }

    pub closed spec fn faulted_spec(self) -> bool {
        self.faulted
    }

    pub closed spec fn button_held_spec(self) -> bool {
        self.button_held
    }

    /// The number the next transition will carry.
    pub closed spec fn next_spec(self) -> u64 {
        self.next_transition
    }

    /// Whether another transition can be numbered.
    pub open spec fn can_number(self) -> bool {
        self.next_spec() < u64::MAX
    }

    /// What every state keeps: a transition in flight carries a number below
    /// the next one, and it is for the mode desired.
    pub open spec fn wf(self) -> bool {
        self.pending_spec() matches Some(p) ==> {
            &&& p.transition.value() < self.next_spec()
            &&& p.target == self.desired_spec()
        }
    }

    /// The state after a request for `mode`, and the transition it started if
    /// it started one. Asking for the mode already desired starts nothing,
    /// unless the last transition failed.
    pub closed spec fn requested(self, mode: Mode) -> (ModeState, Option<TransitionId>) {
        if self.desired == mode && !self.faulted {
            (self, None)
        } else {
            let t = TransitionId(self.next_transition);
            (
                ModeState {
                    desired: mode,
                    pending: Some(Pending { transition: t, target: mode }),
                    next_transition: (self.next_transition + 1) as u64,
                    ..self
                },
                Some(t),
            )
        }
    }

    /// The state after the platform confirmed `transition`.
    pub closed spec fn applied(self, transition: TransitionId) -> ModeState {
        match self.pending {
            Some(p) if p.transition == transition => ModeState {
                pending: None,
                effective: p.target,
                faulted: false,
                ..self
            },
            _ => self,
        }
    }

    /// The state after the platform failed `transition`.
    pub closed spec fn failed(self, transition: TransitionId) -> ModeState {
        match self.pending {
            Some(p) if p.transition == transition => ModeState {
                pending: None,
                desired: Mode::Hidden,
                effective: Mode::Hidden,
                faulted: true,
                ..self
            },
            _ => self,
        }
    }

    /// The state after everything was withdrawn at once: hidden, with
    /// nothing in flight.
    pub closed spec fn withdrawn(self) -> ModeState {
        ModeState { desired: Mode::Hidden, effective: Mode::Hidden, pending: None, ..self }
    }

    /// The same state with the button recorded as `held`.
    pub closed spec fn with_button(self, held: bool) -> ModeState {
        ModeState { button_held: held, ..self }
    }

    /// Whether `transition` is the one in flight.
    pub open spec fn is_current(self, transition: TransitionId) -> bool {
        self.pending_spec() matches Some(p) && p.transition == transition
    }

    /// A controller in Hidden, which is where startup begins.
    pub fn new() -> (state: Self)
        ensures
            state.wf(),
            state.desired_spec() == Mode::Hidden,
            state.effective_spec() == Mode::Hidden,
            state.pending_spec() is None,
            !state.faulted_spec(),
            !state.button_held_spec(),
            state.next_spec() == 1,
    {
        ModeState {
            desired: Mode::Hidden,
            effective: Mode::Hidden,
            pending: None,
            next_transition: 1,
            faulted: false,
            button_held: false,
        }
    }

    /// The mode the platform has confirmed.
    pub fn mode(&self) -> (mode: Mode)
        ensures
            mode == self.effective_spec(),
    {
        self.effective
    }

    /// The mode the user has asked for, which may not be in effect yet.
    pub fn desired_mode(&self) -> (mode: Mode)
        ensures
            mode == self.desired_spec(),
    {
        self.desired
    }

    pub fn is_transitioning(&self) -> (transitioning: bool)
        ensures
            transitioning == self.pending_spec() is Some,
    {
        self.pending.is_some()
    }

    pub fn is_faulted(&self) -> (faulted: bool)
        ensures
            faulted == self.faulted_spec(),
    {
        self.faulted
    }

    /// Whether the drawing button is known to be held.
    pub fn button_held(&self) -> (held: bool)
        ensures
            held == self.button_held_spec(),
    {
        self.button_held
    }

    /// Records whether the drawing button is held.
    pub fn set_button_held(&mut self, held: bool)
        ensures
            final(self).wf() == old(self).wf(),
            *final(self) == old(self).with_button(held),
    {
        self.button_held = held;
    }

    /// Whether a press may start a gesture: Draw is in effect and nothing is
    /// in flight that the next state would have to throw away.
    pub fn accepts_gestures(&self) -> (accepts: bool)
        ensures
            accepts == (self.effective_spec() == Mode::Draw && self.pending_spec() is None),
    {
        self.effective == Mode::Draw && self.pending.is_none()
    }

    /// Requests a mode. Returns the transition to apply natively, or `None`
    /// when the mode is already the one desired and nothing failed, so a user
    /// mashing a shortcut cannot queue up redundant native work. The
    /// effective mode does not change until the platform confirms.
    /// Whether another transition can still be numbered. After the last
    /// number nothing can be requested.
    pub fn transitions_left(&self) -> (left: bool)
        ensures
            left == self.can_number(),
    {
        self.next_transition < u64::MAX
    }

    pub fn request(&mut self, mode: Mode) -> (transition: Option<TransitionId>)
        requires
            old(self).wf(),
            old(self).can_number(),
        ensures
            final(self).wf(),
            (*final(self), transition) == old(self).requested(mode),
    {
        if self.desired == mode && !self.faulted {
            return None;
        }
        let transition = TransitionId(self.next_transition);
        self.next_transition = self.next_transition + 1;
        self.desired = mode;
        self.pending = Some(Pending { transition, target: mode });
        Some(transition)
    }

    /// Hidden or PassThrough asks for Draw; Draw asks for PassThrough.
    pub fn toggle_draw(&mut self) -> (transition: Option<TransitionId>)
        requires
            old(self).wf(),
            old(self).can_number(),
        ensures
            final(self).wf(),
            (*final(self), transition) == old(self).requested(
                if old(self).desired_spec() == Mode::Draw { Mode::PassThrough } else { Mode::Draw },
            ),
    {
        match self.desired {
            Mode::Draw => self.request(Mode::PassThrough),
            Mode::Hidden | Mode::PassThrough => self.request(Mode::Draw),
        }
    }

    /// Any visible mode asks for Hidden; Hidden asks for PassThrough.
    pub fn toggle_visibility(&mut self) -> (transition: Option<TransitionId>)
        requires
            old(self).wf(),
            old(self).can_number(),
        ensures
            final(self).wf(),
            (*final(self), transition) == old(self).requested(
                if old(self).desired_spec() == Mode::Hidden { Mode::PassThrough } else { Mode::Hidden },
            ),
    {
        match self.desired {
            Mode::Hidden => self.request(Mode::PassThrough),
            Mode::Draw | Mode::PassThrough => self.request(Mode::Hidden),
        }
    }

    /// Withdraws at once, without waiting for a confirmation. Abandoning the
    /// transition in flight makes any confirmation still on its way stale, so
    /// a late success cannot un-hide the overlay.
    pub fn emergency_hide(&mut self)
        requires
            old(self).wf(),
        ensures
            final(self).wf(),
            *final(self) == old(self).withdrawn(),
    {
        self.desired = Mode::Hidden;
        self.effective = Mode::Hidden;
        self.pending = None;
    }

    /// The output went away: withdraw exactly as an emergency hide does.
    pub fn output_lost(&mut self)
        requires
            old(self).wf(),
        ensures
            final(self).wf(),
            *final(self) == old(self).withdrawn(),
    {
        self.desired = Mode::Hidden;
        self.effective = Mode::Hidden;
        self.pending = None;
    }

    /// The platform applied the mode for `transition`.
    pub fn mode_applied(&mut self, transition: TransitionId) -> (confirmation: Confirmation)
        requires
            old(self).wf(),
        ensures
            final(self).wf(),
            *final(self) == old(self).applied(transition),
            confirmation == (if old(self).is_current(transition) {
                Confirmation::Applied {
                    ignore_held_button: old(self).desired_spec() == Mode::Draw && old(self).button_held_spec(),
                }
            } else {
                Confirmation::Stale
            }),
    {
        match self.pending {
            Some(pending) => {
                if !(pending.transition == transition) {
                    return Confirmation::Stale;
                }
                self.pending = None;
                self.effective = pending.target;
                self.faulted = false;
                Confirmation::Applied { ignore_held_button: pending.target == Mode::Draw && self.button_held }
            },
            None => Confirmation::Stale,
        }
    }

    /// The platform could not apply the mode for `transition`. Returns
    /// whether it was the transition in flight, in which case the overlay is
    /// now hidden and faulted, and the adapter must withdraw before it
    /// reports.
    pub fn mode_failed(&mut self, transition: TransitionId) -> (current: bool)
        requires
            old(self).wf(),
        ensures
            final(self).wf(),
            *final(self) == old(self).failed(transition),
            current == old(self).is_current(transition),
    {
        match self.pending {
            Some(pending) => {
                if !(pending.transition == transition) {
                    return false;
                }
                self.pending = None;
                self.desired = Mode::Hidden;
                self.effective = Mode::Hidden;
                self.faulted = true;
                true
            },
            None => false,
        }
    }
}

impl ModeState {
    /// The mode `action` asks for now, if it asks for one.
    pub fn mode_for(&self, action: Action) -> (mode: Option<Mode>)
        ensures
            mode == requested_mode(action, self.desired_spec()),
    {
        match action {
            Action::EnterDraw => Some(Mode::Draw),
            Action::EnterPassThrough => Some(Mode::PassThrough),
            Action::EnterHidden => Some(Mode::Hidden),
            Action::ToggleDraw => Some(
                match self.desired {
                    Mode::Draw => Mode::PassThrough,
                    Mode::Hidden | Mode::PassThrough => Mode::Draw,
                },
            ),
            Action::ToggleVisibility => Some(
                match self.desired {
                    Mode::Hidden => Mode::PassThrough,
                    Mode::Draw | Mode::PassThrough => Mode::Hidden,
                },
            ),
            _ => None,
        }
    }

    /// Whether a request for `mode` would start a transition: it would
    /// unless that mode is already desired and nothing failed.
    pub fn would_start(&self, mode: Mode) -> (starts: bool)
        ensures
            starts == !(self.desired_spec() == mode && !self.faulted_spec()),
            starts == (self.requested(mode).1 is Some),
    {
        !(self.desired == mode && !self.faulted)
    }

    /// Requests `mode`, returning the native work to do: applying the mode
    /// under the transition it started, or nothing when nothing started.
    pub fn ask(&mut self, mode: Mode) -> (effects: Vec<ModeEffect>)
        requires
            old(self).wf(),
            old(self).can_number(),
        ensures
            final(self).wf(),
            *final(self) == old(self).requested(mode).0,
            effects@ == request_effects(mode, old(self).requested(mode).1),
    {
        let mut effects = Vec::new();
        if let Some(transition) = self.request(mode) {
            effects.push(ModeEffect::ApplyMode { mode, transition });
        }
        assert(effects@ =~= request_effects(mode, old(self).requested(mode).1));
        effects
    }

    /// The platform failed `transition`, with `error`. When it was the
    /// transition in flight the overlay is withdrawn first and the fault
    /// reported after, so nothing is left on screen while the user reads
    /// why; a stale failure asks for nothing.
    pub fn fail(&mut self, transition: TransitionId, error: PlatformError) -> (effects: Vec<ModeEffect>)
        requires
            old(self).wf(),
        ensures
            final(self).wf(),
            *final(self) == old(self).failed(transition),
            old(self).is_current(transition) ==> effects@ == seq![
                ModeEffect::WithdrawImmediately,
                (ModeEffect::Faulted { error }),
            ],
            !old(self).is_current(transition) ==> effects@ == Seq::<ModeEffect>::empty(),
    {
        let mut effects = Vec::new();
        if self.mode_failed(transition) {
            effects.push(ModeEffect::WithdrawImmediately);
            effects.push(ModeEffect::Faulted { error });
        }
        proof {
            if old(self).is_current(transition) {
                assert(effects@ =~= seq![ModeEffect::WithdrawImmediately, ModeEffect::Faulted { error }]);
            } else {
                assert(effects@ =~= Seq::<ModeEffect>::empty());
            }
        }
        effects
    }

    /// Withdraws at once, as an emergency hide or a lost output does, and
    /// asks for the withdrawal: nothing is left in flight to wait for.
    pub fn withdraw_now(&mut self) -> (effects: Vec<ModeEffect>)
        requires
            old(self).wf(),
        ensures
            final(self).wf(),
            *final(self) == old(self).withdrawn(),
            final(self).pending_spec() is None,
            effects@ == seq![ModeEffect::WithdrawImmediately],
    {
        self.emergency_hide();
        let mut effects = Vec::new();
        effects.push(ModeEffect::WithdrawImmediately);
        assert(effects@ =~= seq![ModeEffect::WithdrawImmediately]);
        effects
    }
}

/// Desired is not effective: a request never changes the effective mode, and
/// nothing but a confirmation of the transition in flight makes the desired
/// mode effective.
pub proof fn law_request_is_not_effective(s: ModeState, mode: Mode)
    ensures
        s.requested(mode).0.effective_spec() == s.effective_spec(),
        s.requested(mode).0.desired_spec() == mode,
{
}

/// A confirmation that does not name the transition in flight changes
/// nothing, and neither does a failure.
pub proof fn law_stale_callbacks_are_ignored(s: ModeState, transition: TransitionId)
    requires
        !s.is_current(transition),
    ensures
        s.applied(transition) == s,
        s.failed(transition) == s,
{
}

/// A request followed by the confirmation of the transition it started makes
/// the requested mode effective and clears any fault.
pub proof fn law_confirmed_request_takes_effect(s: ModeState, mode: Mode)
    requires
        s.wf(),
        s.can_number(),
        s.requested(mode).1 matches Some(t),
    ensures
        ({
            let t = s.requested(mode).1.unwrap();
            let after = s.requested(mode).0.applied(t);
            &&& after.effective_spec() == mode
            &&& after.desired_spec() == mode
            &&& after.pending_spec() is None
            &&& !after.faulted_spec()
        }),
{
}

/// Every transition is numbered: once a second transition has started, a late
/// confirmation or failure of the first is ignored.
pub proof fn law_superseded_transition_is_stale(s: ModeState, first: Mode, second: Mode)
    requires
        s.wf(),
        s.next_spec() + 1 < u64::MAX,
        s.requested(first).1 is Some,
        s.requested(first).0.requested(second).1 is Some,
    ensures
        ({
            let t1 = s.requested(first).1.unwrap();
            let later = s.requested(first).0.requested(second).0;
            &&& later.applied(t1) == later
            &&& later.failed(t1) == later
        }),
{
}

/// An emergency hide never waits: the overlay is hidden at once, and no
/// confirmation or failure arriving afterwards can show it again.
pub proof fn law_withdrawal_is_final(s: ModeState, transition: TransitionId)
    ensures
        s.withdrawn().effective_spec() == Mode::Hidden,
        s.withdrawn().desired_spec() == Mode::Hidden,
        s.withdrawn().applied(transition) == s.withdrawn(),
        s.withdrawn().failed(transition) == s.withdrawn(),
{
}

/// A failed transition withdraws: the overlay ends hidden and faulted, with
/// nothing in flight.
pub proof fn law_failure_withdraws(s: ModeState, transition: TransitionId)
    requires
        s.is_current(transition),
    ensures
        s.failed(transition).effective_spec() == Mode::Hidden,
        s.failed(transition).desired_spec() == Mode::Hidden,
        s.failed(transition).pending_spec() is None,
        s.failed(transition).faulted_spec(),
{
}

/// The toggles, mode by mode. Toggling draw asks for Draw from Hidden or
/// PassThrough, and for PassThrough from Draw; toggling visibility asks for
/// PassThrough from Hidden, and for Hidden from Draw or PassThrough. So each
/// toggle always asks for a mode other than the one desired, and pressed
/// twice it comes back to where it started, except that visibility shown
/// again after Draw comes back as PassThrough.
pub proof fn law_toggles_mode_by_mode(desired: Mode)
    ensures
        requested_mode(Action::ToggleDraw, Mode::Hidden) == Some(Mode::Draw),
        requested_mode(Action::ToggleDraw, Mode::PassThrough) == Some(Mode::Draw),
        requested_mode(Action::ToggleDraw, Mode::Draw) == Some(Mode::PassThrough),
        requested_mode(Action::ToggleVisibility, Mode::Hidden) == Some(Mode::PassThrough),
        requested_mode(Action::ToggleVisibility, Mode::Draw) == Some(Mode::Hidden),
        requested_mode(Action::ToggleVisibility, Mode::PassThrough) == Some(Mode::Hidden),
        requested_mode(Action::ToggleDraw, desired).unwrap() != desired,
        requested_mode(Action::ToggleVisibility, desired).unwrap() != desired,
        desired != Mode::Hidden ==> requested_mode(
            Action::ToggleDraw,
            requested_mode(Action::ToggleDraw, desired).unwrap(),
        ) == Some(desired),
        desired != Mode::Draw ==> requested_mode(
            Action::ToggleVisibility,
            requested_mode(Action::ToggleVisibility, desired).unwrap(),
        ) == Some(desired),
{
}

/// What a request does, in full. Asking for the mode already desired, when
/// nothing failed, changes nothing and starts nothing. Any other request
/// starts a transition carrying the next number, which is then the one in
/// flight, for the mode asked for; the numbering moves on by one, and the
/// effective mode, the fault and the button are as they were until the
/// platform answers. (A request can be made while a number is left.)
pub proof fn law_request_starts_a_numbered_transition(s: ModeState, mode: Mode)
    requires
        s.can_number(),
    ensures
        s.desired_spec() == mode && !s.faulted_spec() ==> s.requested(mode) == (s, None::<TransitionId>),
        !(s.desired_spec() == mode && !s.faulted_spec()) ==> {
            let (after, started) = s.requested(mode);
            &&& started matches Some(t) && t.value() == s.next_spec()
            &&& after.pending_spec() == Some((Pending { transition: started.unwrap(), target: mode }))
            &&& after.desired_spec() == mode
            &&& after.effective_spec() == s.effective_spec()
            &&& after.faulted_spec() == s.faulted_spec()
            &&& after.button_held_spec() == s.button_held_spec()
            &&& after.next_spec() == s.next_spec() + 1
        },
{
}

/// What a confirmation does, in full. One naming the transition in flight
/// makes its mode effective, leaves nothing in flight and clears the fault;
/// what is desired, the numbering and the button are as they were. Any other
/// confirmation changes nothing.
pub proof fn law_what_a_confirmation_does(s: ModeState, transition: TransitionId)
    ensures
        !s.is_current(transition) ==> s.applied(transition) == s,
        s.is_current(transition) ==> {
            let after = s.applied(transition);
            &&& after.effective_spec() == s.pending_spec().unwrap().target
            &&& after.pending_spec() is None
            &&& !after.faulted_spec()
            &&& after.desired_spec() == s.desired_spec()
            &&& after.next_spec() == s.next_spec()
            &&& after.button_held_spec() == s.button_held_spec()
        },
{
}

/// What a failure does, in full. One naming the transition in flight leaves
/// the overlay hidden, faulted and with nothing in flight; the numbering and
/// the button are as they were. Any other failure changes nothing.
pub proof fn law_what_a_failure_does(s: ModeState, transition: TransitionId)
    ensures
        !s.is_current(transition) ==> s.failed(transition) == s,
        s.is_current(transition) ==> {
            let after = s.failed(transition);
            &&& after.effective_spec() == Mode::Hidden
            &&& after.desired_spec() == Mode::Hidden
            &&& after.pending_spec() is None
            &&& after.faulted_spec()
            &&& after.next_spec() == s.next_spec()
            &&& after.button_held_spec() == s.button_held_spec()
        },
{
}

/// What a withdrawal does, in full: hidden, desired hidden, nothing in
/// flight; the fault, the numbering and the button are as they were.
pub proof fn law_what_a_withdrawal_does(s: ModeState)
    ensures
        s.withdrawn().effective_spec() == Mode::Hidden,
        s.withdrawn().desired_spec() == Mode::Hidden,
        s.withdrawn().pending_spec() is None,
        s.withdrawn().faulted_spec() == s.faulted_spec(),
        s.withdrawn().next_spec() == s.next_spec(),
        s.withdrawn().button_held_spec() == s.button_held_spec(),
{
}

/// Recording the button changes only the button.
pub proof fn law_recording_the_button_changes_only_the_button(s: ModeState, held: bool)
    ensures
        s.with_button(held).button_held_spec() == held,
        s.with_button(held).effective_spec() == s.effective_spec(),
        s.with_button(held).desired_spec() == s.desired_spec(),
        s.with_button(held).pending_spec() == s.pending_spec(),
        s.with_button(held).faulted_spec() == s.faulted_spec(),
        s.with_button(held).next_spec() == s.next_spec(),
{
}

/// Whether the toolbar is shown in a mode: whenever the ink is.
pub fn toolbar_is_visible(mode: Mode) -> (visible: bool)
    ensures
        visible == (mode == Mode::Draw || mode == Mode::PassThrough),
{
    match mode {
        Mode::Draw | Mode::PassThrough => true,
        Mode::Hidden => false,
    }
}

/// Whether the ink is shown in a mode.
pub fn ink_is_visible(mode: Mode) -> (visible: bool)
    ensures
        visible == (mode == Mode::Draw || mode == Mode::PassThrough),
{
    match mode {
        Mode::Draw | Mode::PassThrough => true,
        Mode::Hidden => false,
    }
}

/// Whether the canvas takes pointer input in a mode: only in Draw, so a
/// button that looks interactive is interactive.
pub fn canvas_is_interactive(mode: Mode) -> (interactive: bool)
    ensures
        interactive == (mode == Mode::Draw),
{
    match mode {
        Mode::Draw => true,
        _ => false,
    }
}

} // verus!
