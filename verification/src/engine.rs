//! The event translation engine: the steady-state dispatch of device events
//! into synthesized key events, and the interactive rebinding session that
//! diverts the event stream to capture new bindings for one player.

use vstd::prelude::*;

use crate::bindings::BindingTable;
use crate::hysteresis::{
    latch_step, latch_channel_of, spec_is_trigger, spec_latch_channel_of, spec_stick_button,
    spec_stick_release_pair, stick_button, stick_release_pair, hysteresis_step, AnalogLatches,
    LatchChannel,
};
use crate::input::{
    ActionEntry, AxisChannel, ButtonId, DeviceEvent, DirectionTable, KeyDirection, KeyEvent,
    LogicalInput, OutputKey, PlayerIndex,
};
use crate::registry::LatchRegistry;

verus! {

/// What the engine is currently doing: steady-state dispatch, or capturing
/// the bindings of one player, remembering which action of the player's list
/// comes next and which controller produced the latest capture.
#[derive(Clone, Copy, PartialEq, Eq, Structural, Debug)]
pub enum EngineMode {
    Dispatch,
    Capturing { player: PlayerIndex, next_action: usize, last_controller: u32 },
}

/// The mathematical state of the engine: one binding map per player, the
/// latch registry as a map, the mode, and the immutable per-player action
/// and direction tables.
#[verifier::ext_equal]
pub ghost struct EngineView {
    pub bindings_first: Map<(u32, LogicalInput), OutputKey>,
    pub bindings_second: Map<(u32, LogicalInput), OutputKey>,
    pub latches: Map<u32, AnalogLatches>,
    pub mode: EngineMode,
    pub actions_first: Seq<OutputKey>,
    pub actions_second: Seq<OutputKey>,
    pub directions_first: DirectionTable,
    pub directions_second: DirectionTable,
}

impl EngineView {
    /// One player's binding map.
    pub open spec fn bindings(self, p: PlayerIndex) -> Map<(u32, LogicalInput), OutputKey> {
        match p {
            PlayerIndex::First => self.bindings_first,
            PlayerIndex::Second => self.bindings_second,
        }
    }

    /// One player's ordered action keys.
    pub open spec fn actions(self, p: PlayerIndex) -> Seq<OutputKey> {
        match p {
            PlayerIndex::First => self.actions_first,
            PlayerIndex::Second => self.actions_second,
        }
    }

    /// One player's directional-pad key table.
    pub open spec fn directions(self, p: PlayerIndex) -> DirectionTable {
        match p {
            PlayerIndex::First => self.directions_first,
            PlayerIndex::Second => self.directions_second,
        }
    }

    /// This state with one player's binding map replaced.
    pub open spec fn with_bindings(
        self,
        p: PlayerIndex,
        m: Map<(u32, LogicalInput), OutputKey>,
    ) -> EngineView {
        match p {
            PlayerIndex::First => EngineView { bindings_first: m, ..self },
            PlayerIndex::Second => EngineView { bindings_second: m, ..self },
        }
    }

    /// This state with the latch map replaced.
    pub open spec fn with_latches(self, l: Map<u32, AnalogLatches>) -> EngineView {
        EngineView { latches: l, ..self }
    }

    /// This state with the mode replaced.
    pub open spec fn with_mode(self, m: EngineMode) -> EngineView {
        EngineView { mode: m, ..self }
    }

    /// Each player has at least one bindable action, and a capture session
    /// always points at an action that exists.
    pub open spec fn wf(self) -> bool {
        &&& self.actions_first.len() >= 1
        &&& self.actions_second.len() >= 1
        &&& (self.mode matches EngineMode::Capturing { player, next_action, .. }
            ==> next_action < self.actions(player).len())
    }
}

/// The key events one binding map contributes for one input: a singleton if
/// the (controller, input) pair is bound, nothing otherwise.
pub open spec fn lookup_events(
    m: Map<(u32, LogicalInput), OutputKey>,
    which: u32,
    input: LogicalInput,
    direction: KeyDirection,
) -> Seq<KeyEvent> {
    if m.dom().contains((which, input)) {
        seq![KeyEvent { key: m[(which, input)], direction }]
    } else {
        Seq::empty()
    }
}

/// The key events emitted for one input: both players' tables are consulted,
/// the first player's contribution first.
pub open spec fn press_events(
    s: EngineView,
    which: u32,
    input: LogicalInput,
    direction: KeyDirection,
) -> Seq<KeyEvent> {
    lookup_events(s.bindings_first, which, input, direction) + lookup_events(
        s.bindings_second,
        which,
        input,
        direction,
    )
}

/// The key a (player, controller, input) triple is bound to, if any.
pub open spec fn bound_key(
    s: EngineView,
    p: PlayerIndex,
    controller: u32,
    input: LogicalInput,
) -> Option<OutputKey> {
    if s.bindings(p).dom().contains((controller, input)) {
        Some(s.bindings(p)[(controller, input)])
    } else {
        None
    }
}

/// Whether an event may be handed to the engine in a given state: an axis
/// event on a tracked channel requires its controller's latches to be
/// registered wherever the engine would consult them (triggers always;
/// stick channels only during dispatch, since a capture session ignores
/// them). An axis event for an unregistered controller on such a channel
/// breaks the registration invariant and is fatal to the caller.
pub open spec fn event_ok(s: EngineView, event: DeviceEvent) -> bool {
    match event {
        DeviceEvent::AxisMotion { which, axis, .. } => match spec_latch_channel_of(axis) {
            None => true,
            Some(ch) => if spec_is_trigger(ch) {
                s.latches.dom().contains(which)
            } else {
                s.mode is Dispatch ==> s.latches.dom().contains(which)
            },
        },
        _ => true,
    }
}

/// Seeds the four directional-pad bindings of one player from the player's
/// direction table, on the given controller, overwriting whatever those
/// buttons were bound to.
pub open spec fn spec_seed(s: EngineView, p: PlayerIndex, controller: u32) -> EngineView {
    let d = s.directions(p);
    let m = s.bindings(p).insert((controller, LogicalInput::Digital(ButtonId::DPadUp)), d.up)
        .insert((controller, LogicalInput::Digital(ButtonId::DPadDown)), d.down).insert(
        (controller, LogicalInput::Digital(ButtonId::DPadLeft)),
        d.left,
    ).insert((controller, LogicalInput::Digital(ButtonId::DPadRight)), d.right);
    s.with_bindings(p, m)
}

/// Commits one captured binding and advances the session: the input is bound
/// to the current action's key; after the last action the directional
/// defaults are seeded on the capturing controller and the engine returns to
/// dispatch, otherwise the session moves to the next action.
pub open spec fn spec_capture_bind(
    s: EngineView,
    p: PlayerIndex,
    i: usize,
    which: u32,
    input: LogicalInput,
) -> EngineView
    recommends
        i < s.actions(p).len(),
{
    let key = s.actions(p)[i as int];
    let s1 = s.with_bindings(p, s.bindings(p).insert((which, input), key));
    if i + 1 == s.actions(p).len() {
        spec_seed(s1, p, which).with_mode(EngineMode::Dispatch)
    } else {
        s1.with_mode(
            EngineMode::Capturing {
                player: p,
                next_action: (i + 1) as usize,
                last_controller: which,
            },
        )
    }
}

/// One capture-session step. A button-down or a trigger crossing into
/// deflection qualifies and commits a binding; connect and disconnect events
/// are applied as housekeeping; everything else (button-up, stick motion,
/// untracked axes) is dropped. A capture step never emits key events.
pub open spec fn spec_capture(
    s: EngineView,
    p: PlayerIndex,
    i: usize,
    event: DeviceEvent,
) -> EngineView
    recommends
        i < s.actions(p).len(),
        event_ok(s, event),
{
    match event {
        DeviceEvent::ButtonDown { which, button } => spec_capture_bind(
            s,
            p,
            i,
            which,
            LogicalInput::Digital(button),
        ),
        DeviceEvent::AxisMotion { which, axis, value } => match spec_latch_channel_of(axis) {
            None => s,
            Some(ch) => if !spec_is_trigger(ch) {
                s
            } else {
                let lat = s.latches[which];
                let stepped = latch_step(lat.get(ch), value);
                if stepped.1 is None {
                    s
                } else {
                    let s1 = s.with_latches(s.latches.insert(which, lat.set(ch, stepped.0)));
                    if stepped.0 {
                        spec_capture_bind(s1, p, i, which, LogicalInput::Analog(axis))
                    } else {
                        s1
                    }
                }
            },
        },
        DeviceEvent::DeviceAdded { which } => s.with_latches(
            s.latches.insert(which, AnalogLatches::cleared()),
        ),
        DeviceEvent::DeviceRemoved { which } => s.with_latches(s.latches.remove(which)),
        _ => s,
    }
}

/// One dispatch step on an axis event: untracked channels are ignored; a
/// tracked channel runs the hysteresis latch, and an edge emits key events —
/// a trigger under its own analog binding, a stick under the directional-pad
/// button its deflection stands for, releasing both opposing buttons when it
/// returns to neutral.
pub open spec fn spec_dispatch_axis(
    s: EngineView,
    which: u32,
    axis: AxisChannel,
    value: i16,
) -> (EngineView, Seq<KeyEvent>)
    recommends
        spec_latch_channel_of(axis) is Some ==> s.latches.dom().contains(which),
{
    match spec_latch_channel_of(axis) {
        None => (s, Seq::empty()),
        Some(ch) => {
            let lat = s.latches[which];
            let stepped = latch_step(lat.get(ch), value);
            match stepped.1 {
                None => (s, Seq::empty()),
                Some(direction) => {
                    let s1 = s.with_latches(s.latches.insert(which, lat.set(ch, stepped.0)));
                    if spec_is_trigger(ch) {
                        (s1, press_events(s, which, LogicalInput::Analog(axis), direction))
                    } else if direction is Press {
                        (
                            s1,
                            press_events(
                                s,
                                which,
                                LogicalInput::Digital(spec_stick_button(axis, value)),
                                KeyDirection::Press,
                            ),
                        )
                    } else {
                        let pair = spec_stick_release_pair(axis);
                        (
                            s1,
                            press_events(
                                s,
                                which,
                                LogicalInput::Digital(pair.0),
                                KeyDirection::Release,
                            ) + press_events(
                                s,
                                which,
                                LogicalInput::Digital(pair.1),
                                KeyDirection::Release,
                            ),
                        )
                    }
                },
            }
        },
    }
}

/// One steady-state dispatch step. Button events of a registered controller
/// are looked up in both players' tables and emit press/release events; a
/// button event of an unregistered controller is a normal miss and emits
/// nothing. Axis events run the hysteresis tracker. Connect and disconnect
/// events maintain the latch registry; disconnecting does not purge the
/// controller's bindings, which merely become dormant.
pub open spec fn spec_dispatch(s: EngineView, event: DeviceEvent) -> (EngineView, Seq<KeyEvent>)
    recommends
        s.mode is Dispatch,
        event_ok(s, event),
{
    match event {
        DeviceEvent::ButtonDown { which, button } => if s.latches.dom().contains(which) {
            (s, press_events(s, which, LogicalInput::Digital(button), KeyDirection::Press))
        } else {
            (s, Seq::empty())
        },
        DeviceEvent::ButtonUp { which, button } => if s.latches.dom().contains(which) {
            (s, press_events(s, which, LogicalInput::Digital(button), KeyDirection::Release))
        } else {
            (s, Seq::empty())
        },
        DeviceEvent::AxisMotion { which, axis, value } => spec_dispatch_axis(s, which, axis, value),
        DeviceEvent::DeviceAdded { which } => (
            s.with_latches(s.latches.insert(which, AnalogLatches::cleared())),
            Seq::empty(),
        ),
        DeviceEvent::DeviceRemoved { which } => (
            s.with_latches(s.latches.remove(which)),
            Seq::empty(),
        ),
        DeviceEvent::Quit => (s, Seq::empty()),
    }
}

/// Entering a rebind session: the player's bindings are cleared immediately
/// and the session starts at the player's first action.
pub open spec fn spec_begin(s: EngineView, p: PlayerIndex) -> EngineView {
    s.with_bindings(p, Map::empty()).with_mode(
        EngineMode::Capturing { player: p, next_action: 0, last_controller: 0 },
    )
}

/// One engine step: dispatch or capture, by the current mode. The second
/// component is the key events emitted; a capture step emits none.
pub open spec fn spec_step(s: EngineView, event: DeviceEvent) -> (EngineView, Seq<KeyEvent>)
    recommends
        s.wf(),
        event_ok(s, event),
{
    match s.mode {
        EngineMode::Dispatch => spec_dispatch(s, event),
        EngineMode::Capturing { player, next_action, .. } => (
            spec_capture(s, player, next_action, event),
            Seq::empty(),
        ),
    }
}

/// What one engine step hands back: the key events to synthesize, in order,
/// and whether the process should terminate.
pub struct StepOutcome {
    pub events: Vec<KeyEvent>,
    pub quit: bool,
}

/// Looks an input up in both players' tables and collects the key events to
/// emit, the first player's first.
pub fn press(
    bindings: &BindingTable,
    which: u32,
    input: LogicalInput,
    direction: KeyDirection,
) -> (out: Vec<KeyEvent>)
    ensures
        out@ == lookup_events(bindings.player_map(PlayerIndex::First), which, input, direction)
            + lookup_events(bindings.player_map(PlayerIndex::Second), which, input, direction),
{
    let mut out: Vec<KeyEvent> = Vec::new();
    match bindings.lookup(PlayerIndex::First, which, input) {
        Some(key) => out.push(KeyEvent { key, direction }),
        None => (),
    }
    match bindings.lookup(PlayerIndex::Second, which, input) {
        Some(key) => out.push(KeyEvent { key, direction }),
        None => (),
    }
    proof {
        let m1 = bindings.player_map(PlayerIndex::First);
        let m2 = bindings.player_map(PlayerIndex::Second);
        assert(m1.dom().contains((which, input)) == (bindings.spec_lookup(
            PlayerIndex::First,
            which,
            input,
        ) is Some));
        assert(m2.dom().contains((which, input)) == (bindings.spec_lookup(
            PlayerIndex::Second,
            which,
            input,
        ) is Some));
        if bindings.spec_lookup(PlayerIndex::First, which, input) is Some {
            assert(m1[(which, input)] == bindings.spec_lookup(
                PlayerIndex::First,
                which,
                input,
            ).unwrap());
        }
        if bindings.spec_lookup(PlayerIndex::Second, which, input) is Some {
            assert(m2[(which, input)] == bindings.spec_lookup(
                PlayerIndex::Second,
                which,
                input,
            ).unwrap());
        }
        assert(out@ =~= lookup_events(m1, which, input, direction) + lookup_events(
            m2,
            which,
            input,
            direction,
        ));
    }
    out
}

/// The event translation engine: the per-player binding tables, the latch
/// registry of connected controllers, the current mode, and the fixed
/// per-player action and direction tables supplied at startup.
pub struct Engine {
    pub bindings: BindingTable,
    pub latches: LatchRegistry,
    pub mode: EngineMode,
    pub actions_first: Vec<ActionEntry>,
    pub actions_second: Vec<ActionEntry>,
    pub directions_first: DirectionTable,
    pub directions_second: DirectionTable,
}

impl View for Engine {
    type V = EngineView;

    open spec fn view(&self) -> EngineView {
        EngineView {
            bindings_first: self.bindings.player_map(PlayerIndex::First),
            bindings_second: self.bindings.player_map(PlayerIndex::Second),
            latches: self.latches.map_view(),
            mode: self.mode,
            actions_first: self.actions_first@.map_values(|e: ActionEntry| e.key),
            actions_second: self.actions_second@.map_values(|e: ActionEntry| e.key),
            directions_first: self.directions_first,
            directions_second: self.directions_second,
        }
    }
}

impl Engine {
    /// The representation invariant: the binding table and the latch registry
    /// hold each key at most once, and the abstract state is well formed.
    pub open spec fn wf(self) -> bool {
        self.bindings.wf() && self.latches.wf() && self@.wf()
    }

    /// Creates the engine in dispatch mode with empty tables, from the fixed
    /// per-player action lists (each at least one action) and direction
    /// tables.
    pub fn new(
        actions_first: Vec<ActionEntry>,
        actions_second: Vec<ActionEntry>,
        directions_first: DirectionTable,
        directions_second: DirectionTable,
    ) -> (r: Engine)
        requires
            actions_first@.len() >= 1,
            actions_second@.len() >= 1,
        ensures
            r.wf(),
            r@.mode == EngineMode::Dispatch,
            r@.bindings_first =~= Map::<(u32, LogicalInput), OutputKey>::empty(),
            r@.bindings_second =~= Map::<(u32, LogicalInput), OutputKey>::empty(),
            r@.latches =~= Map::<u32, AnalogLatches>::empty(),
            r@.actions_first == actions_first@.map_values(|e: ActionEntry| e.key),
            r@.actions_second == actions_second@.map_values(|e: ActionEntry| e.key),
            r@.directions_first == directions_first,
            r@.directions_second == directions_second,
    {
        Engine {
            bindings: BindingTable::new(),
            latches: LatchRegistry::new(),
            mode: EngineMode::Dispatch,
            actions_first,
            actions_second,
            directions_first,
            directions_second,
        }
    }

    /// The current mode.
    pub fn current_mode(&self) -> (m: EngineMode)
        ensures
            m == self@.mode,
    {
        self.mode
    }

    /// Whether a controller id is registered (connected and opened).
    pub fn is_registered(&self, controller: u32) -> (r: bool)
        ensures
            r == self@.latches.dom().contains(controller),
    {
        let r = self.latches.is_registered(controller);
        proof {
            assert(self@.latches.dom().contains(controller) == (self.latches.spec_get(
                controller,
            ) is Some));
        }
        r
    }

    /// Reads the binding of a (player, controller, input) triple; absence is
    /// a normal outcome meaning "no action".
    pub fn lookup(&self, p: PlayerIndex, controller: u32, input: LogicalInput) -> (r: Option<
        OutputKey,
    >)
        ensures
            r == bound_key(self@, p, controller, input),
    {
        let r = self.bindings.lookup(p, controller, input);
        proof {
            let m = self@.bindings(p);
            assert(m.dom().contains((controller, input)) == (self.bindings.spec_lookup(
                p,
                controller,
                input,
            ) is Some));
            if self.bindings.spec_lookup(p, controller, input) is Some {
                assert(m[(controller, input)] == self.bindings.spec_lookup(
                    p,
                    controller,
                    input,
                ).unwrap());
            }
        }
        r
    }

    /// How many actions one player's list holds.
    pub fn action_count(&self, p: PlayerIndex) -> (n: usize)
        ensures
            n == self@.actions(p).len(),
    {
        match p {
            PlayerIndex::First => self.actions_first.len(),
            PlayerIndex::Second => self.actions_second.len(),
        }
    }

    /// The label of one action of one player's list, for prompting.
    pub fn action_label(&self, p: PlayerIndex, i: usize) -> (label: &String)
        requires
            i < self@.actions(p).len(),
        ensures
            label@ == match p {
                PlayerIndex::First => self.actions_first@[i as int].label@,
                PlayerIndex::Second => self.actions_second@[i as int].label@,
            },
    {
        match p {
            PlayerIndex::First => &self.actions_first[i].label,
            PlayerIndex::Second => &self.actions_second[i].label,
        }
    }

    /// Seeds the four directional-pad bindings of one player from the
    /// player's direction table onto one controller, overwriting whatever
    /// those buttons were bound to.
    pub fn seed_directions(&mut self, player: PlayerIndex, controller: u32)
        requires
            old(self).wf(),
        ensures
            final(self).wf(),
            final(self)@ == spec_seed(old(self)@, player, controller),
    {
        let d = match player {
            PlayerIndex::First => self.directions_first,
            PlayerIndex::Second => self.directions_second,
        };
        self.bindings.bind(player, controller, LogicalInput::Digital(ButtonId::DPadUp), d.up);
        self.bindings.bind(player, controller, LogicalInput::Digital(ButtonId::DPadDown), d.down);
        self.bindings.bind(player, controller, LogicalInput::Digital(ButtonId::DPadLeft), d.left);
        self.bindings.bind(player, controller, LogicalInput::Digital(ButtonId::DPadRight), d.right);
        proof {
            assert(self@ =~= spec_seed(old(self)@, player, controller));
        }
    }

    /// Enters a rebind session for one player: the player's bindings are
    /// cleared immediately and the session awaits the first action's input.
    pub fn begin_rebind(&mut self, player: PlayerIndex)
        requires
            old(self).wf(),
        ensures
            final(self).wf(),
            final(self)@ == spec_begin(old(self)@, player),
    {
        self.bindings.clear(player);
        self.mode = EngineMode::Capturing { player, next_action: 0, last_controller: 0 };
        proof {
            assert(self@ =~= spec_begin(old(self)@, player));
        }
    }

    /// Commits one captured binding and advances the session.
    fn bind_and_advance(&mut self, player: PlayerIndex, i: usize, which: u32, input: LogicalInput)
        requires
            old(self).wf(),
            i < old(self)@.actions(player).len(),
        ensures
            final(self).wf(),
            final(self)@ == spec_capture_bind(old(self)@, player, i, which, input),
    {
        let key = match player {
            PlayerIndex::First => self.actions_first[i].key,
            PlayerIndex::Second => self.actions_second[i].key,
        };
        proof {
            assert(key == old(self)@.actions(player)[i as int]);
        }
        self.bindings.bind(player, which, input, key);
        let len = match player {
            PlayerIndex::First => self.actions_first.len(),
            PlayerIndex::Second => self.actions_second.len(),
        };
        if i + 1 == len {
            self.seed_directions(player, which);
            self.mode = EngineMode::Dispatch;
        } else {
            self.mode = EngineMode::Capturing {
                player,
                next_action: i + 1,
                last_controller: which,
            };
        }
        proof {
            assert(self@ =~= spec_capture_bind(old(self)@, player, i, which, input));
        }
    }

    /// One capture-session step.
    fn capture_event(&mut self, player: PlayerIndex, next_action: usize, event: DeviceEvent)
        requires
            old(self).wf(),
            old(self)@.mode matches EngineMode::Capturing { player: cp, next_action: ca, .. }
                && cp == player && ca == next_action,
            event_ok(old(self)@, event),
        ensures
            final(self).wf(),
            final(self)@ == spec_capture(old(self)@, player, next_action, event),
    {
        match event {
            DeviceEvent::ButtonDown { which, button } => {
                self.bind_and_advance(player, next_action, which, LogicalInput::Digital(button));
            },
            DeviceEvent::AxisMotion { which, axis, value } => {
                match latch_channel_of(axis) {
                    None => (),
                    Some(ch) => {
                        if is_trigger_channel(ch) {
                            let lat = self.latches.get(which).unwrap();
                            proof {
                                assert(old(self)@.latches[which] == lat);
                            }
                            let stepped = hysteresis_step(lat.read(ch), value);
                            match stepped.1 {
                                None => (),
                                Some(_) => {
                                    self.latches.set_latches(which, lat.written(ch, stepped.0));
                                    proof {
                                        assert(self@ =~= old(self)@.with_latches(
                                            old(self)@.latches.insert(
                                                which,
                                                lat.set(ch, stepped.0),
                                            ),
                                        ));
                                    }
                                    if stepped.0 {
                                        self.bind_and_advance(
                                            player,
                                            next_action,
                                            which,
                                            LogicalInput::Analog(axis),
                                        );
                                    }
                                },
                            }
                        }
                    },
                }
            },
            DeviceEvent::DeviceAdded { which } => {
                self.latches.register(which);
                proof {
                    assert(self@ =~= spec_capture(old(self)@, player, next_action, event));
                }
            },
            DeviceEvent::DeviceRemoved { which } => {
                self.latches.remove(which);
                proof {
                    assert(self@ =~= spec_capture(old(self)@, player, next_action, event));
                }
            },
            _ => (),
        }
    }

    /// One steady-state dispatch step.
    fn dispatch_event(&mut self, event: DeviceEvent) -> (out: Vec<KeyEvent>)
        requires
            old(self).wf(),
            old(self)@.mode is Dispatch,
            event_ok(old(self)@, event),
        ensures
            final(self).wf(),
            final(self)@ == spec_dispatch(old(self)@, event).0,
            out@ == spec_dispatch(old(self)@, event).1,
    {
        match event {
            DeviceEvent::ButtonDown { which, button } => {
                if self.latches.is_registered(which) {
                    press(
                        &self.bindings,
                        which,
                        LogicalInput::Digital(button),
                        KeyDirection::Press,
                    )
                } else {
                    Vec::new()
                }
            },
            DeviceEvent::ButtonUp { which, button } => {
                if self.latches.is_registered(which) {
                    press(
                        &self.bindings,
                        which,
                        LogicalInput::Digital(button),
                        KeyDirection::Release,
                    )
                } else {
                    Vec::new()
                }
            },
            DeviceEvent::AxisMotion { which, axis, value } => {
                match latch_channel_of(axis) {
                    None => Vec::new(),
                    Some(ch) => {
                        let lat = self.latches.get(which).unwrap();
                        proof {
                            assert(old(self)@.latches[which] == lat);
                        }
                        let stepped = hysteresis_step(lat.read(ch), value);
                        match stepped.1 {
                            None => Vec::new(),
                            Some(direction) => {
                                self.latches.set_latches(which, lat.written(ch, stepped.0));
                                proof {
                                    assert(self@ =~= spec_dispatch_axis(
                                        old(self)@,
                                        which,
                                        axis,
                                        value,
                                    ).0);
                                }
                                if is_trigger_channel(ch) {
                                    press(
                                        &self.bindings,
                                        which,
                                        LogicalInput::Analog(axis),
                                        direction,
                                    )
                                } else {
                                    proof {
                                        assert(axis == AxisChannel::LeftX || axis
                                            == AxisChannel::LeftY);
                                    }
                                    match direction {
                                        KeyDirection::Press => press(
                                            &self.bindings,
                                            which,
                                            LogicalInput::Digital(stick_button(axis, value)),
                                            KeyDirection::Press,
                                        ),
                                        KeyDirection::Release => {
                                            let pair = stick_release_pair(axis);
                                            let mut out = press(
                                                &self.bindings,
                                                which,
                                                LogicalInput::Digital(pair.0),
                                                KeyDirection::Release,
                                            );
                                            let mut tail = press(
                                                &self.bindings,
                                                which,
                                                LogicalInput::Digital(pair.1),
                                                KeyDirection::Release,
                                            );
                                            out.append(&mut tail);
                                            out
                                        },
                                    }
                                }
                            },
                        }
                    },
                }
            },
            DeviceEvent::DeviceAdded { which } => {
                self.latches.register(which);
                proof {
                    assert(self@ =~= spec_dispatch(old(self)@, event).0);
                }
                Vec::new()
            },
            DeviceEvent::DeviceRemoved { which } => {
                self.latches.remove(which);
                proof {
                    assert(self@ =~= spec_dispatch(old(self)@, event).0);
                }
                Vec::new()
            },
            DeviceEvent::Quit => Vec::new(),
        }
    }

    /// One engine step: routes the event by the current mode, returns the key
    /// events to synthesize (none during a capture session) and whether the
    /// process should terminate (exactly on a quit event).
    pub fn step(&mut self, event: DeviceEvent) -> (out: StepOutcome)
        requires
            old(self).wf(),
            event_ok(old(self)@, event),
        ensures
            final(self).wf(),
            final(self)@ == spec_step(old(self)@, event).0,
            out.events@ == spec_step(old(self)@, event).1,
            out.quit == (event is Quit),
    {
        let quit = match event {
            DeviceEvent::Quit => true,
            _ => false,
        };
        let mode = self.mode;
        match mode {
            EngineMode::Dispatch => {
                let events = self.dispatch_event(event);
                StepOutcome { events, quit }
            },
            EngineMode::Capturing { player, next_action, .. } => {
                self.capture_event(player, next_action, event);
                StepOutcome { events: Vec::new(), quit }
            },
        }
    }
}

/// Whether a latch slot belongs to a trigger.
fn is_trigger_channel(ch: LatchChannel) -> (r: bool)
    ensures
        r == spec_is_trigger(ch),
{
    match ch {
        LatchChannel::TriggerRight => true,
        LatchChannel::TriggerLeft => true,
        LatchChannel::StickX => false,
        LatchChannel::StickY => false,
    }
}

/// After a leftward stick deflection followed by a return to neutral, release
/// events are emitted for both opposing directional-pad buttons — the right
/// one too, though it was never pressed — since the sign may have flipped
/// between polls without an observed neutral reading.
pub proof fn lemma_stick_dual_release(s: EngineView, which: u32, push: i16, rest: i16)
    requires
        s.wf(),
        s.mode is Dispatch,
        s.latches.dom().contains(which),
        !s.latches[which].stick_x,
        crate::hysteresis::spec_deflected(push),
        push <= 0,
        !crate::hysteresis::spec_deflected(rest),
    ensures
        ({
            let deflect = spec_step(
                s,
                DeviceEvent::AxisMotion { which, axis: AxisChannel::LeftX, value: push },
            );
            let neutral = spec_step(
                deflect.0,
                DeviceEvent::AxisMotion { which, axis: AxisChannel::LeftX, value: rest },
            );
            deflect.1 == press_events(
                s,
                which,
                LogicalInput::Digital(ButtonId::DPadLeft),
                KeyDirection::Press,
            ) && neutral.1 == press_events(
                s,
                which,
                LogicalInput::Digital(ButtonId::DPadRight),
                KeyDirection::Release,
            ) + press_events(
                s,
                which,
                LogicalInput::Digital(ButtonId::DPadLeft),
                KeyDirection::Release,
            )
        }),
{
}

/// A right trigger rising from neutral past the threshold and later falling
/// back emits its binding's press exactly once, nothing while it stays
/// deflected, and its release exactly once.
pub proof fn lemma_trigger_round_trip(s: EngineView, which: u32, rise: i16, hold: i16, fall: i16)
    requires
        s.wf(),
        s.mode is Dispatch,
        s.latches.dom().contains(which),
        !s.latches[which].trigger_right,
        crate::hysteresis::spec_deflected(rise),
        crate::hysteresis::spec_deflected(hold),
        !crate::hysteresis::spec_deflected(fall),
    ensures
        ({
            let up = spec_step(
                s,
                DeviceEvent::AxisMotion { which, axis: AxisChannel::TriggerRight, value: rise },
            );
            let held = spec_step(
                up.0,
                DeviceEvent::AxisMotion { which, axis: AxisChannel::TriggerRight, value: hold },
            );
            let down = spec_step(
                held.0,
                DeviceEvent::AxisMotion { which, axis: AxisChannel::TriggerRight, value: fall },
            );
            &&& up.1 == press_events(
                s,
                which,
                LogicalInput::Analog(AxisChannel::TriggerRight),
                KeyDirection::Press,
            )
            &&& held.1 == Seq::<KeyEvent>::empty()
            &&& down.1 == press_events(
                s,
                which,
                LogicalInput::Analog(AxisChannel::TriggerRight),
                KeyDirection::Release,
            )
        }),
{
}

/// Directional seeding always wins over a user capture for the same
/// directional-pad button: whatever the session bound to the four buttons,
/// after seeding they map to the player's direction table.
pub proof fn lemma_seeding_wins(s: EngineView, p: PlayerIndex, controller: u32)
    ensures
        ({
            let t = spec_seed(s, p, controller);
            &&& t.bindings(p)[(controller, LogicalInput::Digital(ButtonId::DPadUp))]
                == s.directions(p).up
            &&& t.bindings(p)[(controller, LogicalInput::Digital(ButtonId::DPadDown))]
                == s.directions(p).down
            &&& t.bindings(p)[(controller, LogicalInput::Digital(ButtonId::DPadLeft))]
                == s.directions(p).left
            &&& t.bindings(p)[(controller, LogicalInput::Digital(ButtonId::DPadRight))]
                == s.directions(p).right
            &&& t.bindings(p).dom().contains(
                (controller, LogicalInput::Digital(ButtonId::DPadUp)),
            )
            &&& t.bindings(p).dom().contains(
                (controller, LogicalInput::Digital(ButtonId::DPadDown)),
            )
            &&& t.bindings(p).dom().contains(
                (controller, LogicalInput::Digital(ButtonId::DPadLeft)),
            )
            &&& t.bindings(p).dom().contains(
                (controller, LogicalInput::Digital(ButtonId::DPadRight)),
            )
        }),
{
}

/// Capturing a directional-pad button as the session's last action does not
/// leave the user's key on it: completing the session seeds the direction
/// table over it.
pub proof fn lemma_seed_overrides_capture(
    s: EngineView,
    p: PlayerIndex,
    i: usize,
    last: u32,
    which: u32,
)
    requires
        s.wf(),
        s.mode == (EngineMode::Capturing { player: p, next_action: i, last_controller: last }),
        i + 1 == s.actions(p).len(),
    ensures
        ({
            let t = spec_step(
                s,
                DeviceEvent::ButtonDown { which, button: ButtonId::DPadUp },
            ).0;
            &&& t.mode is Dispatch
            &&& t.bindings(p)[(which, LogicalInput::Digital(ButtonId::DPadUp))] == s.directions(
                p,
            ).up
        }),
{
}

} // verus!
