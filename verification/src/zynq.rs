//! The power sequencer of the SoC: four supply rails brought up in order and
//! taken down in reverse, and the SoC's reset line.
//!
//! The sequencer holds the level that each of its five outputs is to have. The
//! caller drives the pins from `rails()` after every call, and reads the four
//! power-good inputs before every tick.

use vstd::prelude::*;
use crate::power::{set_sleep_power_state, PowerState, PowerStateView};

verus! {

/// Where the sequence stands.
#[derive(Clone, Copy, Debug, PartialEq, Eq, Structural)]
pub enum SequenceState {
    /// Going up: reset asserted, nothing enabled by this sequence yet.
    Stage0Up,
    /// Going up: 1V0 enabled, waiting for it to be good.
    Stage1Up,
    /// Going up: 1V8 enabled, waiting for it to be good.
    Stage2Up,
    /// Going up: 1V5 and 3V3 enabled, waiting for both to be good.
    Stage3Up,
    /// All rails good, reset released.
    On,
    /// All rails off.
    Off,
    /// Going down: reset asserted, nothing disabled by this sequence yet.
    Stage3Down,
    /// Going down: 1V5 and 3V3 disabled, waiting for both to drop.
    Stage2Down,
    /// Going down: 1V8 disabled, waiting for it to drop.
    Stage1Down,
    /// Going down: 1V0 disabled, waiting for it to drop.
    Stage0Down,
}

/// Levels of the five outputs. An enable is high to switch its rail on;
/// `zynq_por` is low to hold the SoC in reset.
#[derive(Clone, Copy, Debug, PartialEq, Eq, Structural)]
pub struct Rails {
    pub en_1v0: bool,
    pub en_1v5: bool,
    pub en_1v8: bool,
    pub en_3v3: bool,
    pub zynq_por: bool,
}

/// Levels of the four power-good inputs; high when the rail is in regulation.
#[derive(Clone, Copy, Debug, PartialEq, Eq, Structural)]
pub struct PowerGood {
    pub pg_1v0: bool,
    pub pg_1v5: bool,
    pub pg_1v8: bool,
    pub pg_3v3: bool,
}

impl SequenceState {
    /// The SoC is on or on its way there.
    pub open spec fn is_up(self) -> bool {
        self is On || self is Stage0Up || self is Stage1Up || self is Stage2Up || self is Stage3Up
    }

    /// Number of steps taken on the way up; 4 is `On`. Meaningless elsewhere.
    pub open spec fn up_rank(self) -> int {
        match self {
            SequenceState::Stage0Up => 0,
            SequenceState::Stage1Up => 1,
            SequenceState::Stage2Up => 2,
            SequenceState::Stage3Up => 3,
            SequenceState::On => 4,
            _ => -1,
        }
    }

    /// Number of steps taken on the way down; 4 is `Off`. Meaningless
    /// elsewhere.
    pub open spec fn down_rank(self) -> int {
        match self {
            SequenceState::Stage3Down => 0,
            SequenceState::Stage2Down => 1,
            SequenceState::Stage1Down => 2,
            SequenceState::Stage0Down => 3,
            SequenceState::Off => 4,
            _ => -1,
        }
    }

    /// Whether the power-good inputs let the sequence leave this state at a
    /// tick. `On` and `Off` are never left by a tick.
    pub open spec fn ready(self, pg: PowerGood) -> bool {
        match self {
            SequenceState::Stage0Up => true,
            SequenceState::Stage1Up => pg.pg_1v0,
            SequenceState::Stage2Up => pg.pg_1v8,
            SequenceState::Stage3Up => pg.pg_1v5 && pg.pg_3v3,
            SequenceState::Stage3Down => true,
            SequenceState::Stage2Down => !pg.pg_1v5 && !pg.pg_3v3,
            SequenceState::Stage1Down => !pg.pg_1v8,
            SequenceState::Stage0Down => !pg.pg_1v0,
            SequenceState::On => false,
            SequenceState::Off => false,
        }
    }

    /// The state that follows this one in its sequence.
    pub open spec fn next(self) -> SequenceState {
        match self {
            SequenceState::Stage0Up => SequenceState::Stage1Up,
            SequenceState::Stage1Up => SequenceState::Stage2Up,
            SequenceState::Stage2Up => SequenceState::Stage3Up,
            SequenceState::Stage3Up => SequenceState::On,
            SequenceState::Stage3Down => SequenceState::Stage2Down,
            SequenceState::Stage2Down => SequenceState::Stage1Down,
            SequenceState::Stage1Down => SequenceState::Stage0Down,
            SequenceState::Stage0Down => SequenceState::Off,
            SequenceState::On => SequenceState::On,
            SequenceState::Off => SequenceState::Off,
        }
    }
}

impl Rails {
    /// Everything low: all rails off, SoC in reset.
    pub open spec fn all_low() -> Rails {
        Rails { en_1v0: false, en_1v5: false, en_1v8: false, en_3v3: false, zynq_por: false }
    }

    /// The outputs on a way up that began with all rails off: each rail is
    /// enabled from the state on that its step leads to.
    pub open spec fn going_up(state: SequenceState) -> Rails {
        Rails {
            en_1v0: state.up_rank() >= 1,
            en_1v8: state.up_rank() >= 2,
            en_1v5: state.up_rank() >= 3,
            en_3v3: state.up_rank() >= 3,
            zynq_por: state.up_rank() >= 4,
        }
    }

    /// The outputs on a way down that began with all rails on: each rail is
    /// disabled from the state on that its step leads to.
    pub open spec fn going_down(state: SequenceState) -> Rails {
        Rails {
            en_1v5: state.down_rank() < 1,
            en_3v3: state.down_rank() < 1,
            en_1v8: state.down_rank() < 2,
            en_1v0: state.down_rank() < 3,
            zynq_por: false,
        }
    }

    /// Every enable that is high in `self` is high in `later`.
    pub open spec fn enables_kept(self, later: Rails) -> bool {
        &&& self.en_1v0 ==> later.en_1v0
        &&& self.en_1v5 ==> later.en_1v5
        &&& self.en_1v8 ==> later.en_1v8
        &&& self.en_3v3 ==> later.en_3v3
    }
}

/// The sequencer: its state and the levels of its outputs.
pub struct ZynqStateView {
    pub state: SequenceState,
    pub rails: Rails,
}

impl ZynqStateView {
    /// What holds of the sequencer at all times. The reset line is released
    /// in `On` and nowhere else. On the way up no rail that a step has
    /// enabled is off; on the way down no rail that a step has disabled is
    /// on.
    pub open spec fn wf(self) -> bool {
        &&& self.rails.zynq_por <==> self.state is On
        &&& self.state.up_rank() >= 1 ==> self.rails.en_1v0
        &&& self.state.up_rank() >= 2 ==> self.rails.en_1v8
        &&& self.state.up_rank() >= 3 ==> self.rails.en_1v5 && self.rails.en_3v3
        &&& self.state.down_rank() >= 1 ==> !self.rails.en_1v5 && !self.rails.en_3v3
        &&& self.state.down_rank() >= 2 ==> !self.rails.en_1v8
        &&& self.state.down_rank() >= 3 ==> !self.rails.en_1v0
    }

    /// Off, with every output low.
    pub open spec fn initial() -> Self {
        ZynqStateView { state: SequenceState::Off, rails: Rails::all_low() }
    }

    /// A request to power up. From `Off` or from any state on the way down
    /// it asserts reset and starts the way up; the enables stay as they are.
    /// On the way up or in `On` it changes nothing.
    pub open spec fn power_up(self) -> Self {
        if self.state.is_up() {
            self
        } else {
            ZynqStateView {
                state: SequenceState::Stage0Up,
                rails: Rails { zynq_por: false, ..self.rails },
            }
        }
    }

    /// A request to power down. From `On` or from any state on the way up it
    /// asserts reset and starts the way down; the enables stay as they are.
    /// On the way down or in `Off` it changes nothing.
    pub open spec fn power_down(self) -> Self {
        if self.state.is_up() {
            ZynqStateView {
                state: SequenceState::Stage3Down,
                rails: Rails { zynq_por: false, ..self.rails },
            }
        } else {
            self
        }
    }

    /// A press of the button: down when up, up when down.
    pub open spec fn power_toggle(self) -> Self {
        if self.state.is_up() {
            self.power_down()
        } else {
            self.power_up()
        }
    }

    /// The outputs after the step that leaves `self.state`.
    pub open spec fn stepped_rails(self) -> Rails {
        match self.state {
            SequenceState::Stage0Up => Rails { en_1v0: true, ..self.rails },
            SequenceState::Stage1Up => Rails { en_1v8: true, ..self.rails },
            SequenceState::Stage2Up => Rails { en_1v5: true, en_3v3: true, ..self.rails },
            SequenceState::Stage3Up => Rails { zynq_por: true, ..self.rails },
            SequenceState::Stage3Down => Rails { en_1v5: false, en_3v3: false, ..self.rails },
            SequenceState::Stage2Down => Rails { en_1v8: false, ..self.rails },
            SequenceState::Stage1Down => Rails { en_1v0: false, ..self.rails },
            SequenceState::Stage0Down => self.rails,
            SequenceState::On => self.rails,
            SequenceState::Off => self.rails,
        }
    }

    /// One tick. Where the power-good inputs allow it, the sequence takes its
    /// one next step; otherwise nothing changes.
    pub open spec fn tick(self, pg: PowerGood) -> Self {
        if self.state.ready(pg) {
            ZynqStateView { state: self.state.next(), rails: self.stepped_rails() }
        } else {
            self
        }
    }

    /// One tick for each entry of `pgs`, in order, with that entry as the
    /// power-good inputs.
    pub open spec fn run(self, pgs: Seq<PowerGood>) -> Self
        decreases pgs.len(),
    {
        if pgs.len() == 0 {
            self
        } else {
            self.run(pgs.drop_last()).tick(pgs.last())
        }
    }
}

/// The SoC's power sequencer.
pub struct ZynqState {
    power_supplies: Rails,
    power_state: SequenceState,
}

impl View for ZynqState {
    type V = ZynqStateView;

    closed spec fn view(&self) -> ZynqStateView {
        ZynqStateView { state: self.power_state, rails: self.power_supplies }
    }
}

impl ZynqState {
    #[verifier::type_invariant]
    spec fn inv(&self) -> bool {
        self@.wf()
    }

    /// The sequencer at boot: off, every output low.
    pub fn new() -> (zynq: Self)
        ensures
            zynq@ == ZynqStateView::initial(),
            zynq@.wf(),
    {
        ZynqState {
            power_supplies: Rails {
                en_1v0: false,
                en_1v5: false,
                en_1v8: false,
                en_3v3: false,
                zynq_por: false,
            },
            power_state: SequenceState::Off,
        }
    }

    /// Where the sequence stands.
    pub fn state(&self) -> (state: SequenceState)
        ensures
            state == self@.state,
            self@.wf(),
    {
        proof {
            use_type_invariant(self);
        }
        self.power_state
    }

    /// The levels to drive the five outputs to. The reset line is high in
    /// `On` and in no other state.
    pub fn rails(&self) -> (rails: Rails)
        ensures
            rails == self@.rails,
            rails.zynq_por <==> self@.state is On,
            self@.wf(),
    {
        proof {
            use_type_invariant(self);
        }
        self.power_supplies
    }

    /// Asks for the SoC to be powered up, and tells the sleep supervisor that
    /// it is wanted on.
    pub fn power_up(&mut self, power: &mut PowerState)
        ensures
            final(self)@ == old(self)@.power_up(),
            final(self)@.wf(),
            final(power)@ == (PowerStateView { power_state: true, ..old(power)@ }),
    {
        proof {
            use_type_invariant(&*self);
        }
        set_sleep_power_state(power, true);
        match self.power_state {
            SequenceState::On
            | SequenceState::Stage0Up
            | SequenceState::Stage1Up
            | SequenceState::Stage2Up
            | SequenceState::Stage3Up => {},
            SequenceState::Off
            | SequenceState::Stage3Down
            | SequenceState::Stage2Down
            | SequenceState::Stage1Down
            | SequenceState::Stage0Down => {
                let rails = self.power_supplies;
                *self = ZynqState {
                    power_supplies: Rails { zynq_por: false, ..rails },
                    power_state: SequenceState::Stage0Up,
                };
            },
        }
    }

    /// Asks for the SoC to be powered down, and tells the sleep supervisor
    /// that it is no longer wanted on.
    pub fn power_down(&mut self, power: &mut PowerState)
        ensures
            final(self)@ == old(self)@.power_down(),
            final(self)@.wf(),
            final(power)@ == (PowerStateView { power_state: false, ..old(power)@ }),
    {
        proof {
            use_type_invariant(&*self);
        }
        set_sleep_power_state(power, false);
        match self.power_state {
            SequenceState::Off
            | SequenceState::Stage3Down
            | SequenceState::Stage2Down
            | SequenceState::Stage1Down
            | SequenceState::Stage0Down => {},
            SequenceState::On
            | SequenceState::Stage0Up
            | SequenceState::Stage1Up
            | SequenceState::Stage2Up
            | SequenceState::Stage3Up => {
                let rails = self.power_supplies;
                *self = ZynqState {
                    power_supplies: Rails { zynq_por: false, ..rails },
                    power_state: SequenceState::Stage3Down,
                };
            },
        }
    }

    /// A press of the button: powers down when the SoC is on or on its way
    /// up, and up otherwise.
    pub fn power_toggle(&mut self, power: &mut PowerState)
        ensures
            final(self)@ == old(self)@.power_toggle(),
            final(self)@.wf(),
            final(power)@ == (PowerStateView {
                power_state: !old(self)@.state.is_up(),
                ..old(power)@
            }),
    {
        match self.power_state {
            SequenceState::Stage3Down
            | SequenceState::Stage2Down
            | SequenceState::Stage1Down
            | SequenceState::Stage0Down
            | SequenceState::Off => self.power_up(power),
            SequenceState::On
            | SequenceState::Stage0Up
            | SequenceState::Stage1Up
            | SequenceState::Stage2Up
            | SequenceState::Stage3Up => self.power_down(power),
        }
    }

    /// Whether the SoC is on or on its way up.
    pub fn is_power_on(&self) -> (on: bool)
        ensures
            on == self@.state.is_up(),
    {
        match self.power_state {
            SequenceState::Stage3Down
            | SequenceState::Stage2Down
            | SequenceState::Stage1Down
            | SequenceState::Stage0Down
            | SequenceState::Off => false,
            SequenceState::On
            | SequenceState::Stage0Up
            | SequenceState::Stage1Up
            | SequenceState::Stage2Up
            | SequenceState::Stage3Up => true,
        }
    }

    /// One tick of the sequence, with the power-good inputs as they are now.
    pub fn tick(&mut self, now: u32, pg: PowerGood)
        ensures
            final(self)@ == old(self)@.tick(pg),
            final(self)@.wf(),
    {
        proof {
            use_type_invariant(&*self);
        }
        let rails = self.power_supplies;
        match self.power_state {
            SequenceState::On | SequenceState::Off => {},
            SequenceState::Stage0Up => {
                *self = ZynqState {
                    power_supplies: Rails { en_1v0: true, ..rails },
                    power_state: SequenceState::Stage1Up,
                };
            },
            SequenceState::Stage1Up => {
                if pg.pg_1v0 {
                    *self = ZynqState {
                        power_supplies: Rails { en_1v8: true, ..rails },
                        power_state: SequenceState::Stage2Up,
                    };
                }
            },
            SequenceState::Stage2Up => {
                if pg.pg_1v8 {
                    *self = ZynqState {
                        power_supplies: Rails { en_1v5: true, en_3v3: true, ..rails },
                        power_state: SequenceState::Stage3Up,
                    };
                }
            },
            SequenceState::Stage3Up => {
                if pg.pg_1v5 && pg.pg_3v3 {
                    *self = ZynqState {
                        power_supplies: Rails { zynq_por: true, ..rails },
                        power_state: SequenceState::On,
                    };
                }
            },
            SequenceState::Stage3Down => {
                *self = ZynqState {
                    power_supplies: Rails { en_1v5: false, en_3v3: false, ..rails },
                    power_state: SequenceState::Stage2Down,
                };
            },
            SequenceState::Stage2Down => {
                if !pg.pg_1v5 && !pg.pg_3v3 {
                    *self = ZynqState {
                        power_supplies: Rails { en_1v8: false, ..rails },
                        power_state: SequenceState::Stage1Down,
                    };
                }
            },
            SequenceState::Stage1Down => {
                if !pg.pg_1v8 {
                    *self = ZynqState {
                        power_supplies: Rails { en_1v0: false, ..rails },
                        power_state: SequenceState::Stage0Down,
                    };
                }
            },
            SequenceState::Stage0Down => {
                if !pg.pg_1v0 {
                    *self = ZynqState { power_supplies: rails, power_state: SequenceState::Off };
                }
            },
        }
    }
}

/// Reset assertion. In every well-formed state the reset line is released
/// exactly when the state is `On`, and every request and every tick leads from
/// a well-formed state to a well-formed state.
pub proof fn lemma_reset_released_only_when_on(z: ZynqStateView, pg: PowerGood)
    requires
        z.wf(),
    ensures
        z.rails.zynq_por <==> z.state is On,
        ZynqStateView::initial().wf(),
        z.power_up().wf(),
        z.power_down().wf(),
        z.power_toggle().wf(),
        z.tick(pg).wf(),
{
}

/// The two states of rest. No tick leads out of `Off` or out of `On`. `Off` is
/// left only by a request to power up, and `On` only by a request to power
/// down; the other request changes nothing there.
pub proof fn lemma_rest_states(z: ZynqStateView, pg: PowerGood)
    ensures
        z.state is Off || z.state is On ==> z.tick(pg) == z,
        z.state is Off ==> z.power_down() == z && z.power_up().state is Stage0Up,
        z.state is On ==> z.power_up() == z && z.power_down().state is Stage3Down,
{
}

/// Reset assertion over time: after any number of ticks the sequencer is well
/// formed, so its reset line is released exactly when it is `On`.
pub proof fn lemma_run_wf(z: ZynqStateView, pgs: Seq<PowerGood>)
    requires
        z.wf(),
    ensures
        z.run(pgs).wf(),
        z.run(pgs).rails.zynq_por <==> z.run(pgs).state is On,
    decreases pgs.len(),
{
    if pgs.len() > 0 {
        lemma_run_wf(z, pgs.drop_last());
        lemma_reset_released_only_when_on(z.run(pgs.drop_last()), pgs.last());
    }
}

/// One tick on the way up. The sequence moves one state on when the input
/// that its state waits for is good, and stays otherwise: it skips no state.
/// No enable that is high goes low.
pub proof fn lemma_up_step(z: ZynqStateView, pg: PowerGood)
    requires
        0 <= z.state.up_rank() <= 4,
    ensures
        z.state.ready(pg) ==> z.tick(pg).state.up_rank() == z.state.up_rank() + 1,
        !z.state.ready(pg) ==> z.tick(pg) == z,
        z.rails.enables_kept(z.tick(pg).rails),
{
}

/// Whether every input is good at every tick.
pub open spec fn all_good(pgs: Seq<PowerGood>) -> bool {
    forall|i: int|
        0 <= i < pgs.len() ==> (#[trigger] pgs[i]) == (PowerGood {
            pg_1v0: true,
            pg_1v5: true,
            pg_1v8: true,
            pg_3v3: true,
        })
}

/// The way up. Power up from `Off`, then tick. However the inputs behave,
/// the sequencer is on the way up or on, it has taken at most one step per
/// tick, and its outputs are those of its state: a rail is enabled exactly
/// when the sequence has reached the step that enables it. With every input
/// good at every tick it takes one step at each tick until it is `On`.
pub proof fn lemma_power_up_path(z: ZynqStateView, pgs: Seq<PowerGood>)
    requires
        z.wf(),
        z.state is Off,
    ensures
        0 <= z.power_up().run(pgs).state.up_rank() <= 4,
        z.power_up().run(pgs).state.up_rank() <= pgs.len(),
        z.power_up().run(pgs).rails == Rails::going_up(z.power_up().run(pgs).state),
        all_good(pgs) ==> z.power_up().run(pgs).state.up_rank() == if pgs.len() < 4 {
            pgs.len() as int
        } else {
            4
        },
    decreases pgs.len(),
{
    if pgs.len() > 0 {
        let before = z.power_up().run(pgs.drop_last());
        lemma_power_up_path(z, pgs.drop_last());
        lemma_up_step(before, pgs.last());
        if all_good(pgs) {
            assert(all_good(pgs.drop_last())) by {
                assert forall|i: int| 0 <= i < pgs.drop_last().len() implies (
                #[trigger] pgs.drop_last()[i]) == (PowerGood {
                    pg_1v0: true,
                    pg_1v5: true,
                    pg_1v8: true,
                    pg_3v3: true,
                }) by {
                    assert(pgs.drop_last()[i] == pgs[i]);
                }
            }
            assert(pgs.last() == pgs[pgs.len() - 1]);
        }
    }
}

/// Each enable is asserted at most once on a way up. Power up from `Off`,
/// then tick: an enable that is high after the first `i` ticks is high after
/// all of them, and the sequence has not gone back.
pub proof fn lemma_power_up_monotone(z: ZynqStateView, pgs: Seq<PowerGood>, i: int)
    requires
        z.wf(),
        z.state is Off,
        0 <= i <= pgs.len(),
    ensures
        z.power_up().run(pgs.take(i)).state.up_rank() <= z.power_up().run(pgs).state.up_rank(),
        z.power_up().run(pgs.take(i)).rails.enables_kept(z.power_up().run(pgs).rails),
    decreases pgs.len(),
{
    lemma_power_up_path(z, pgs);
    lemma_power_up_path(z, pgs.take(i));
    if i == pgs.len() {
        assert(pgs.take(i) =~= pgs);
    } else {
        let shorter = pgs.drop_last();
        lemma_power_up_monotone(z, shorter, i);
        assert(shorter.take(i) =~= pgs.take(i));
        lemma_power_up_path(z, shorter);
        lemma_up_step(z.power_up().run(shorter), pgs.last());
    }
}

/// A stuck rail. While 1V0 does not report good, a sequencer in `Stage1Up`
/// stays there and none of its outputs changes: no further rail is enabled.
pub proof fn lemma_blocked_without_power_good(z: ZynqStateView, pgs: Seq<PowerGood>)
    requires
        z.state is Stage1Up,
        forall|i: int| 0 <= i < pgs.len() ==> !(#[trigger] pgs[i]).pg_1v0,
    ensures
        z.run(pgs) == z,
    decreases pgs.len(),
{
    if pgs.len() > 0 {
        assert forall|i: int| 0 <= i < pgs.drop_last().len() implies !(
        #[trigger] pgs.drop_last()[i]).pg_1v0 by {
            assert(pgs.drop_last()[i] == pgs[i]);
        }
        lemma_blocked_without_power_good(z, pgs.drop_last());
        assert(!pgs[pgs.len() - 1].pg_1v0);
    }
}

/// Whether 1V5 and 3V3 have both dropped.
pub open spec fn dropped_1v5_3v3(pg: PowerGood) -> bool {
    !pg.pg_1v5 && !pg.pg_3v3
}

/// Whether the rails drop in the order of the way down: after the first
/// tick, there is a tick at which 1V5 and 3V3 are both low, a later one at
/// which 1V8 is low, and a still later one at which 1V0 is low.
pub open spec fn drops_in_order(pgs: Seq<PowerGood>) -> bool {
    exists|a: int, b: int, c: int|
        #![trigger pgs[a], pgs[b], pgs[c]]
        1 <= a < b < c < pgs.len() && dropped_1v5_3v3(pgs[a]) && !pgs[b].pg_1v8 && !pgs[c].pg_1v0
}

spec fn drops_first(pgs: Seq<PowerGood>) -> bool {
    exists|a: int| #![trigger pgs[a]] 1 <= a < pgs.len() && dropped_1v5_3v3(pgs[a])
}

spec fn drops_second(pgs: Seq<PowerGood>) -> bool {
    exists|a: int, b: int|
        #![trigger pgs[a], pgs[b]]
        1 <= a < b < pgs.len() && dropped_1v5_3v3(pgs[a]) && !pgs[b].pg_1v8
}

proof fn lemma_drops_first_split(pgs: Seq<PowerGood>)
    requires
        pgs.len() >= 2,
    ensures
        drops_first(pgs) <==> drops_first(pgs.drop_last()) || dropped_1v5_3v3(pgs.last()),
{
    let p = pgs.drop_last();
    let n = pgs.len() as int;
    if drops_first(pgs) {
        let a = choose|a: int| #![trigger pgs[a]] 1 <= a < pgs.len() && dropped_1v5_3v3(pgs[a]);
        if a < n - 1 {
            assert(p[a] == pgs[a]);
        }
    }
    if drops_first(p) {
        let a = choose|a: int| #![trigger p[a]] 1 <= a < p.len() && dropped_1v5_3v3(p[a]);
        assert(pgs[a] == p[a]);
    }
    if dropped_1v5_3v3(pgs.last()) {
        assert(dropped_1v5_3v3(pgs[n - 1]));
    }
}

proof fn lemma_drops_second_split(pgs: Seq<PowerGood>)
    requires
        pgs.len() >= 2,
    ensures
        drops_second(pgs) <==> drops_second(pgs.drop_last()) || (drops_first(pgs.drop_last())
            && !pgs.last().pg_1v8),
{
    let p = pgs.drop_last();
    let n = pgs.len() as int;
    if drops_second(pgs) {
        let (a, b) = choose|a: int, b: int|
            #![trigger pgs[a], pgs[b]]
            1 <= a < b < pgs.len() && dropped_1v5_3v3(pgs[a]) && !pgs[b].pg_1v8;
        assert(p[a] == pgs[a]);
        if b < n - 1 {
            assert(p[b] == pgs[b]);
        }
    }
    if drops_second(p) {
        let (a, b) = choose|a: int, b: int|
            #![trigger p[a], p[b]]
            1 <= a < b < p.len() && dropped_1v5_3v3(p[a]) && !p[b].pg_1v8;
        assert(pgs[a] == p[a] && pgs[b] == p[b]);
    }
    if drops_first(p) && !pgs.last().pg_1v8 {
        let a = choose|a: int| #![trigger p[a]] 1 <= a < p.len() && dropped_1v5_3v3(p[a]);
        assert(pgs[a] == p[a]);
        assert(!pgs[n - 1].pg_1v8);
    }
}

proof fn lemma_drops_in_order_split(pgs: Seq<PowerGood>)
    requires
        pgs.len() >= 2,
    ensures
        drops_in_order(pgs) <==> drops_in_order(pgs.drop_last()) || (drops_second(
            pgs.drop_last(),
        ) && !pgs.last().pg_1v0),
{
    let p = pgs.drop_last();
    let n = pgs.len() as int;
    if drops_in_order(pgs) {
        let (a, b, c) = choose|a: int, b: int, c: int|
            #![trigger pgs[a], pgs[b], pgs[c]]
            1 <= a < b < c < pgs.len() && dropped_1v5_3v3(pgs[a]) && !pgs[b].pg_1v8
                && !pgs[c].pg_1v0;
        assert(p[a] == pgs[a] && p[b] == pgs[b]);
        if c < n - 1 {
            assert(p[c] == pgs[c]);
        }
    }
    if drops_in_order(p) {
        let (a, b, c) = choose|a: int, b: int, c: int|
            #![trigger p[a], p[b], p[c]]
            1 <= a < b < c < p.len() && dropped_1v5_3v3(p[a]) && !p[b].pg_1v8 && !p[c].pg_1v0;
        assert(pgs[a] == p[a] && pgs[b] == p[b] && pgs[c] == p[c]);
    }
    if drops_second(p) && !pgs.last().pg_1v0 {
        let (a, b) = choose|a: int, b: int|
            #![trigger p[a], p[b]]
            1 <= a < b < p.len() && dropped_1v5_3v3(p[a]) && !p[b].pg_1v8;
        assert(pgs[a] == p[a] && pgs[b] == p[b]);
        assert(!pgs[n - 1].pg_1v0);
    }
}

proof fn lemma_down_progress(z: ZynqStateView, pgs: Seq<PowerGood>)
    requires
        z.wf(),
        z.state is On,
    ensures
        0 <= z.power_down().run(pgs).state.down_rank() <= 4,
        z.power_down().run(pgs).rails == Rails::going_down(z.power_down().run(pgs).state),
        z.power_down().run(pgs).state.down_rank() >= 1 <==> pgs.len() >= 1,
        z.power_down().run(pgs).state.down_rank() >= 2 <==> drops_first(pgs),
        z.power_down().run(pgs).state.down_rank() >= 3 <==> drops_second(pgs),
        z.power_down().run(pgs).state.down_rank() >= 4 <==> drops_in_order(pgs),
    decreases pgs.len(),
{
    if pgs.len() >= 2 {
        lemma_down_progress(z, pgs.drop_last());
        lemma_drops_first_split(pgs);
        lemma_drops_second_split(pgs);
        lemma_drops_in_order_split(pgs);
    } else if pgs.len() == 1 {
        lemma_down_progress(z, pgs.drop_last());
    }
}

/// The way down. Power down from `On`, then tick. However the inputs
/// behave, the outputs are those of the state reached: 1V5 and 3V3 are
/// disabled first, then 1V8, then 1V0, and reset stays asserted. The
/// sequencer is `Off` after the ticks if and only if the rails have dropped in
/// that order.
pub proof fn lemma_power_down_path(z: ZynqStateView, pgs: Seq<PowerGood>)
    requires
        z.wf(),
        z.state is On,
    ensures
        0 <= z.power_down().run(pgs).state.down_rank() <= 4,
        z.power_down().run(pgs).rails == Rails::going_down(z.power_down().run(pgs).state),
        z.power_down().run(pgs).state is Off <==> drops_in_order(pgs),
{
    lemma_down_progress(z, pgs);
}

} // verus!
