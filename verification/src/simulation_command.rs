use vstd::prelude::*;

use crate::app_error::{AppError, AppResult};
use crate::camera::CameraChange;
use crate::text::{decimal, push_decimal, push_str};

verus! {

/// The version of the recording format that this library writes and reads.
pub const SIMULATION_RECORDING_FORMAT_VERSION: u32 = 1;

/// Whether a key or button goes down or up.
#[derive(Copy, Clone, Debug, PartialEq, Eq, Structural)]
pub enum Pressed {
    Yes,
    No,
}

impl Pressed {
    pub fn from_bool(pressed: bool) -> (r: Self)
        ensures
            r == (if pressed {
                Pressed::Yes
            } else {
                Pressed::No
            }),
    {
        if pressed {
            Pressed::Yes
        } else {
            Pressed::No
        }
    }
}

/// A value accepted by a simulation UI controller.
///
/// A number is carried as the bit pattern of an `f64` (`f64::to_bits`).
#[derive(Debug, PartialEq)]
pub enum ControllerValue {
    Number(u64),
    Text(String),
}

impl Clone for ControllerValue {
    fn clone(&self) -> (r: Self)
        ensures
            r == *self,
    {
        match self {
            ControllerValue::Number(bits) => ControllerValue::Number(*bits),
            ControllerValue::Text(text) => ControllerValue::Text(text.clone()),
        }
    }
}

impl ControllerValue {
    /// The numeric value, as `f64` bits; a text value is refused.
    pub fn number_bits(&self) -> (r: AppResult<u64>)
        ensures
            match self {
                ControllerValue::Number(bits) => r == Ok::<u64, AppError>(*bits),
                ControllerValue::Text(_) => r matches Err(e) && e.message()
                    == "text controller value is not numeric"@,
            },
    {
        match self {
            ControllerValue::Number(bits) => Ok(*bits),
            ControllerValue::Text(_) => Err(
                AppError::new("text controller value is not numeric".to_owned()),
            ),
        }
    }

    /// The text value; a numeric value is refused.
    pub fn to_text(&self) -> (r: AppResult<&str>)
        ensures
            match self {
                ControllerValue::Number(_) => r matches Err(e) && e.message()
                    == "numeric controller value is not text"@,
                ControllerValue::Text(text) => r matches Ok(t) && t@ == text@,
            },
    {
        match self {
            ControllerValue::Number(_) => Err(
                AppError::new("numeric controller value is not text".to_owned()),
            ),
            ControllerValue::Text(text) => Ok(text.as_str()),
        }
    }
}

/// The platform-neutral ingress contract for every mutation of a running simulation.
///
/// Values that the simulation holds as floating point are carried as their bit
/// patterns (`f32::to_bits`); the command bus moves them without reading them.
#[derive(Debug, PartialEq)]
pub enum SimulationCommand {
    Keyboard { pressed: Pressed, key: String },
    MouseClick(Pressed),
    MouseMove { x: i32, y: i32 },
    MouseWheel(u32),
    BlurredWindow,
    ControllerSet { event_tag: String, value: ControllerValue },
    PixelWidth(u32),
    Camera(CameraChange),
    CustomScalingResolutionWidth(u32),
    CustomScalingResolutionHeight(u32),
    CustomScalingAspectRatioX(u32),
    CustomScalingAspectRatioY(u32),
    CustomScalingStretchNearest(bool),
    ViewportResize(u32, u32),
}

impl Clone for SimulationCommand {
    fn clone(&self) -> (r: Self)
        ensures
            r == *self,
    {
        match self {
            SimulationCommand::Keyboard { pressed, key } => SimulationCommand::Keyboard {
                pressed: *pressed,
                key: key.clone(),
            },
            SimulationCommand::MouseClick(p) => SimulationCommand::MouseClick(*p),
            SimulationCommand::MouseMove { x, y } => SimulationCommand::MouseMove { x: *x, y: *y },
            SimulationCommand::MouseWheel(v) => SimulationCommand::MouseWheel(*v),
            SimulationCommand::BlurredWindow => SimulationCommand::BlurredWindow,
            SimulationCommand::ControllerSet { event_tag, value } => SimulationCommand::ControllerSet {
                event_tag: event_tag.clone(),
                value: value.clone(),
            },
            SimulationCommand::PixelWidth(v) => SimulationCommand::PixelWidth(*v),
            SimulationCommand::Camera(c) => SimulationCommand::Camera(*c),
            SimulationCommand::CustomScalingResolutionWidth(v) => SimulationCommand::CustomScalingResolutionWidth(*v),
            SimulationCommand::CustomScalingResolutionHeight(v) => SimulationCommand::CustomScalingResolutionHeight(*v),
            SimulationCommand::CustomScalingAspectRatioX(v) => SimulationCommand::CustomScalingAspectRatioX(*v),
            SimulationCommand::CustomScalingAspectRatioY(v) => SimulationCommand::CustomScalingAspectRatioY(*v),
            SimulationCommand::CustomScalingStretchNearest(b) => SimulationCommand::CustomScalingStretchNearest(*b),
            SimulationCommand::ViewportResize(w, h) => SimulationCommand::ViewportResize(*w, *h),
        }
    }
}

impl SimulationCommand {
    pub fn controller_set(event_tag: String, value: ControllerValue) -> (r: Self)
        ensures
            r == (SimulationCommand::ControllerSet { event_tag, value }),
    {
        SimulationCommand::ControllerSet { event_tag, value }
    }
}

/// A command as it was emitted during a recording.
#[derive(Debug, PartialEq)]
pub struct RecordedSimulationCommand {
    /// Tick relative to the start of recording.
    pub tick: u64,
    /// FIFO position within the tick.
    pub order: u64,
    pub command: SimulationCommand,
}

impl Clone for RecordedSimulationCommand {
    fn clone(&self) -> (r: Self)
        ensures
            r == *self,
    {
        RecordedSimulationCommand { tick: self.tick, order: self.order, command: self.command.clone() }
    }
}

/// Everything emitted on a command bus while it was recording.
#[derive(Clone, Debug, PartialEq)]
pub struct SimulationRecording {
    pub format_version: u32,
    /// Number of simulation ticks observed while recording, including ticks with no
    /// newly emitted commands.
    pub total_ticks: u64,
    pub commands: Vec<RecordedSimulationCommand>,
}

/// Why a recording cannot be played.
#[derive(Copy, Clone, Debug, PartialEq, Eq, Structural)]
pub enum RecordingDefect {
    UnsupportedFormat { found: u32 },
    TickOutOfRange { tick: u64, total_ticks: u64 },
    TicksNotOrdered,
    UnexpectedOrder { tick: u64, order: u64, expected: u64 },
}

/// The order that the command at `i` must have: 0 when it opens a tick, else one more
/// than its predecessor's.
pub open spec fn expected_order(cmds: Seq<RecordedSimulationCommand>, i: int) -> int {
    if i == 0 || cmds[i].tick > cmds[i - 1].tick {
        0
    } else {
        cmds[i - 1].order + 1
    }
}

/// What is wrong with the command at `i`, judged against its predecessor alone.
pub open spec fn defect_at(cmds: Seq<RecordedSimulationCommand>, total_ticks: u64, i: int) -> Option<
    RecordingDefect,
> {
    let c = cmds[i];
    if c.tick >= total_ticks {
        Some(RecordingDefect::TickOutOfRange { tick: c.tick, total_ticks })
    } else if i > 0 && c.tick < cmds[i - 1].tick {
        Some(RecordingDefect::TicksNotOrdered)
    } else if c.order != expected_order(cmds, i) {
        Some(
            RecordingDefect::UnexpectedOrder {
                tick: c.tick,
                order: c.order,
                expected: expected_order(cmds, i) as u64,
            },
        )
    } else {
        None
    }
}

/// The commands of `recs`, in order.
pub open spec fn commands_of(recs: Seq<RecordedSimulationCommand>) -> Seq<SimulationCommand> {
    recs.map_values(|r: RecordedSimulationCommand| r.command)
}

/// The commands of `recs` that were recorded at tick `tick`, in order.
pub open spec fn commands_at(recs: Seq<RecordedSimulationCommand>, tick: u64) -> Seq<SimulationCommand>
    decreases recs.len(),
{
    if recs.len() == 0 {
        Seq::empty()
    } else if recs.last().tick == tick {
        commands_at(recs.drop_last(), tick).push(recs.last().command)
    } else {
        commands_at(recs.drop_last(), tick)
    }
}

/// The records of the commands `cmds` emitted at tick `tick`, in FIFO order.
pub open spec fn records_for_tick(tick: u64, cmds: Seq<SimulationCommand>) -> Seq<
    RecordedSimulationCommand,
> {
    Seq::new(
        cmds.len(),
        |i: int| RecordedSimulationCommand { tick, order: i as u64, command: cmds[i] },
    )
}

/// The message with which a defect is reported.
pub open spec fn defect_message(d: RecordingDefect) -> Seq<char> {
    match d {
        RecordingDefect::UnsupportedFormat { found } => "unsupported simulation recording format "@
            + decimal(found as nat) + "; expected "@ + decimal(
            SIMULATION_RECORDING_FORMAT_VERSION as nat,
        ),
        RecordingDefect::TickOutOfRange { tick, total_ticks } => "simulation recording command tick "@
            + decimal(tick as nat) + " is outside its "@ + decimal(total_ticks as nat)
            + " recorded ticks"@,
        RecordingDefect::TicksNotOrdered => "simulation recording ticks are not ordered"@,
        RecordingDefect::UnexpectedOrder { tick, order, expected } => "simulation recording tick "@
            + decimal(tick as nat) + " has command order "@ + decimal(order as nat)
            + "; expected "@ + decimal(expected as nat),
    }
}

impl RecordingDefect {
    /// The message with which the defect is reported.
    pub fn describe(&self) -> (r: String)
        ensures
            r@ == defect_message(*self),
    {
        let mut s = String::new();
        match *self {
            RecordingDefect::UnsupportedFormat { found } => {
                push_str(&mut s, "unsupported simulation recording format ");
                push_decimal(&mut s, found as u64);
                push_str(&mut s, "; expected ");
                push_decimal(&mut s, SIMULATION_RECORDING_FORMAT_VERSION as u64);
            },
            RecordingDefect::TickOutOfRange { tick, total_ticks } => {
                push_str(&mut s, "simulation recording command tick ");
                push_decimal(&mut s, tick);
                push_str(&mut s, " is outside its ");
                push_decimal(&mut s, total_ticks);
                push_str(&mut s, " recorded ticks");
            },
            RecordingDefect::TicksNotOrdered => {
                push_str(&mut s, "simulation recording ticks are not ordered");
            },
            RecordingDefect::UnexpectedOrder { tick, order, expected } => {
                push_str(&mut s, "simulation recording tick ");
                push_decimal(&mut s, tick);
                push_str(&mut s, " has command order ");
                push_decimal(&mut s, order);
                push_str(&mut s, "; expected ");
                push_decimal(&mut s, expected);
            },
        }
        proof {
            assert(s@ =~= defect_message(*self));
        }
        s
    }
}

impl SimulationRecording {
    /// The first reason, in command order, for which the recording cannot be played.
    pub open spec fn first_defect(self) -> Option<RecordingDefect> {
        let cmds = self.commands@;
        if self.format_version != SIMULATION_RECORDING_FORMAT_VERSION {
            Some(RecordingDefect::UnsupportedFormat { found: self.format_version })
        } else if exists|i: int| 0 <= i < cmds.len() && defect_at(cmds, self.total_ticks, i) is Some {
            let i = choose|i: int|
                0 <= i < cmds.len() && defect_at(cmds, self.total_ticks, i) is Some && forall|j: int|
                    0 <= j < i ==> defect_at(cmds, self.total_ticks, j) is None;
            defect_at(cmds, self.total_ticks, i)
        } else {
            None
        }
    }

    /// The recording can be played: the current format, every tick inside the recorded
    /// ticks, ticks in order and commands numbered from 0 within each tick.
    pub open spec fn is_valid(self) -> bool {
        &&& self.format_version == SIMULATION_RECORDING_FORMAT_VERSION
        &&& forall|i: int|
            0 <= i < self.commands@.len() ==> #[trigger] defect_at(
                self.commands@,
                self.total_ticks,
                i,
            ) is None
    }

    /// An empty recording in the current format.
    pub fn empty() -> (r: Self)
        ensures
            r.format_version == SIMULATION_RECORDING_FORMAT_VERSION,
            r.total_ticks == 0,
            r.commands@ == Seq::<RecordedSimulationCommand>::empty(),
    {
        SimulationRecording {
            format_version: SIMULATION_RECORDING_FORMAT_VERSION,
            total_ticks: 0,
            commands: Vec::new(),
        }
    }

    /// Finds the first defect of the recording, if any.
    pub fn check(&self) -> (r: Result<(), RecordingDefect>)
        ensures
            r == (match self.first_defect() {
                None => Ok::<(), RecordingDefect>(()),
                Some(d) => Err(d),
            }),
            r is Ok <==> self.is_valid(),
    {
        if self.format_version != SIMULATION_RECORDING_FORMAT_VERSION {
            return Err(RecordingDefect::UnsupportedFormat { found: self.format_version });
        }
        let ghost cmds = self.commands@;
        let mut current_tick: Option<u64> = None;
        let mut expected_order: u64 = 0;
        let mut idx: usize = 0;
        while idx < self.commands.len()
            invariant
                cmds == self.commands@,
                self.format_version == SIMULATION_RECORDING_FORMAT_VERSION,
                0 <= idx <= cmds.len(),
                forall|j: int| 0 <= j < idx ==> #[trigger] defect_at(cmds, self.total_ticks, j) is None,
                idx == 0 ==> current_tick is None && expected_order == 0,
                idx > 0 ==> current_tick == Some(cmds[idx - 1].tick) && expected_order == cmds[idx
                    - 1].order + 1,
                expected_order <= idx,
            decreases cmds.len() - idx,
        {
            let recorded = &self.commands[idx];
            let ghost i = idx as int;
            if recorded.tick >= self.total_ticks {
                let d = RecordingDefect::TickOutOfRange {
                    tick: recorded.tick,
                    total_ticks: self.total_ticks,
                };
                proof {
                    self.lemma_first_defect_is(i);
                }
                return Err(d);
            }
            match current_tick {
                None => {
                    current_tick = Some(recorded.tick);
                    expected_order = 0;
                },
                Some(tick) => {
                    if recorded.tick < tick {
                        proof {
                            self.lemma_first_defect_is(i);
                        }
                        return Err(RecordingDefect::TicksNotOrdered);
                    } else if recorded.tick > tick {
                        current_tick = Some(recorded.tick);
                        expected_order = 0;
                    }
                },
            }
            if recorded.order != expected_order {
                proof {
                    self.lemma_first_defect_is(i);
                }
                return Err(
                    RecordingDefect::UnexpectedOrder {
                        tick: recorded.tick,
                        order: recorded.order,
                        expected: expected_order,
                    },
                );
            }
            assert(defect_at(cmds, self.total_ticks, i) is None);
            expected_order = expected_order + 1;
            idx = idx + 1;
        }
        proof {
            if exists|i: int| 0 <= i < cmds.len() && defect_at(cmds, self.total_ticks, i) is Some {
                let i = choose|i: int|
                    0 <= i < cmds.len() && defect_at(cmds, self.total_ticks, i) is Some;
                assert(defect_at(cmds, self.total_ticks, i) is None);
            }
        }
        Ok(())
    }

    proof fn lemma_first_defect_is(self, i: int)
        requires
            self.format_version == SIMULATION_RECORDING_FORMAT_VERSION,
            0 <= i < self.commands@.len(),
            defect_at(self.commands@, self.total_ticks, i) is Some,
            forall|j: int|
                0 <= j < i ==> #[trigger] defect_at(self.commands@, self.total_ticks, j) is None,
        ensures
            self.first_defect() == defect_at(self.commands@, self.total_ticks, i),
            !self.is_valid(),
    {
        let cmds = self.commands@;
        let k = choose|k: int|
            0 <= k < cmds.len() && defect_at(cmds, self.total_ticks, k) is Some && forall|j: int|
                0 <= j < k ==> defect_at(cmds, self.total_ticks, j) is None;
        assert(0 <= i < cmds.len() && defect_at(cmds, self.total_ticks, i) is Some && forall|j: int|
            0 <= j < i ==> defect_at(cmds, self.total_ticks, j) is None);
        if k < i {
            assert(defect_at(cmds, self.total_ticks, k) is None);
        } else if k > i {
            assert(defect_at(cmds, self.total_ticks, i) is None);
        }
    }

    /// Accepts a recording that can be played, and reports the first defect of one that
    /// cannot.
    pub fn validate(&self) -> (r: AppResult<()>)
        ensures
            r is Ok <==> self.is_valid(),
            r is Ok <==> self.first_defect() is None,
            r matches Err(e) ==> e.message() == defect_message(self.first_defect()->0),
    {
        match self.check() {
            Ok(()) => Ok(()),
            Err(d) => Err(AppError::new(d.describe())),
        }
    }

    /// In a valid recording the ticks never decrease.
    pub proof fn lemma_valid_ticks_sorted(self)
        requires
            self.is_valid(),
        ensures
            forall|i: int, j: int|
                0 <= i <= j < self.commands@.len() ==> self.commands@[i].tick
                    <= self.commands@[j].tick,
            forall|i: int| 0 <= i < self.commands@.len() ==> self.commands@[i].tick < self.total_ticks,
    {
        let cmds = self.commands@;
        assert forall|i: int| 0 <= i < cmds.len() implies cmds[i].tick < self.total_ticks by {
            assert(defect_at(cmds, self.total_ticks, i) is None);
        }
        assert forall|i: int, j: int| 0 <= i <= j < cmds.len() implies cmds[i].tick
            <= cmds[j].tick by {
            self.lemma_sorted_from(i, j);
        }
    }

    proof fn lemma_sorted_from(self, i: int, j: int)
        requires
            self.is_valid(),
            0 <= i <= j < self.commands@.len(),
        ensures
            self.commands@[i].tick <= self.commands@[j].tick,
        decreases j - i,
    {
        if i < j {
            self.lemma_sorted_from(i, j - 1);
            assert(defect_at(self.commands@, self.total_ticks, j) is None);
        }
    }
}

/// A recording that was started at `start_tick` of its bus.
#[derive(Debug)]
struct ActiveRecording {
    start_tick: u64,
    recording: SimulationRecording,
}

/// One ordered queue shared by all command producers.
#[derive(Debug)]
pub struct SimulationCommandBus {
    pending: Vec<SimulationCommand>,
    /// Commands postponed by the core so that opposite keyboard edges are sampled on
    /// different ticks; they are not recorded a second time when they are consumed.
    deferred: Vec<SimulationCommand>,
    next_tick: u64,
    recording: Option<ActiveRecording>,
}

impl SimulationCommandBus {
    /// Commands emitted since the last tick, oldest first.
    pub closed spec fn pending_commands(&self) -> Seq<SimulationCommand> {
        self.pending@
    }

    /// Commands postponed to the next tick, oldest first.
    pub closed spec fn deferred_commands(&self) -> Seq<SimulationCommand> {
        self.deferred@
    }

    /// The number of the tick that the next drain starts.
    pub closed spec fn tick(&self) -> u64 {
        self.next_tick
    }

    /// The recording in progress, if any, with the tick at which it started.
    pub closed spec fn active_recording(&self) -> Option<(u64, SimulationRecording)> {
        match self.recording {
            Some(a) => Some((a.start_tick, a.recording)),
            None => None,
        }
    }

    /// The recording in progress covers exactly the ticks since it started and can be
    /// played.
    pub open spec fn wf(&self) -> bool {
        match self.active_recording() {
            Some((start, rec)) => {
                &&& start <= self.tick()
                &&& rec.total_ticks == self.tick() - start
                &&& rec.is_valid()
            },
            None => true,
        }
    }

    /// What every call on a bus keeps: the bus stays well formed, and a recording in
    /// progress stays in progress, from the tick at which it started.
    pub open spec fn keeps_recording(before: Self, after: Self) -> bool {
        &&& after.wf()
        &&& before.active_recording() matches Some((start, _)) ==> after.active_recording() matches Some(
            (s, _),
        ) && s == start
    }

    /// An empty bus that does not record, before its first tick.
    pub fn new() -> (r: Self)
        ensures
            r.wf(),
            r.pending_commands() == Seq::<SimulationCommand>::empty(),
            r.deferred_commands() == Seq::<SimulationCommand>::empty(),
            r.tick() == 0,
            r.active_recording() is None,
    {
        SimulationCommandBus { pending: Vec::new(), deferred: Vec::new(), next_tick: 0, recording: None }
    }

    pub fn emit(&mut self, command: SimulationCommand)
        requires
            old(self).wf(),
        ensures
            Self::keeps_recording(*old(self), *final(self)),
            final(self).wf(),
            final(self).pending_commands() == old(self).pending_commands().push(command),
            final(self).deferred_commands() == old(self).deferred_commands(),
            final(self).tick() == old(self).tick(),
            final(self).active_recording() == old(self).active_recording(),
    {
        self.pending.push(command);
    }

    pub fn emit_all(&mut self, commands: Vec<SimulationCommand>)
        requires
            old(self).wf(),
        ensures
            Self::keeps_recording(*old(self), *final(self)),
            final(self).wf(),
            final(self).pending_commands() == old(self).pending_commands() + commands@,
            final(self).deferred_commands() == old(self).deferred_commands(),
            final(self).tick() == old(self).tick(),
            final(self).active_recording() == old(self).active_recording(),
    {
        let mut commands = commands;
        self.pending.append(&mut commands);
    }

    /// The number of commands that the next tick consumes.
    pub fn pending_len(&self) -> (r: usize)
        requires
            self.pending_commands().len() + self.deferred_commands().len() <= usize::MAX,
        ensures
            r == self.pending_commands().len() + self.deferred_commands().len(),
    {
        self.pending.len() + self.deferred.len()
    }

    pub fn is_empty(&self) -> (r: bool)
        ensures
            r == (self.pending_commands().len() == 0 && self.deferred_commands().len() == 0),
    {
        self.pending.len() == 0 && self.deferred.len() == 0
    }

    /// Starts a new, empty recording at the current tick, dropping one in progress.
    pub fn start_recording(&mut self)
        requires
            old(self).wf(),
        ensures
            final(self).wf(),
            final(self).active_recording() == Some((old(self).tick(), SimulationRecording {
                format_version: SIMULATION_RECORDING_FORMAT_VERSION,
                total_ticks: 0,
                commands: (final(self).active_recording()->0).1.commands,
            })),
            (final(self).active_recording()->0).1.commands@ == Seq::<RecordedSimulationCommand>::empty(),
            final(self).pending_commands() == old(self).pending_commands(),
            final(self).deferred_commands() == old(self).deferred_commands(),
            final(self).tick() == old(self).tick(),
    {
        self.recording = Some(
            ActiveRecording { start_tick: self.next_tick, recording: SimulationRecording::empty() },
        );
    }

    pub fn is_recording(&self) -> (r: bool)
        ensures
            r == self.active_recording() is Some,
    {
        self.recording.is_some()
    }

    /// Stops recording and hands out what was recorded; every recording handed out can be
    /// played.
    pub fn finish_recording(&mut self) -> (r: Option<SimulationRecording>)
        requires
            old(self).wf(),
        ensures
            final(self).wf(),
            r == (match old(self).active_recording() {
                Some((_, rec)) => Some(rec),
                None => None,
            }),
            r matches Some(rec) ==> rec.is_valid(),
            final(self).active_recording() is None,
            final(self).pending_commands() == old(self).pending_commands(),
            final(self).deferred_commands() == old(self).deferred_commands(),
            final(self).tick() == old(self).tick(),
    {
        match self.recording.take() {
            Some(active) => Some(active.recording),
            None => None,
        }
    }

    /// Consumes the commands for one tick: first the postponed ones, then those emitted
    /// since the last tick. While recording, the newly emitted commands are recorded at
    /// the tick relative to the start of the recording, numbered in FIFO order.
    pub fn drain_for_tick(&mut self) -> (r: Vec<SimulationCommand>)
        requires
            old(self).wf(),
            old(self).tick() < u64::MAX,
        ensures
            Self::keeps_recording(*old(self), *final(self)),
            final(self).wf(),
            r@ == old(self).deferred_commands() + old(self).pending_commands(),
            final(self).pending_commands() == Seq::<SimulationCommand>::empty(),
            final(self).deferred_commands() == Seq::<SimulationCommand>::empty(),
            final(self).tick() == old(self).tick() + 1,
            match old(self).active_recording() {
                None => final(self).active_recording() is None,
                Some((start, rec)) => {
                    let relative = (old(self).tick() - start) as u64;
                    &&& final(self).active_recording() matches Some((s, new_rec))
                    &&& s == start
                    &&& new_rec.format_version == rec.format_version
                    &&& new_rec.total_ticks == rec.total_ticks + 1
                    &&& new_rec.commands@ == rec.commands@ + records_for_tick(
                        relative,
                        old(self).pending_commands(),
                    )
                    &&& commands_at(new_rec.commands@, relative) == old(self).pending_commands()
                },
            },
    {
        let tick = self.next_tick;
        self.next_tick = self.next_tick + 1;
        let mut new_commands: Vec<SimulationCommand> = Vec::new();
        std::mem::swap(&mut new_commands, &mut self.pending);
        let taken = self.recording.take();
        match taken {
            Some(active) => {
                let ActiveRecording { start_tick, recording } = active;
                let SimulationRecording { format_version, total_ticks, commands } = recording;
                let ghost old_rec = SimulationRecording { format_version, total_ticks, commands };
                let relative_tick = tick - start_tick;
                let mut commands = commands;
                let mut order: usize = 0;
                while order < new_commands.len()
                    invariant
                        0 <= order <= new_commands.len(),
                        commands@ == old_rec.commands@ + records_for_tick(
                            relative_tick,
                            new_commands@,
                        ).take(order as int),
                    decreases new_commands.len() - order,
                {
                    let recorded = RecordedSimulationCommand {
                        tick: relative_tick,
                        order: order as u64,
                        command: new_commands[order].clone(),
                    };
                    commands.push(recorded);
                    order = order + 1;
                    proof {
                        assert(commands@ =~= old_rec.commands@ + records_for_tick(
                            relative_tick,
                            new_commands@,
                        ).take(order as int));
                    }
                }
                proof {
                    assert(records_for_tick(relative_tick, new_commands@).take(
                        new_commands@.len() as int,
                    ) =~= records_for_tick(relative_tick, new_commands@));
                    lemma_extend_keeps_valid(old_rec, new_commands@);
                    lemma_commands_at_new_tick(old_rec, new_commands@);
                }
                self.recording = Some(
                    ActiveRecording {
                        start_tick,
                        recording: SimulationRecording {
                            format_version,
                            total_ticks: total_ticks + 1,
                            commands,
                        },
                    },
                );
            },
            None => {},
        }
        let mut result: Vec<SimulationCommand> = Vec::new();
        std::mem::swap(&mut result, &mut self.deferred);
        result.append(&mut new_commands);
        result
    }

    /// Postpones commands to the next tick.
    pub fn defer(&mut self, commands: Vec<SimulationCommand>)
        requires
            old(self).wf(),
        ensures
            Self::keeps_recording(*old(self), *final(self)),
            final(self).wf(),
            final(self).deferred_commands() == old(self).deferred_commands() + commands@,
            final(self).pending_commands() == old(self).pending_commands(),
            final(self).tick() == old(self).tick(),
            final(self).active_recording() == old(self).active_recording(),
    {
        let mut commands = commands;
        self.deferred.append(&mut commands);
    }
}

impl Default for SimulationCommandBus {
    fn default() -> (r: Self)
        ensures
            r.wf(),
            r.pending_commands() == Seq::<SimulationCommand>::empty(),
            r.deferred_commands() == Seq::<SimulationCommand>::empty(),
            r.tick() == 0,
            r.active_recording() is None,
    {
        SimulationCommandBus::new()
    }
}

/// A recording started on a bus stays in progress and playable through any sequence of
/// calls on the bus (emits, deferrals and ticks), so that finishing it hands out a
/// recording that can be played. `states` are the bus after the start of the recording
/// and after each later call.
pub proof fn lemma_recording_survives_bus_calls(states: Seq<SimulationCommandBus>)
    requires
        states.len() >= 1,
        states[0].wf(),
        states[0].active_recording() is Some,
        forall|i: int|
            0 <= i < states.len() - 1 ==> #[trigger] SimulationCommandBus::keeps_recording(
                states[i],
                states[i + 1],
            ),
    ensures
        states.last().wf(),
        states.last().active_recording() matches Some((start, rec)) && start == (states[0].active_recording()->0).0
            && rec.is_valid(),
    decreases states.len(),
{
    if states.len() > 1 {
        let shorter = states.drop_last();
        assert forall|i: int| 0 <= i < shorter.len() - 1 implies #[trigger] SimulationCommandBus::keeps_recording(
            shorter[i],
            shorter[i + 1],
        ) by {
            assert(SimulationCommandBus::keeps_recording(states[i], states[i + 1]));
        }
        lemma_recording_survives_bus_calls(shorter);
        let k = states.len() - 2;
        assert(SimulationCommandBus::keeps_recording(states[k], states[k + 1]));
        assert(shorter.last() == states[k]);
    }
}

/// Recording one more tick keeps a valid recording valid.
proof fn lemma_extend_keeps_valid(rec: SimulationRecording, cmds: Seq<SimulationCommand>)
    requires
        rec.is_valid(),
        rec.total_ticks < u64::MAX,
        cmds.len() <= u64::MAX,
    ensures
        ({
            let ext = rec.commands@ + records_for_tick(rec.total_ticks, cmds);
            forall|i: int|
                0 <= i < ext.len() ==> #[trigger] defect_at(ext, (rec.total_ticks + 1) as u64, i)
                    is None
        }),
{
    let old_cmds = rec.commands@;
    let new_recs = records_for_tick(rec.total_ticks, cmds);
    let ext = old_cmds + new_recs;
    let n = old_cmds.len() as int;
    let t = (rec.total_ticks + 1) as u64;
    rec.lemma_valid_ticks_sorted();
    assert forall|i: int| 0 <= i < ext.len() implies #[trigger] defect_at(ext, t, i) is None by {
        if i < n {
            assert(defect_at(old_cmds, rec.total_ticks, i) is None);
            assert(ext[i] == old_cmds[i]);
            if i > 0 {
                assert(ext[i - 1] == old_cmds[i - 1]);
            }
            assert(expected_order(ext, i) == expected_order(old_cmds, i));
        } else if i == n {
            assert(ext[i] == new_recs[0]);
            assert(new_recs[0].tick == rec.total_ticks);
            assert(new_recs[0].order == 0);
            if i > 0 {
                assert(ext[i - 1] == old_cmds[i - 1]);
                assert(old_cmds[i - 1].tick < rec.total_ticks);
            }
            assert(expected_order(ext, i) == 0);
        } else {
            assert(ext[i] == new_recs[i - n]);
            assert(ext[i - 1] == new_recs[i - 1 - n]);
            assert(new_recs[i - n].tick == rec.total_ticks);
            assert(new_recs[i - 1 - n].tick == rec.total_ticks);
            assert(new_recs[i - n].order == (i - n) as u64);
            assert(new_recs[i - 1 - n].order == (i - 1 - n) as u64);
            assert(expected_order(ext, i) == new_recs[i - 1 - n].order + 1);
        }
    }
}

proof fn lemma_commands_at_none(recs: Seq<RecordedSimulationCommand>, tick: u64)
    requires
        forall|i: int| 0 <= i < recs.len() ==> recs[i].tick < tick,
    ensures
        commands_at(recs, tick) == Seq::<SimulationCommand>::empty(),
    decreases recs.len(),
{
    if recs.len() > 0 {
        lemma_commands_at_none(recs.drop_last(), tick);
    }
}

/// Recording a tick leaves what was recorded at every other tick as it was: with the
/// commands of the tick they were drained at, a finished recording gives back, tick by
/// tick, what the live session drained, and playback emits exactly that.
pub proof fn lemma_recording_keeps_other_ticks(
    recs: Seq<RecordedSimulationCommand>,
    tick: u64,
    cmds: Seq<SimulationCommand>,
    other: u64,
)
    requires
        other != tick,
    ensures
        commands_at(recs + records_for_tick(tick, cmds), other) == commands_at(recs, other),
    decreases cmds.len(),
{
    if cmds.len() > 0 {
        let shorter = cmds.drop_last();
        lemma_recording_keeps_other_ticks(recs, tick, shorter, other);
        assert((recs + records_for_tick(tick, cmds)).drop_last() =~= recs + records_for_tick(tick, shorter));
    } else {
        assert(recs + records_for_tick(tick, cmds) =~= recs);
    }
}

/// After a tick is recorded, the commands recorded at that tick are the new ones.
proof fn lemma_commands_at_new_tick(rec: SimulationRecording, cmds: Seq<SimulationCommand>)
    requires
        rec.is_valid(),
    ensures
        commands_at(rec.commands@ + records_for_tick(rec.total_ticks, cmds), rec.total_ticks)
            == cmds,
{
    let old_cmds = rec.commands@;
    let new_recs = records_for_tick(rec.total_ticks, cmds);
    lemma_commands_at_new_prefix(rec, cmds, cmds.len() as int);
    assert((old_cmds + new_recs).take((old_cmds.len() + cmds.len()) as int) =~= old_cmds + new_recs);
    assert(cmds.take(cmds.len() as int) =~= cmds);
}

proof fn lemma_commands_at_new_prefix(rec: SimulationRecording, cmds: Seq<SimulationCommand>, k: int)
    requires
        rec.is_valid(),
        0 <= k <= cmds.len(),
    ensures
        commands_at(
            (rec.commands@ + records_for_tick(rec.total_ticks, cmds)).take(rec.commands@.len() as int + k),
            rec.total_ticks,
        ) == cmds.take(k),
    decreases k,
{
    let old_cmds = rec.commands@;
    let new_recs = records_for_tick(rec.total_ticks, cmds);
    let n = old_cmds.len() as int;
    if k == 0 {
        rec.lemma_valid_ticks_sorted();
        lemma_commands_at_none(old_cmds, rec.total_ticks);
        assert((old_cmds + new_recs).take(n) =~= old_cmds);
        assert(cmds.take(0) =~= Seq::<SimulationCommand>::empty());
    } else {
        lemma_commands_at_new_prefix(rec, cmds, k - 1);
        let prefix = (old_cmds + new_recs).take(n + k);
        assert(prefix.drop_last() =~= (old_cmds + new_recs).take(n + k - 1));
        assert(prefix.last() == new_recs[k - 1]);
        assert(cmds.take(k) =~= cmds.take(k - 1).push(cmds[k - 1]));
    }
}

/// Tick-driven playback: feeds a recording to a command bus tick by tick, as live
/// input would.
#[derive(Clone, Debug)]
pub struct SimulationCommandPlayer {
    recording: SimulationRecording,
    cursor: usize,
    next_tick: u64,
}

impl SimulationCommandPlayer {
    /// The recording being played.
    pub closed spec fn recording(&self) -> SimulationRecording {
        self.recording
    }

    /// The tick that the next call plays.
    pub closed spec fn tick(&self) -> u64 {
        self.next_tick
    }

    /// How many recorded commands have been emitted.
    pub closed spec fn played(&self) -> nat {
        self.cursor as nat
    }

    /// The player has emitted exactly the commands of the ticks before its current one.
    pub closed spec fn wf(&self) -> bool {
        let cmds = self.recording.commands@;
        &&& self.recording.is_valid()
        &&& self.cursor <= cmds.len()
        &&& forall|i: int| 0 <= i < self.cursor ==> #[trigger] cmds[i].tick < self.next_tick
        &&& forall|i: int| self.cursor <= i < cmds.len() ==> #[trigger] cmds[i].tick >= self.next_tick
    }

    /// Starts playing a recording from its first tick; a recording that cannot be played
    /// is refused with its first defect.
    pub fn new(recording: SimulationRecording) -> (r: AppResult<Self>)
        ensures
            r is Ok <==> recording.is_valid(),
            r matches Ok(p) ==> p.wf() && p.recording() == recording && p.tick() == 0
                && p.played() == 0,
            r matches Err(e) ==> e.message() == defect_message(recording.first_defect()->0),
    {
        match recording.validate() {
            Ok(()) => {
                let p = SimulationCommandPlayer { recording, cursor: 0, next_tick: 0 };
                Ok(p)
            },
            Err(e) => Err(e),
        }
    }

    pub open spec fn is_finished_spec(&self) -> bool {
        self.tick() >= self.recording().total_ticks
    }

    /// All recorded ticks, including trailing empty ones, have been played.
    pub fn is_finished(&self) -> (r: bool)
        ensures
            r == self.is_finished_spec(),
    {
        self.next_tick >= self.recording.total_ticks
    }

    /// Emits the commands recorded for the next tick, in their recorded order, and
    /// advances playback by exactly one tick, including empty ticks. Returns how many
    /// commands were emitted.
    pub fn emit_next_tick(&mut self, bus: &mut SimulationCommandBus) -> (r: usize)
        requires
            old(self).wf(),
            old(bus).wf(),
        ensures
            final(self).wf(),
            final(bus).wf(),
            final(self).recording() == old(self).recording(),
            final(bus).deferred_commands() == old(bus).deferred_commands(),
            final(bus).tick() == old(bus).tick(),
            final(bus).active_recording() == old(bus).active_recording(),
            old(self).is_finished_spec() ==> r == 0 && final(self).tick() == old(self).tick()
                && final(bus).pending_commands() == old(bus).pending_commands(),
            !old(self).is_finished_spec() ==> {
                let emitted = commands_at(old(self).recording().commands@, old(self).tick());
                &&& final(self).tick() == old(self).tick() + 1
                &&& final(bus).pending_commands() == old(bus).pending_commands() + emitted
                &&& r == emitted.len()
            },
    {
        if self.is_finished() {
            return 0;
        }
        let ghost cmds = self.recording.commands@;
        let first = self.cursor;
        let ghost start = self.cursor as int;
        let ghost old_pending = bus.pending_commands();
        proof {
            self.recording.lemma_valid_ticks_sorted();
        }
        while self.cursor < self.recording.commands.len() && self.recording.commands[self.cursor].tick
            == self.next_tick
            invariant
                cmds == self.recording.commands@,
                self.recording == old(self).recording,
                self.recording.is_valid(),
                start == first,
                start <= self.cursor <= cmds.len(),
                forall|i: int| 0 <= i < start ==> #[trigger] cmds[i].tick < self.next_tick,
                forall|i: int| start <= i < self.cursor ==> #[trigger] cmds[i].tick == self.next_tick,
                forall|i: int| start <= i < cmds.len() ==> #[trigger] cmds[i].tick >= self.next_tick,
                forall|i: int, j: int| 0 <= i <= j < cmds.len() ==> cmds[i].tick <= cmds[j].tick,
                bus.wf(),
                bus.pending_commands() == old_pending + commands_of(cmds.subrange(start, self.cursor as int)),
                bus.deferred_commands() == old(bus).deferred_commands(),
                bus.tick() == old(bus).tick(),
                bus.active_recording() == old(bus).active_recording(),
                self.next_tick == old(self).next_tick,
                self.next_tick < self.recording.total_ticks,
            decreases cmds.len() - self.cursor,
        {
            let command = self.recording.commands[self.cursor].command.clone();
            bus.emit(command);
            proof {
                assert(commands_of(cmds.subrange(start, self.cursor + 1)) =~= commands_of(
                    cmds.subrange(start, self.cursor as int),
                ).push(cmds[self.cursor as int].command));
            }
            self.cursor = self.cursor + 1;
        }
        let ghost t = self.next_tick;
        proof {
            lemma_commands_at_block(cmds, t, start, self.cursor as int);
        }
        self.next_tick = self.next_tick + 1;
        proof {
            assert forall|i: int| self.cursor <= i < cmds.len() implies #[trigger] cmds[i].tick
                >= self.next_tick by {
                assert(cmds[self.cursor as int].tick != t);
                assert(cmds[self.cursor as int].tick <= cmds[i].tick);
            }
        }
        self.cursor - first
    }
}

/// Where the prefix of length `n` stands against the block `start..end`.
pub open spec fn clamp(n: int, start: int, end: int) -> int {
    if n < start {
        start
    } else if n > end {
        end
    } else {
        n
    }
}

/// In sorted records, the commands recorded at `tick` are the block `start..end` where
/// the records before `start` are earlier and those from `end` on are later.
proof fn lemma_commands_at_block(recs: Seq<RecordedSimulationCommand>, tick: u64, start: int, end: int)
    requires
        0 <= start <= end <= recs.len(),
        forall|i: int| 0 <= i < start ==> #[trigger] recs[i].tick < tick,
        forall|i: int| start <= i < end ==> #[trigger] recs[i].tick == tick,
        forall|i: int| end <= i < recs.len() ==> #[trigger] recs[i].tick > tick,
    ensures
        commands_at(recs, tick) == commands_of(recs.subrange(start, end)),
{
    lemma_commands_at_block_prefix(recs, tick, start, end, recs.len() as int);
    assert(recs.take(recs.len() as int) =~= recs);
}

proof fn lemma_commands_at_block_prefix(
    recs: Seq<RecordedSimulationCommand>,
    tick: u64,
    start: int,
    end: int,
    n: int,
)
    requires
        0 <= start <= end <= recs.len(),
        0 <= n <= recs.len(),
        forall|i: int| 0 <= i < start ==> #[trigger] recs[i].tick < tick,
        forall|i: int| start <= i < end ==> #[trigger] recs[i].tick == tick,
        forall|i: int| end <= i < recs.len() ==> #[trigger] recs[i].tick > tick,
    ensures
        commands_at(recs.take(n), tick) == commands_of(recs.subrange(start, clamp(n, start, end))),
    decreases n,
{
    if n == 0 {
        assert(commands_of(recs.subrange(start, start)) =~= Seq::<SimulationCommand>::empty());
    } else {
        lemma_commands_at_block_prefix(recs, tick, start, end, n - 1);
        let prefix = recs.take(n);
        assert(prefix.drop_last() =~= recs.take(n - 1));
        assert(prefix.last() == recs[n - 1]);
        if start <= n - 1 < end {
            assert(commands_of(recs.subrange(start, n)) =~= commands_of(
                recs.subrange(start, n - 1),
            ).push(recs[n - 1].command));
        }
    }
}

} // verus!
