use vstd::prelude::*;

use crate::constants::{
    ALARM_ACTIVE_DURATION, ARM_DELAY, BEEP_MILLIS, CAM0_SNAPSHOT_PATH, CAM1_SNAPSHOT_PATH,
    PAYLOAD_OFF, PAYLOAD_ON, TELEGRAM_MSG_BACK_DOOR_ALERT, TELEGRAM_MSG_BELL_ALERT,
    TELEGRAM_MSG_FRONT_DOOR_ALERT, TELEGRAM_MSG_INTRUDER_ALERT, TELEGRAM_MSG_MOVEMENT_1_ALERT,
    TELEGRAM_MSG_MOVEMENT_2_ALERT, TELEGRAM_MSG_MOVEMENT_3_ALERT, TOPIC_ALARM_EXTERIOR,
    TOPIC_ALARM_INTERIOR,
};

verus! {

/// The sensors wired to the alarm.
#[derive(Clone, Copy, Debug, PartialEq, Eq)]
pub enum SensorType {
    FrontDoor,
    BackDoor,
    Movement1,
    Movement2,
    Movement3,
}

/// What the alarm is asked to do.
#[derive(Clone, Copy, Debug, PartialEq, Eq)]
pub enum AlarmCommand {
    /// Start the exit delay; the alarm arms when it ends.
    Arm,
    /// The exit delay is over.
    ConfirmArm,
    /// Disarm and silence everything.
    Deactivate,
    /// The siren has sounded for its full duration.
    AutoDeactivate,
    SensorTriggered(SensorType),
}

/// The alarm's observable state.
#[derive(Clone, Copy, Debug, PartialEq, Eq)]
pub struct AlarmStatus {
    pub armed: bool,
    pub activated: bool,
    pub arming: bool,
}

/// The two sirens, each driven by an MQTT topic.
#[derive(Clone, Copy, Debug, PartialEq, Eq)]
pub enum Siren {
    Interior,
    Exterior,
}

#[derive(Clone, Copy, Debug, PartialEq, Eq)]
pub enum Switch {
    On,
    Off,
}

/// Telegram text notifications.
#[derive(Clone, Copy, Debug, PartialEq, Eq)]
pub enum Notice {
    Bell,
    IntruderAlert,
    Sensor(SensorType),
}

#[derive(Clone, Copy, Debug, PartialEq, Eq)]
pub enum Camera {
    Cam0,
    Cam1,
}

/// Outside work that the alarm asks its runner to perform, in order.
#[derive(Clone, Copy, Debug, PartialEq, Eq)]
pub enum Effect {
    /// Publish the switch's payload on the siren's topic.
    Publish(Siren, Switch),
    /// Wait this many milliseconds before the next effect.
    Pause(u64),
    /// Send a Telegram text message.
    Notify(Notice),
    /// Send a camera snapshot to Telegram.
    Photo(Camera),
    /// Deliver the command to the alarm after this many seconds.
    Schedule(u64, AlarmCommand),
}

impl Siren {
    pub open spec fn spec_topic(self) -> &'static str {
        match self {
            Siren::Interior => TOPIC_ALARM_INTERIOR,
            Siren::Exterior => TOPIC_ALARM_EXTERIOR,
        }
    }

    /// The MQTT topic that drives this siren.
    pub fn topic(&self) -> (t: &'static str)
        ensures
            t@ == self.spec_topic()@,
    {
        match self {
            Siren::Interior => TOPIC_ALARM_INTERIOR,
            Siren::Exterior => TOPIC_ALARM_EXTERIOR,
        }
    }
}

impl Switch {
    pub open spec fn spec_payload(self) -> &'static str {
        match self {
            Switch::On => PAYLOAD_ON,
            Switch::Off => PAYLOAD_OFF,
        }
    }

    /// The MQTT payload for this switch state.
    pub fn payload(&self) -> (p: &'static str)
        ensures
            p@ == self.spec_payload()@,
    {
        match self {
            Switch::On => PAYLOAD_ON,
            Switch::Off => PAYLOAD_OFF,
        }
    }
}

impl Camera {
    pub open spec fn spec_snapshot_path(self) -> &'static str {
        match self {
            Camera::Cam0 => CAM0_SNAPSHOT_PATH,
            Camera::Cam1 => CAM1_SNAPSHOT_PATH,
        }
    }

    /// Where the camera's latest snapshot is stored.
    pub fn snapshot_path(&self) -> (p: &'static str)
        ensures
            p@ == self.spec_snapshot_path()@,
    {
        match self {
            Camera::Cam0 => CAM0_SNAPSHOT_PATH,
            Camera::Cam1 => CAM1_SNAPSHOT_PATH,
        }
    }
}

pub open spec fn spec_sensor_message(sensor: SensorType) -> &'static str {
    match sensor {
        SensorType::FrontDoor => TELEGRAM_MSG_FRONT_DOOR_ALERT,
        SensorType::BackDoor => TELEGRAM_MSG_BACK_DOOR_ALERT,
        SensorType::Movement1 => TELEGRAM_MSG_MOVEMENT_1_ALERT,
        SensorType::Movement2 => TELEGRAM_MSG_MOVEMENT_2_ALERT,
        SensorType::Movement3 => TELEGRAM_MSG_MOVEMENT_3_ALERT,
    }
}

impl Notice {
    pub open spec fn spec_text(self) -> &'static str {
        match self {
            Notice::Bell => TELEGRAM_MSG_BELL_ALERT,
            Notice::IntruderAlert => TELEGRAM_MSG_INTRUDER_ALERT,
            Notice::Sensor(sensor) => spec_sensor_message(sensor),
        }
    }

    /// The text of the Telegram message.
    pub fn text(&self) -> (t: &'static str)
        ensures
            t@ == self.spec_text()@,
    {
        match self {
            Notice::Bell => TELEGRAM_MSG_BELL_ALERT,
            Notice::IntruderAlert => TELEGRAM_MSG_INTRUDER_ALERT,
            Notice::Sensor(sensor) => AlarmActor::sensor_messages(sensor),
        }
    }
}

// The model of the alarm: a state and what each command does to it.

/// The states the alarm can be in: it sounds only while armed, and it is
/// never armed and waiting for its exit delay at once.
pub open spec fn status_wf(s: AlarmStatus) -> bool {
    &&& s.activated ==> s.armed
    &&& !(s.armed && s.arming)
}

pub open spec fn idle_status() -> AlarmStatus {
    AlarmStatus { armed: false, activated: false, arming: false }
}

pub open spec fn beep() -> Seq<Effect> {
    seq![
        Effect::Publish(Siren::Interior, Switch::On),
        Effect::Pause(BEEP_MILLIS),
        Effect::Publish(Siren::Interior, Switch::Off),
    ]
}

pub open spec fn sirens_off() -> Seq<Effect> {
    seq![
        Effect::Publish(Siren::Exterior, Switch::Off),
        Effect::Publish(Siren::Interior, Switch::Off),
    ]
}

/// The state after the alarm handles `command` in state `s`.
pub open spec fn next_status(s: AlarmStatus, command: AlarmCommand) -> AlarmStatus {
    match command {
        AlarmCommand::Arm => if s.armed || s.arming {
            s
        } else {
            AlarmStatus { arming: true, ..s }
        },
        AlarmCommand::ConfirmArm => if s.arming {
            AlarmStatus { armed: true, activated: false, arming: false }
        } else {
            s
        },
        AlarmCommand::Deactivate => idle_status(),
        AlarmCommand::AutoDeactivate => if s.activated {
            idle_status()
        } else {
            s
        },
        AlarmCommand::SensorTriggered(_) => if s.armed {
            AlarmStatus { activated: true, ..s }
        } else {
            s
        },
    }
}

/// The effects, in order, of the alarm handling `command` in state `s`.
pub open spec fn command_effects(s: AlarmStatus, command: AlarmCommand) -> Seq<Effect> {
    match command {
        AlarmCommand::Arm => if s.armed || s.arming {
            seq![]
        } else {
            beep().push(Effect::Schedule(ARM_DELAY, AlarmCommand::ConfirmArm))
        },
        AlarmCommand::ConfirmArm => seq![],
        AlarmCommand::Deactivate => if s.armed && !s.activated {
            sirens_off() + beep()
        } else {
            sirens_off()
        },
        AlarmCommand::AutoDeactivate => if s.activated {
            sirens_off()
        } else {
            seq![]
        },
        AlarmCommand::SensorTriggered(sensor) => if s.armed {
            sensor_alert(sensor) + activation(s.activated)
        } else {
            seq![]
        },
    }
}

/// The alert sent when a sensor fires while the alarm is armed.
pub open spec fn sensor_alert(sensor: SensorType) -> Seq<Effect> {
    seq![
        Effect::Notify(Notice::IntruderAlert),
        Effect::Notify(Notice::Sensor(sensor)),
        Effect::Photo(Camera::Cam0),
        Effect::Photo(Camera::Cam1),
    ]
}

/// Sounding the exterior siren; the timer that silences it is started only
/// when the alarm was not already sounding.
pub open spec fn activation(already_activated: bool) -> Seq<Effect> {
    if already_activated {
        seq![Effect::Publish(Siren::Exterior, Switch::On)]
    } else {
        seq![
            Effect::Publish(Siren::Exterior, Switch::On),
            Effect::Schedule(ALARM_ACTIVE_DURATION, AlarmCommand::AutoDeactivate),
        ]
    }
}

/// The state reached from a fresh alarm after the commands, in order.
pub open spec fn status_after(commands: Seq<AlarmCommand>) -> AlarmStatus
    decreases commands.len(),
{
    if commands.len() == 0 {
        idle_status()
    } else {
        next_status(status_after(commands.drop_last()), commands.last())
    }
}

/// The alarm's state machine. It performs no outside work itself: each
/// command returns the effects that its runner has to carry out.
pub struct AlarmActor {
    armed: bool,
    activated: bool,
    arming: bool,
}

impl View for AlarmActor {
    type V = AlarmStatus;

    closed spec fn view(&self) -> AlarmStatus {
        AlarmStatus { armed: self.armed, activated: self.activated, arming: self.arming }
    }
}

impl AlarmActor {
    #[verifier::type_invariant]
    closed spec fn inv(self) -> bool {
        status_wf(self@)
    }

    /// A disarmed, silent alarm.
    pub fn new() -> (alarm: Self)
        ensures
            alarm@ == idle_status(),
    {
        AlarmActor { armed: false, activated: false, arming: false }
    }

    /// The current state (what a status call is answered).
    pub fn handle_call(&self) -> (status: AlarmStatus)
        ensures
            status == self@,
            status_wf(status),
    {
        proof {
            use_type_invariant(self);
        }
        AlarmStatus { armed: self.armed, activated: self.activated, arming: self.arming }
    }

    fn set(&mut self, status: AlarmStatus)
        requires
            status_wf(status),
        ensures
            final(self)@ == status,
    {
        *self = AlarmActor { armed: status.armed, activated: status.activated, arming: status.arming };
    }

    fn push_beep(effects: &mut Vec<Effect>)
        ensures
            final(effects)@ == old(effects)@ + beep(),
    {
        effects.push(Effect::Publish(Siren::Interior, Switch::On));
        effects.push(Effect::Pause(BEEP_MILLIS));
        effects.push(Effect::Publish(Siren::Interior, Switch::Off));
    }

    fn push_sirens_off(effects: &mut Vec<Effect>)
        ensures
            final(effects)@ == old(effects)@ + sirens_off(),
    {
        effects.push(Effect::Publish(Siren::Exterior, Switch::Off));
        effects.push(Effect::Publish(Siren::Interior, Switch::Off));
    }

    fn arm(&mut self, effects: &mut Vec<Effect>)
        ensures
            final(self)@ == next_status(old(self)@, AlarmCommand::Arm),
            final(effects)@ == old(effects)@ + command_effects(old(self)@, AlarmCommand::Arm),
    {
        proof {
            use_type_invariant(&*self);
        }
        if self.armed || self.arming {
            assert(old(effects)@ + seq![] =~= old(effects)@);
            return;
        }
        Self::push_beep(effects);
        effects.push(Effect::Schedule(ARM_DELAY, AlarmCommand::ConfirmArm));
        self.set(AlarmStatus { armed: false, activated: false, arming: true });
    }

    fn confirm_arm(&mut self)
        ensures
            final(self)@ == next_status(old(self)@, AlarmCommand::ConfirmArm),
    {
        if self.arming {
            self.set(AlarmStatus { armed: true, activated: false, arming: false });
        }
    }

    fn activate(&mut self, effects: &mut Vec<Effect>)
        requires
            old(self)@.armed,
        ensures
            final(self)@ == (AlarmStatus { activated: true, ..old(self)@ }),
            final(effects)@ == old(effects)@ + activation(old(self)@.activated),
    {
        proof {
            use_type_invariant(&*self);
        }
        effects.push(Effect::Publish(Siren::Exterior, Switch::On));
        if !self.activated {
            effects.push(Effect::Schedule(ALARM_ACTIVE_DURATION, AlarmCommand::AutoDeactivate));
        }
        self.set(AlarmStatus { armed: true, activated: true, arming: false });
    }

    fn deactivate(&mut self, effects: &mut Vec<Effect>)
        ensures
            final(self)@ == next_status(old(self)@, AlarmCommand::Deactivate),
            final(effects)@ == old(effects)@ + command_effects(old(self)@, AlarmCommand::Deactivate),
    {
        Self::push_sirens_off(effects);
        if self.armed && !self.activated {
            Self::push_beep(effects);
            assert(old(effects)@ + sirens_off() + beep() =~= old(effects)@ + (sirens_off() + beep()));
        }
        self.set(AlarmStatus { armed: false, activated: false, arming: false });
    }

    fn auto_deactivate(&mut self, effects: &mut Vec<Effect>)
        ensures
            final(self)@ == next_status(old(self)@, AlarmCommand::AutoDeactivate),
            final(effects)@ == old(effects)@ + command_effects(old(self)@, AlarmCommand::AutoDeactivate),
    {
        if self.activated {
            Self::push_sirens_off(effects);
            self.set(AlarmStatus { armed: false, activated: false, arming: false });
        } else {
            assert(old(effects)@ + seq![] =~= old(effects)@);
        }
    }

    /// The Telegram text that names the sensor that fired.
    pub fn sensor_messages(sensor: &SensorType) -> (message: &'static str)
        ensures
            message@ == spec_sensor_message(*sensor)@,
    {
        match sensor {
            SensorType::FrontDoor => TELEGRAM_MSG_FRONT_DOOR_ALERT,
            SensorType::BackDoor => TELEGRAM_MSG_BACK_DOOR_ALERT,
            SensorType::Movement1 => TELEGRAM_MSG_MOVEMENT_1_ALERT,
            SensorType::Movement2 => TELEGRAM_MSG_MOVEMENT_2_ALERT,
            SensorType::Movement3 => TELEGRAM_MSG_MOVEMENT_3_ALERT,
        }
    }

    /// Handles one command: updates the state and returns the effects to
    /// carry out, in order.
    pub fn handle_cast(&mut self, message: AlarmCommand) -> (effects: Vec<Effect>)
        ensures
            final(self)@ == next_status(old(self)@, message),
            effects@ == command_effects(old(self)@, message),
    {
        let mut effects: Vec<Effect> = Vec::new();
        match message {
            AlarmCommand::Arm => {
                self.arm(&mut effects);
            },
            AlarmCommand::ConfirmArm => {
                self.confirm_arm();
            },
            AlarmCommand::Deactivate => {
                self.deactivate(&mut effects);
            },
            AlarmCommand::AutoDeactivate => {
                self.auto_deactivate(&mut effects);
            },
            AlarmCommand::SensorTriggered(sensor) => {
                if self.armed {
                    effects.push(Effect::Notify(Notice::IntruderAlert));
                    effects.push(Effect::Notify(Notice::Sensor(sensor)));
                    effects.push(Effect::Photo(Camera::Cam0));
                    effects.push(Effect::Photo(Camera::Cam1));
                    self.activate(&mut effects);
                }
            },
        }
        assert(effects@ =~= command_effects(old(self)@, message));
        effects
    }
}

// Laws of the alarm.

/// Every command keeps the alarm in a consistent state: it sounds only while
/// armed, and it is never armed while still waiting for its exit delay.
pub proof fn lemma_commands_preserve_wf(s: AlarmStatus, command: AlarmCommand)
    requires
        status_wf(s),
    ensures
        status_wf(next_status(s, command)),
{
}

/// Every state reachable from a fresh alarm is consistent.
pub proof fn lemma_reachable_states_wf(commands: Seq<AlarmCommand>)
    ensures
        status_wf(status_after(commands)),
    decreases commands.len(),
{
    if commands.len() > 0 {
        lemma_reachable_states_wf(commands.drop_last());
        lemma_commands_preserve_wf(status_after(commands.drop_last()), commands.last());
    }
}

/// Deactivating from any state disarms the alarm, cancels a pending exit
/// delay, and switches both sirens off first.
pub proof fn lemma_deactivate_resets(s: AlarmStatus)
    ensures
        next_status(s, AlarmCommand::Deactivate) == idle_status(),
        command_effects(s, AlarmCommand::Deactivate).take(2) == sirens_off(),
{
    assert(command_effects(s, AlarmCommand::Deactivate).take(2) =~= sirens_off());
}

/// An exit delay that ends after the alarm was deactivated arms nothing.
pub proof fn lemma_confirm_after_deactivate_is_ignored(s: AlarmStatus)
    ensures
        next_status(next_status(s, AlarmCommand::Deactivate), AlarmCommand::ConfirmArm)
            == idle_status(),
        command_effects(next_status(s, AlarmCommand::Deactivate), AlarmCommand::ConfirmArm)
            == Seq::<Effect>::empty(),
{
}

/// A sensor that fires while the alarm is not armed (disarmed, or still in
/// its exit delay) changes nothing and alerts no one.
pub proof fn lemma_sensor_ignored_unless_armed(s: AlarmStatus, sensor: SensorType)
    requires
        !s.armed,
    ensures
        next_status(s, AlarmCommand::SensorTriggered(sensor)) == s,
        command_effects(s, AlarmCommand::SensorTriggered(sensor)) == Seq::<Effect>::empty(),
{
}

/// A sensor that fires while armed sounds the alarm, and the timer that
/// silences it is started only by the first sensor of an activation.
pub proof fn lemma_one_timer_per_activation(s: AlarmStatus, sensor: SensorType)
    requires
        s.armed,
    ensures
        next_status(s, AlarmCommand::SensorTriggered(sensor)).armed,
        next_status(s, AlarmCommand::SensorTriggered(sensor)).activated,
        command_effects(s, AlarmCommand::SensorTriggered(sensor)).contains(
            Effect::Schedule(ALARM_ACTIVE_DURATION, AlarmCommand::AutoDeactivate),
        ) <==> !s.activated,
{
    let effects = command_effects(s, AlarmCommand::SensorTriggered(sensor));
    let timer = Effect::Schedule(ALARM_ACTIVE_DURATION, AlarmCommand::AutoDeactivate);
    if !s.activated {
        assert(effects[5] == timer);
    } else {
        assert(effects =~= sensor_alert(sensor) + seq![Effect::Publish(Siren::Exterior, Switch::On)]);
        assert forall|i: int| 0 <= i < effects.len() implies effects[i] != timer by {}
    }
}

/// Asking to arm twice is the same as asking once: the second request
/// neither restarts the exit delay nor beeps again.
pub proof fn lemma_arm_idempotent(s: AlarmStatus)
    ensures
        next_status(next_status(s, AlarmCommand::Arm), AlarmCommand::Arm) == next_status(
            s,
            AlarmCommand::Arm,
        ),
        command_effects(next_status(s, AlarmCommand::Arm), AlarmCommand::Arm)
            == Seq::<Effect>::empty(),
{
}

/// From a disarmed alarm, an arm request followed by the end of the exit
/// delay leaves the alarm armed and silent.
pub proof fn lemma_arm_then_confirm_arms(s: AlarmStatus)
    requires
        status_wf(s),
        !s.armed,
        !s.arming,
    ensures
        next_status(next_status(s, AlarmCommand::Arm), AlarmCommand::ConfirmArm)
            == (AlarmStatus { armed: true, activated: false, arming: false }),
        command_effects(s, AlarmCommand::Arm).last()
            == Effect::Schedule(ARM_DELAY, AlarmCommand::ConfirmArm),
{
}

/// A silencing timer that fires when the alarm is not sounding (it was
/// deactivated by hand in the meantime) changes nothing.
pub proof fn lemma_stale_auto_deactivate_is_ignored(s: AlarmStatus)
    requires
        !s.activated,
    ensures
        next_status(s, AlarmCommand::AutoDeactivate) == s,
        command_effects(s, AlarmCommand::AutoDeactivate) == Seq::<Effect>::empty(),
{
}

/// The exterior siren is switched on, and intruder alerts and photos are
/// sent, only by an armed alarm, which is then sounding.
pub proof fn lemma_alerts_only_when_armed(s: AlarmStatus, command: AlarmCommand, i: int)
    requires
        status_wf(s),
        0 <= i < command_effects(s, command).len(),
        command_effects(s, command)[i] == Effect::Publish(Siren::Exterior, Switch::On)
            || command_effects(s, command)[i] is Notify
            || command_effects(s, command)[i] is Photo,
    ensures
        s.armed,
        next_status(s, command).armed,
        next_status(s, command).activated,
{
    match command {
        AlarmCommand::SensorTriggered(sensor) => {},
        AlarmCommand::Deactivate => {
            let e = command_effects(s, command);
            if s.armed && !s.activated {
                assert(e =~= seq![
                    Effect::Publish(Siren::Exterior, Switch::Off),
                    Effect::Publish(Siren::Interior, Switch::Off),
                    Effect::Publish(Siren::Interior, Switch::On),
                    Effect::Pause(BEEP_MILLIS),
                    Effect::Publish(Siren::Interior, Switch::Off),
                ]);
            }
        },
        _ => {},
    }
}

// What each command does, written out state by state. These tables name the
// concrete effects and states, so they hold of the model's definitions only
// when those definitions do what the alarm is for.

/// Arming: from a disarmed alarm it beeps the interior siren (on, pause,
/// off) and starts the exit delay, after which `ConfirmArm` is delivered; an
/// alarm that is already armed (sounding or not) or already in its exit delay
/// is left exactly as it is, with no effect.
pub proof fn lemma_arm_table(s: AlarmStatus)
    requires
        status_wf(s),
    ensures
        s.armed || s.arming ==> next_status(s, AlarmCommand::Arm) == s,
        s.armed || s.arming ==> command_effects(s, AlarmCommand::Arm) == Seq::<Effect>::empty(),
        !s.armed && !s.arming ==> next_status(s, AlarmCommand::Arm) == (AlarmStatus {
            armed: false,
            activated: false,
            arming: true,
        }),
        !s.armed && !s.arming ==> command_effects(s, AlarmCommand::Arm) == seq![
            Effect::Publish(Siren::Interior, Switch::On),
            Effect::Pause(BEEP_MILLIS),
            Effect::Publish(Siren::Interior, Switch::Off),
            Effect::Schedule(ARM_DELAY, AlarmCommand::ConfirmArm),
        ],
{
}

/// The end of the exit delay arms a waiting alarm and does nothing else; in
/// any other state it is ignored.
pub proof fn lemma_confirm_arm_table(s: AlarmStatus)
    requires
        status_wf(s),
    ensures
        s.arming ==> next_status(s, AlarmCommand::ConfirmArm) == (AlarmStatus {
            armed: true,
            activated: false,
            arming: false,
        }),
        !s.arming ==> next_status(s, AlarmCommand::ConfirmArm) == s,
        command_effects(s, AlarmCommand::ConfirmArm) == Seq::<Effect>::empty(),
{
}

/// Disarming always ends idle. It switches the exterior siren off, then the
/// interior one; only an alarm that was armed and silent then gets a
/// confirmation beep, which ends with the interior siren off. In the exit
/// delay, disarmed, or sounding, nothing else is published.
pub proof fn lemma_deactivate_table(s: AlarmStatus)
    requires
        status_wf(s),
    ensures
        next_status(s, AlarmCommand::Deactivate) == (AlarmStatus {
            armed: false,
            activated: false,
            arming: false,
        }),
        s.armed && !s.activated ==> command_effects(s, AlarmCommand::Deactivate) == seq![
            Effect::Publish(Siren::Exterior, Switch::Off),
            Effect::Publish(Siren::Interior, Switch::Off),
            Effect::Publish(Siren::Interior, Switch::On),
            Effect::Pause(BEEP_MILLIS),
            Effect::Publish(Siren::Interior, Switch::Off),
        ],
        !s.armed || s.activated ==> command_effects(s, AlarmCommand::Deactivate) == seq![
            Effect::Publish(Siren::Exterior, Switch::Off),
            Effect::Publish(Siren::Interior, Switch::Off),
        ],
{
    assert(sirens_off() + beep() =~= seq![
        Effect::Publish(Siren::Exterior, Switch::Off),
        Effect::Publish(Siren::Interior, Switch::Off),
        Effect::Publish(Siren::Interior, Switch::On),
        Effect::Pause(BEEP_MILLIS),
        Effect::Publish(Siren::Interior, Switch::Off),
    ]);
}

/// The silencing timer, when the alarm is sounding, switches both sirens off
/// and leaves the alarm idle; otherwise it is ignored.
pub proof fn lemma_auto_deactivate_table(s: AlarmStatus)
    requires
        status_wf(s),
    ensures
        s.activated ==> next_status(s, AlarmCommand::AutoDeactivate) == (AlarmStatus {
            armed: false,
            activated: false,
            arming: false,
        }),
        s.activated ==> command_effects(s, AlarmCommand::AutoDeactivate) == seq![
            Effect::Publish(Siren::Exterior, Switch::Off),
            Effect::Publish(Siren::Interior, Switch::Off),
        ],
        !s.activated ==> next_status(s, AlarmCommand::AutoDeactivate) == s,
        !s.activated ==> command_effects(s, AlarmCommand::AutoDeactivate)
            == Seq::<Effect>::empty(),
{
}

/// A sensor that fires while armed sends the intruder alert and then the
/// message of that very sensor, both camera snapshots, and switches the
/// exterior siren on; the first one of an activation also starts the
/// silencing timer. While not armed a sensor does nothing.
pub proof fn lemma_sensor_table(s: AlarmStatus, sensor: SensorType)
    requires
        status_wf(s),
    ensures
        !s.armed ==> next_status(s, AlarmCommand::SensorTriggered(sensor)) == s,
        !s.armed ==> command_effects(s, AlarmCommand::SensorTriggered(sensor))
            == Seq::<Effect>::empty(),
        s.armed ==> next_status(s, AlarmCommand::SensorTriggered(sensor)) == (AlarmStatus {
            armed: true,
            activated: true,
            arming: false,
        }),
        s.armed && !s.activated ==> command_effects(s, AlarmCommand::SensorTriggered(sensor))
            == seq![
            Effect::Notify(Notice::IntruderAlert),
            Effect::Notify(Notice::Sensor(sensor)),
            Effect::Photo(Camera::Cam0),
            Effect::Photo(Camera::Cam1),
            Effect::Publish(Siren::Exterior, Switch::On),
            Effect::Schedule(ALARM_ACTIVE_DURATION, AlarmCommand::AutoDeactivate),
        ],
        s.armed && s.activated ==> command_effects(s, AlarmCommand::SensorTriggered(sensor))
            == seq![
            Effect::Notify(Notice::IntruderAlert),
            Effect::Notify(Notice::Sensor(sensor)),
            Effect::Photo(Camera::Cam0),
            Effect::Photo(Camera::Cam1),
            Effect::Publish(Siren::Exterior, Switch::On),
        ],
{
    assert(sensor_alert(sensor) + activation(s.activated) =~= if s.activated {
        seq![
            Effect::Notify(Notice::IntruderAlert),
            Effect::Notify(Notice::Sensor(sensor)),
            Effect::Photo(Camera::Cam0),
            Effect::Photo(Camera::Cam1),
            Effect::Publish(Siren::Exterior, Switch::On),
        ]
    } else {
        seq![
            Effect::Notify(Notice::IntruderAlert),
            Effect::Notify(Notice::Sensor(sensor)),
            Effect::Photo(Camera::Cam0),
            Effect::Photo(Camera::Cam1),
            Effect::Publish(Siren::Exterior, Switch::On),
            Effect::Schedule(ALARM_ACTIVE_DURATION, AlarmCommand::AutoDeactivate),
        ]
    });
}

/// The Telegram texts, written out: each sensor's message names that sensor.
pub proof fn lemma_notice_texts()
    ensures
        Notice::Bell.spec_text()@ == "Timbreee 👏👏"@,
        Notice::IntruderAlert.spec_text()@ == "🚨 ALERTA INTRUSO 🚨"@,
        Notice::Sensor(SensorType::FrontDoor).spec_text()@ == "Puerta delantera abierta 🚪"@,
        Notice::Sensor(SensorType::BackDoor).spec_text()@ == "Puerta trasera abierta 🚪"@,
        Notice::Sensor(SensorType::Movement1).spec_text()@
            == "Movimiento detectado 🏃🏾‍♂️ Sector 1"@,
        Notice::Sensor(SensorType::Movement2).spec_text()@
            == "Movimiento detectado 🏃🏾‍♂️ Sector 2"@,
        Notice::Sensor(SensorType::Movement3).spec_text()@
            == "Movimiento detectado 🏃🏾‍♂️ Sector 3"@,
{
}

/// Different sensors are reported by different messages.
pub proof fn lemma_sensor_messages_distinct(a: SensorType, b: SensorType)
    requires
        a != b,
    ensures
        Notice::Sensor(a).spec_text()@ != Notice::Sensor(b).spec_text()@,
{
    reveal_strlit("Puerta delantera abierta 🚪");
    reveal_strlit("Puerta trasera abierta 🚪");
    reveal_strlit("Movimiento detectado 🏃🏾‍♂️ Sector 1");
    reveal_strlit("Movimiento detectado 🏃🏾‍♂️ Sector 2");
    reveal_strlit("Movimiento detectado 🏃🏾‍♂️ Sector 3");
    let x = Notice::Sensor(a).spec_text()@;
    let y = Notice::Sensor(b).spec_text()@;
    if x.len() == y.len() {
        if x[7] == y[7] {
            assert(x[x.len() - 1] != y[y.len() - 1]);
        } else {
            assert(x[7] != y[7]);
        }
    }
}

/// Over any run from a fresh alarm, each sensor report that is acted upon
/// names the sensor that fired: the second effect of an armed sensor command
/// is that sensor's notice.
pub proof fn lemma_alert_names_the_sensor(commands: Seq<AlarmCommand>, sensor: SensorType)
    requires
        status_after(commands).armed,
    ensures
        command_effects(status_after(commands), AlarmCommand::SensorTriggered(sensor))[1]
            == Effect::Notify(Notice::Sensor(sensor)),
{
    lemma_reachable_states_wf(commands);
    lemma_sensor_table(status_after(commands), sensor);
}

/// The MQTT topics and payloads that drive the sirens, and where each camera
/// keeps its snapshot, written out.
pub proof fn lemma_output_names()
    ensures
        Siren::Interior.spec_topic()@ == "alarm/interior"@,
        Siren::Exterior.spec_topic()@ == "alarm/exterior"@,
        Switch::On.spec_payload()@ == "ON"@,
        Switch::Off.spec_payload()@ == "OFF"@,
        Camera::Cam0.spec_snapshot_path()@ == "/home/lucas/home-assistant/data/cam0/now.png"@,
        Camera::Cam1.spec_snapshot_path()@ == "/home/lucas/home-assistant/data/cam1/now.png"@,
{
}

} // verus!
