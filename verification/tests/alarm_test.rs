use mqtt_broker_alarm::alarm::{
    AlarmActor, AlarmCommand, AlarmStatus, Camera, Effect, Notice, SensorType, Siren, Switch,
};
use mqtt_broker_alarm::constants::{ALARM_ACTIVE_DURATION, ARM_DELAY, BEEP_MILLIS};
use mqtt_broker_alarm::parse_on_off;

fn get_status(handle: &AlarmActor) -> AlarmStatus {
    handle.handle_call()
}

fn armed_alarm() -> AlarmActor {
    let mut handle = AlarmActor::new();
    handle.handle_cast(AlarmCommand::Arm);
    handle.handle_cast(AlarmCommand::ConfirmArm);
    handle
}

#[test]
fn test_initial_state() {
    let handle = AlarmActor::new();

    let status = get_status(&handle);
    assert!(!status.armed, "Should start disarmed");
    assert!(!status.activated, "Should start deactivated");
    assert!(!status.arming);
}

#[test]
fn test_arm() {
    let mut handle = AlarmActor::new();

    handle.handle_cast(AlarmCommand::Arm);

    let status = get_status(&handle);
    assert!(status.arming, "Should be arming during delay");
    assert!(!status.armed, "Should not be armed yet during delay");
    assert!(!status.activated, "Should not be activated");

    // Complete the arming by sending ConfirmArm (what the scheduled timer delivers)
    handle.handle_cast(AlarmCommand::ConfirmArm);

    let status = get_status(&handle);
    assert!(!status.arming, "Should not be arming after confirmation");
    assert!(status.armed, "Should be armed after ConfirmArm");
    assert!(!status.activated, "Should not be activated");
}

#[test]
fn test_deactivate_after_arm() {
    let mut handle = armed_alarm();

    handle.handle_cast(AlarmCommand::Deactivate);

    let status = get_status(&handle);
    assert!(!status.arming, "Should not be arming after Deactivate");
    assert!(!status.armed, "Should be disarmed after Deactivate");
    assert!(!status.activated, "Should not be activated");
}

#[test]
fn test_sensor_when_disarmed() {
    let mut handle = AlarmActor::new();

    let effects = handle.handle_cast(AlarmCommand::SensorTriggered(SensorType::FrontDoor));

    let status = get_status(&handle);
    assert!(!status.armed, "Should remain disarmed");
    assert!(!status.activated, "Should not activate when disarmed");
    assert!(effects.is_empty());
}

#[test]
fn test_sensor_when_armed() {
    let mut handle = armed_alarm();

    handle.handle_cast(AlarmCommand::SensorTriggered(SensorType::FrontDoor));

    let status = get_status(&handle);
    assert!(status.armed, "Should remain armed");
    assert!(status.activated, "Should be activated after sensor trigger");
}

#[test]
fn test_auto_deactivate() {
    let mut handle = armed_alarm();

    handle.handle_cast(AlarmCommand::SensorTriggered(SensorType::Movement1));

    // What the silencing timer delivers
    handle.handle_cast(AlarmCommand::AutoDeactivate);

    let status = get_status(&handle);
    assert!(!status.armed, "Should be disarmed after auto-deactivate");
    assert!(!status.activated, "Should be deactivated after auto-deactivate");
}

#[test]
fn test_multiple_sensors_single_activation() {
    let mut handle = armed_alarm();

    // First sensor triggers activation
    let first = handle.handle_cast(AlarmCommand::SensorTriggered(SensorType::FrontDoor));

    // Second sensor while already activated
    let second = handle.handle_cast(AlarmCommand::SensorTriggered(SensorType::BackDoor));

    let status = get_status(&handle);
    assert!(status.armed);
    assert!(status.activated);

    let timer = Effect::Schedule(ALARM_ACTIVE_DURATION, AlarmCommand::AutoDeactivate);
    assert!(first.contains(&timer));
    assert!(!second.contains(&timer));

    // Auto-deactivate still resets everything
    handle.handle_cast(AlarmCommand::AutoDeactivate);

    let status = get_status(&handle);
    assert!(!status.armed);
    assert!(!status.activated);
}

#[test]
fn test_deactivate_during_arming_delay() {
    let mut handle = AlarmActor::new();

    handle.handle_cast(AlarmCommand::Arm);

    let status = get_status(&handle);
    assert!(status.arming, "Should be arming");
    assert!(!status.armed, "Should not be armed yet");

    // Deactivate during arming delay should cancel arming
    handle.handle_cast(AlarmCommand::Deactivate);

    let status = get_status(&handle);
    assert!(!status.arming, "Should not be arming after deactivate");
    assert!(!status.armed, "Should not be armed after deactivate");

    // ConfirmArm should not arm after deactivate
    handle.handle_cast(AlarmCommand::ConfirmArm);

    let status = get_status(&handle);
    assert!(!status.arming, "Should still not be arming");
    assert!(!status.armed, "Should still not be armed");
}

#[test]
fn test_sensor_during_arming_delay() {
    let mut handle = AlarmActor::new();

    handle.handle_cast(AlarmCommand::Arm);

    let status = get_status(&handle);
    assert!(status.arming, "Should be arming");

    // Sensor triggered during arming delay should not activate
    let effects = handle.handle_cast(AlarmCommand::SensorTriggered(SensorType::FrontDoor));

    let status = get_status(&handle);
    assert!(status.arming, "Should still be arming");
    assert!(!status.armed, "Should not be armed yet");
    assert!(!status.activated, "Should not be activated during arming delay");
    assert!(effects.is_empty());
}

#[test]
fn test_parse_on_off() {
    assert!(parse_on_off(b"ON"));
    assert!(!parse_on_off(b"OFF"));
    assert!(!parse_on_off(b""));
    assert!(!parse_on_off(b"on"));
    assert!(!parse_on_off(b"garbage"));
}

#[test]
fn test_parse_on_off_rejects_prefixes_and_suffixes() {
    assert!(!parse_on_off(b"O"));
    assert!(!parse_on_off(b"ON "));
    assert!(!parse_on_off(b" ON"));
    assert!(!parse_on_off(b"ONN"));
}

#[test]
fn test_arm_effects_beep_then_schedule_confirmation() {
    let mut handle = AlarmActor::new();
    let effects = handle.handle_cast(AlarmCommand::Arm);
    assert_eq!(
        effects,
        vec![
            Effect::Publish(Siren::Interior, Switch::On),
            Effect::Pause(BEEP_MILLIS),
            Effect::Publish(Siren::Interior, Switch::Off),
            Effect::Schedule(ARM_DELAY, AlarmCommand::ConfirmArm),
        ]
    );
    assert_eq!(ARM_DELAY, 10);
    assert_eq!(BEEP_MILLIS, 100);
}

#[test]
fn test_arm_twice_is_arm_once() {
    let mut handle = AlarmActor::new();
    handle.handle_cast(AlarmCommand::Arm);
    let again = handle.handle_cast(AlarmCommand::Arm);
    assert!(again.is_empty());
    let status = get_status(&handle);
    assert!(status.arming && !status.armed);

    let mut armed = armed_alarm();
    let again = armed.handle_cast(AlarmCommand::Arm);
    assert!(again.is_empty());
    assert!(get_status(&armed).armed);
}

#[test]
fn test_confirm_arm_without_arm_is_ignored() {
    let mut handle = AlarmActor::new();
    let effects = handle.handle_cast(AlarmCommand::ConfirmArm);
    assert!(effects.is_empty());
    let status = get_status(&handle);
    assert!(!status.armed && !status.arming && !status.activated);
}

#[test]
fn test_sensor_when_armed_effects() {
    let mut handle = armed_alarm();
    let effects = handle.handle_cast(AlarmCommand::SensorTriggered(SensorType::Movement2));
    assert_eq!(
        effects,
        vec![
            Effect::Notify(Notice::IntruderAlert),
            Effect::Notify(Notice::Sensor(SensorType::Movement2)),
            Effect::Photo(Camera::Cam0),
            Effect::Photo(Camera::Cam1),
            Effect::Publish(Siren::Exterior, Switch::On),
            Effect::Schedule(ALARM_ACTIVE_DURATION, AlarmCommand::AutoDeactivate),
        ]
    );
    assert_eq!(ALARM_ACTIVE_DURATION, 60);

    let again = handle.handle_cast(AlarmCommand::SensorTriggered(SensorType::BackDoor));
    assert_eq!(
        again,
        vec![
            Effect::Notify(Notice::IntruderAlert),
            Effect::Notify(Notice::Sensor(SensorType::BackDoor)),
            Effect::Photo(Camera::Cam0),
            Effect::Photo(Camera::Cam1),
            Effect::Publish(Siren::Exterior, Switch::On),
        ]
    );
}

#[test]
fn test_deactivate_effects() {
    // Disarmed: both sirens off, no beep.
    let mut idle = AlarmActor::new();
    assert_eq!(
        idle.handle_cast(AlarmCommand::Deactivate),
        vec![
            Effect::Publish(Siren::Exterior, Switch::Off),
            Effect::Publish(Siren::Interior, Switch::Off),
        ]
    );

    // Armed and silent: sirens off, then a confirmation beep.
    let mut armed = armed_alarm();
    assert_eq!(
        armed.handle_cast(AlarmCommand::Deactivate),
        vec![
            Effect::Publish(Siren::Exterior, Switch::Off),
            Effect::Publish(Siren::Interior, Switch::Off),
            Effect::Publish(Siren::Interior, Switch::On),
            Effect::Pause(BEEP_MILLIS),
            Effect::Publish(Siren::Interior, Switch::Off),
        ]
    );

    // Sounding: sirens off, no beep.
    let mut sounding = armed_alarm();
    sounding.handle_cast(AlarmCommand::SensorTriggered(SensorType::FrontDoor));
    assert_eq!(
        sounding.handle_cast(AlarmCommand::Deactivate),
        vec![
            Effect::Publish(Siren::Exterior, Switch::Off),
            Effect::Publish(Siren::Interior, Switch::Off),
        ]
    );
    let status = get_status(&sounding);
    assert!(!status.armed && !status.activated && !status.arming);
}

#[test]
fn test_stale_auto_deactivate_is_ignored() {
    // Armed but not sounding: a late silencing timer changes nothing.
    let mut handle = armed_alarm();
    let effects = handle.handle_cast(AlarmCommand::AutoDeactivate);
    assert!(effects.is_empty());
    assert!(get_status(&handle).armed);

    // Sounding: the timer switches both sirens off.
    handle.handle_cast(AlarmCommand::SensorTriggered(SensorType::Movement3));
    assert_eq!(
        handle.handle_cast(AlarmCommand::AutoDeactivate),
        vec![
            Effect::Publish(Siren::Exterior, Switch::Off),
            Effect::Publish(Siren::Interior, Switch::Off),
        ]
    );
}

#[test]
fn test_every_reachable_state_is_consistent() {
    let commands = [
        AlarmCommand::SensorTriggered(SensorType::FrontDoor),
        AlarmCommand::Arm,
        AlarmCommand::SensorTriggered(SensorType::Movement1),
        AlarmCommand::ConfirmArm,
        AlarmCommand::SensorTriggered(SensorType::Movement1),
        AlarmCommand::Arm,
        AlarmCommand::ConfirmArm,
        AlarmCommand::AutoDeactivate,
        AlarmCommand::Arm,
        AlarmCommand::Deactivate,
        AlarmCommand::ConfirmArm,
    ];
    let mut handle = AlarmActor::new();
    for command in commands {
        handle.handle_cast(command);
        let s = get_status(&handle);
        assert!(!s.activated || s.armed);
        assert!(!(s.armed && s.arming));
    }
}
