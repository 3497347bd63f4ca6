use vstd::prelude::*;

verus! {

pub const TOPIC_ALARM_STATUS: &'static str = "alarm/status";

pub const TOPIC_FRONT_DOOR: &'static str = "alarm/front_door";
pub const TOPIC_BACK_DOOR: &'static str = "alarm/back_door";

pub const TOPIC_MOVEMENT_SENSOR_1: &'static str = "alarm/movement_1";
pub const TOPIC_MOVEMENT_SENSOR_2: &'static str = "alarm/movement_2";
pub const TOPIC_MOVEMENT_SENSOR_3: &'static str = "alarm/movement_3";

pub const TOPIC_BELL: &'static str = "bell";

pub const TOPIC_ALARM_EXTERIOR: &'static str = "alarm/exterior";
pub const TOPIC_ALARM_INTERIOR: &'static str = "alarm/interior";

/// Payloads published on the siren topics.
pub const PAYLOAD_ON: &'static str = "ON";
pub const PAYLOAD_OFF: &'static str = "OFF";

pub const MQTT_SERVER_IP: &'static str = "192.168.100.2";
pub const MQTT_SERVER_PORT: u16 = 1883;

pub const TELEGRAM_MSG_BELL_ALERT: &'static str = "Timbreee 👏👏";
pub const TELEGRAM_MSG_INTRUDER_ALERT: &'static str = "🚨 ALERTA INTRUSO 🚨";
pub const TELEGRAM_MSG_FRONT_DOOR_ALERT: &'static str = "Puerta delantera abierta 🚪";
pub const TELEGRAM_MSG_BACK_DOOR_ALERT: &'static str = "Puerta trasera abierta 🚪";
pub const TELEGRAM_MSG_MOVEMENT_1_ALERT: &'static str = "Movimiento detectado 🏃🏾‍♂️ Sector 1";
pub const TELEGRAM_MSG_MOVEMENT_2_ALERT: &'static str = "Movimiento detectado 🏃🏾‍♂️ Sector 2";
pub const TELEGRAM_MSG_MOVEMENT_3_ALERT: &'static str = "Movimiento detectado 🏃🏾‍♂️ Sector 3";

/// How long the exterior siren sounds before the alarm resets itself, in seconds.
pub const ALARM_ACTIVE_DURATION: u64 = 60;
/// Exit delay between an arm request and the alarm being armed, in seconds.
pub const ARM_DELAY: u64 = 10;
/// Length of the confirmation beep of the interior siren, in milliseconds.
pub const BEEP_MILLIS: u64 = 100;

pub const CAM0_SNAPSHOT_PATH: &'static str = "/home/lucas/home-assistant/data/cam0/now.png";
pub const CAM1_SNAPSHOT_PATH: &'static str = "/home/lucas/home-assistant/data/cam1/now.png";

/// Telegram Bot API endpoint, followed by the bot token.
pub const TELEGRAM_API_BASE: &'static str = "https://api.telegram.org/bot";
pub const TELEGRAM_SEND_MESSAGE_METHOD: &'static str = "/sendMessage";
pub const TELEGRAM_SEND_PHOTO_METHOD: &'static str = "/sendPhoto";
pub const TELEGRAM_PHOTO_FILE_NAME: &'static str = "snapshot.png";
pub const TELEGRAM_PHOTO_MIME: &'static str = "image/png";
/// HTTP timeouts of the Telegram client, in seconds.
pub const TELEGRAM_CONNECT_TIMEOUT: u64 = 10;
pub const TELEGRAM_REQUEST_TIMEOUT: u64 = 30;

} // verus!
