# mqtt_broker_alarm

A home alarm driven by MQTT sensors, with Telegram alerts.

- `src/` is the verified library: the alarm's state machine (`alarm`), which
  turns each command into a new state and an ordered list of effects
  (siren publishes, pauses, Telegram messages and photos, timers), the
  routing of incoming MQTT messages (`route`), the Telegram endpoint URLs
  (`telegram`) and the shared constants.
- `app/` is the daemon: it connects to the broker, runs the state machine as
  a GenServer and carries out the effects it returns.
