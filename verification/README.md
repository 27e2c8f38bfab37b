# esp32_sensors

Firmware pieces for a handful of ESP32 gadgets: a motion-triggered LED
strip, a PIR sensor lighting four LEDs, a four-digit seven-segment display
for temperature and humidity, an ultrasound parking helper with a buzzer,
an MQTT temperature reporter and a small web server.

The crate is in two parts.

- `src/` is the library, verified with Verus: digit splitting and the
  seven-segment patterns, the lighting sequence of the LED strip, the PIR
  debounce, note frequencies and song timing, the static LED colors, the
  MQTT status and telemetry payloads with the broker address parsing, and
  the decisions of the Wi-Fi connection loops. Each public function states
  what it returns in its contract; the properties that span several calls
  are public proof functions (`lemma_*`).
- `app/` is the firmware around it: peripherals, tasks, timers, the radio
  and the network. It performs the actions that the library's state
  machines ask for and hands back what happened.

`tests/` runs the library on concrete values.
