[package]
name = "esp32_sensors"
version = "0.1.0"
edition = "2021"
publish = false

[dependencies]
heapless = "*"
libm = "*"
log = "*"
static_cell = "*"
critical-section = "*"
embassy-executor = "*"
embassy-net = { version = "*", features = ["dhcpv4", "proto-ipv4", "tcp", "udp", "medium-ethernet"] }
embassy-sync = "*"
embassy-time = "*"
embedded-hal-async = "*"
embedded-hal-bus = "*"
mountain-mqtt = "*"
mountain-mqtt-embassy = "*"
sht31 = "*"
blinksy = "*"
blinksy-esp = "*"
picoserve = { version = "*", features = ["embassy"] }
embedded-dht-rs = "*"
dht-sensor = "*"
esp-hal = { version = "*", features = ["esp32", "unstable"] }
esp-println = { version = "*", features = ["esp32", "log-04"] }
esp-backtrace = { version = "*", features = ["esp32", "panic-handler", "println"] }
esp-bootloader-esp-idf = { version = "*", features = ["esp32"] }
esp-rtos = { version = "*", features = ["esp32", "embassy", "esp-radio"] }
esp-radio = { version = "*", features = ["esp32", "wifi"] }
esp-alloc = "*"
