[package]
name = "led_actor"
version = "0.1.0"
edition = "2021"
publish = false

[dependencies]
smart-leds = "=0.4.0"
embassy-sync = "=0.7.2"
embassy-time = "=0.5.1"
embassy-futures = "=0.1.2"
embassy-executor = "=0.9.1"
ector = "=0.9.0"
thiserror = "=2.0.21"
log = "=0.4.35"
defmt = "=1.2.0"
heapless = "=0.9.3"
static_cell = "=2.1.1"
esp-hal = "=1.1.2"
esp-hal-smartled = "=0.16.0"
esp-radio = "=0.18.0"
esp-rtos = "=0.3.0"
esp-alloc = "=0.10.0"
esp-backtrace = "=0.20.0"
esp-println = "=0.18.0"
esp-bootloader-esp-idf = "=0.6.0"
bt-hci = "=0.10.1"
trouble-host = "=0.8.0"
rtt-target = "=0.6.2"
panic-rtt-target = "=0.2.0"
embassy-usb-synopsys-otg = "=0.4.0"
embassy-usb-host = "*"
