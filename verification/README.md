# led_actor

The decision logic of an LED actor for an ESP32-S3 board, verified with Verus.

- `src/colour.rs`: the pixel sent to the LED for a colour at a brightness
  (gamma correction, then brightness reduction, both from `smart-leds`).
- `src/actor.rs`: the actor's state and what a message, a timer tick and a
  finished write do to it; each decision returns the pixel to write and the
  timer to arm.
- `src/inbox.rs`: the actor's inbox and the receipt of a post into it.
- `src/handle.rs`: the handle other tasks use to send messages to the
  actor's inbox, and the application's error type.
- `src/laws.rs`: properties over sequences of messages, ticks and writes.
- `app/`: the board program: hardware set-up, the actor task that performs
  the steps, and the USB host program of the second board.
