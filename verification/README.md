# rotary_library

A driver for quadrature rotary encoders with an integrated push-button, and for push-buttons on
their own. The logic is written and verified in Verus; it holds no pins and does no I/O.

The driver separates pin sampling from event decoding:

| Method   | Calling context           | Frequency | What it does                                   |
|----------|---------------------------|-----------|------------------------------------------------|
| `update` | Timer ISR (hardware task) | ~1–2 ms   | Takes pin readings, runs debounce, accumulates |
| `poll`   | UI task / main loop       | ~10 ms    | Turns what was accumulated into an `InputEvent`|

`update` must be called faster than `poll`. Choose a refresh time of at least 2: the debounce
filter falls by half of it per released sample, so that at 0 or 1 a release is never recognised.

## Layout

- `src/types.rs`: events, states and the `InputSource` trait
- `src/behaviour.rs`: the `ButtonBehaviour` trait and the four kinds of button
- `src/button.rs`: `Button`, its model `ButtonView` and its contracts
- `src/button_laws.rs`: what holds of a button over runs of samples
- `src/encoder.rs`: `RotaryEncoder`, its model `EncoderView` and its contracts
- `src/encoder_laws.rs`: what holds of an encoder over runs of samples and polls
- `tests/`: tests of the compiled library
- `app/`: drivers that own their `embedded-hal` pins and hand the readings to the library
