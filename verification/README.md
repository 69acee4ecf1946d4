# xpt2046_async

A verified driver core for the XPT2046 touch controller.

* `src/` is the core, verified with Verus: decoding measurements, the course of
  a touch, initialisation, and manual calibration. It does no input or output.
  `init`, `run` and `calibrate` are step functions from an event to the next
  action. `src/laws` states what holds of these operations as a whole.
* `app/` carries the actions out with the `embedded-hal` traits, and does the
  floating-point arithmetic that turns a raw measurement into a point on the
  screen.
* `tests/` runs the core.
