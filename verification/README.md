# blackbox_rs

Board logic of the Blackbox board (STM32H743XI), verified with Verus.

- `src/` is the verified library: the named buttons and encoders, the LED and
  button banks, the display's double buffer, backlight cap and pixel layout,
  the GT9147 touch controller's bring-up and polling protocols (as state
  machines), the CS42528 codec bring-up, the clock tree, the MPU register
  values and the SDRAM parameters, delay and pattern test. Each function has
  a contract, and the properties that span functions are proved as lemmas.
- `app/` performs the hardware work with embassy-stm32: board bring-up, the
  register, bus and memory accesses the library's state machines call for,
  and the `embedded-graphics` and `embedded-hal` trait impls.
- `tests/` runs the library on concrete values.
