# rmk_boot

Decision logic of a small bootloader for nRF52840/nRF52833 and RP2040
keyboards, written in Verus and proved against its contracts.

- `src/` — the verified library:
  - `led_pwm`: the breathing-LED driver state (SysTick counter, period,
    attached PWM) and the duty cycle of the breathing wave;
  - `boot_state`: interpretation of the state word through `embassy_boot`;
  - `swap_progress`: the swap progress recorded in the state partition;
  - `boot_flow`: what the bootloader announces before and after preparing
    the boot;
  - `double_tap`: entering USB DFU mode on two resets by the reset pin;
  - `indication`: LED blink codes (heartbeat, swap, revert, SOS);
  - `dfu`: breathing inside the DFU poll loop and the USB identity;
  - `layout`, `variant`: the flash partition layout of each build target,
    the linker-script values and release names;
  - `diag`: decoding of diagnostic words.
- `tests/` — tests of the library on concrete values.
- `app/` — the firmware around the library: peripherals, flash, USB,
  the jump into the application and the text of the linker scripts.
