# vgrs

Firmware logic of a small vape counter on an STM32L072: it watches the
heating coil's voltage, counts and times each hit, allows only so much
hitting time per period (cutting the coil off once that is used up), shows
the state on an SSD1306 display that sleeps when idle, and keeps the all-time
totals in the data EEPROM.

- `src/` is the verified library (Verus):
  - `ring.rs`: counts over sequences and fixed-size ring windows, with the
    proof that a full round of writes leaves the window holding exactly the
    samples written;
  - `history.rs`, `samples.rs`: the `bitvec` bit arrays and the `heapless`
    vector, behind wrappers whose contracts state what each call does;
  - `buttons.rs`: debouncing of the three buttons;
  - `voltage.rs`: hit detection and the per-period time budget;
  - `eeprom.rs`: where the totals are stored and how a word is split into
    half-words and put together again;
  - `device.rs`: the decisions of the main loop, one step at a time.
- `app/main.rs` brings up the hardware and runs the loop, performing the
  actions that `device.rs` decides; the display text, which uses floating
  point, is formatted there.
- `tests/` runs the library on concrete inputs.
