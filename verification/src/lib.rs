//! Core logic of a vape counter: debouncing of buttons, detection of hits
//! from coil voltage samples, a time budget per period, the persistent totals
//! and the decisions of the main loop.

pub mod ring;
pub mod history;
pub mod samples;
pub mod buttons;
pub mod voltage;
pub mod eeprom;
pub mod device;
