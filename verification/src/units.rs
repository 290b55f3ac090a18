//! The devices and the scheduling state they share.

pub mod button;
pub mod buzzer;
pub mod led;
pub mod name;
pub mod output;
pub mod pulse;
pub mod timeline;

pub use button::{Button, BUTTON_COUNT};
pub use buzzer::{Buzzer, BUZZER_COUNT};
pub use led::{Led, LED_COUNT};
pub use output::{no_values, std_blink, std_set, std_update, OutBase, Output};
pub use pulse::{Pace, Pulse, Slot};
