//! Medication dosage bookkeeping: a fixed catalog of medicines, a per-day
//! dosage ledger and per-medicine cooldown timers.

pub mod clock;
pub mod collections;
pub mod medicine;

pub use clock::LocalDateTime;
pub use collections::{Action, Config, DoseDecision, MedicineConfig};
pub use medicine::{Medicine, MedicineTimer};
