//! The verified core of a dosage journal: unit labels, the canonical
//! magnitude of a dose, and the choice of the unit a dose is shown in.

pub mod binary64;
pub mod dosage;
pub mod ingestion;
pub mod unit;
