//! Verified core of a UK tax-benefit microsimulation engine.
pub mod overlay;
pub mod text;
pub mod entities;
pub mod sections;
pub mod linking;
pub mod deciles;
pub mod surveys;
pub mod calibration;
