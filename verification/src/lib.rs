//! A typed model of the ClimaCell weather API's wire format.
//!
//! The library deserializes the upstream JSON documents into immutable
//! measurement records, classifies compass bearings into octants, bands
//! temperatures and dewpoints into display severity tiers, and renders
//! measurements as fixed-precision strings.
//!
//! All numeric wire values are held in fixed point, as signed counts of
//! millionths of a unit, so that every rule about them is exact.

pub mod banding;
pub mod codes;
pub mod compass;
pub mod conditions;
pub mod errors;
pub mod fixed;
pub mod forecast;
pub mod json;
pub mod measurements;
pub mod strutil;
pub mod time;
pub mod units;
