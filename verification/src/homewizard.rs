//! What a poll of the device yields: either one parsed reading, or a
//! failure sorted into the taxonomy the poller's logging relies on.
//!
//! The HTTP request itself and the JSON decoding run outside the library;
//! they deliver plain values here. Numeric measurements are carried as
//! fixed-point thousandths of the device's unit, so a reported total of
//! 1234.567 cubic meters arrives as 1_234_567.

use vstd::prelude::*;

use crate::textfmt::dec_rep;
use crate::textfmt::u64_to_string;

verus! {

/// One parsed measurement set from the device. Immutable once built;
/// produced once per successful fetch.
#[derive(Debug, Clone)]
pub struct Reading {
    /// Network identifier the device is joined to.
    pub wifi_ssid: String,
    /// Signal strength in thousandths of a percent.
    pub wifi_strength_milli: i64,
    /// Cumulative consumption in thousandths of a cubic meter.
    pub total_liter_m3_milli: i64,
    /// Instantaneous rate in thousandths of a liter per minute.
    pub active_liter_lpm_milli: i64,
    /// Calibration offset in thousandths of a cubic meter.
    pub total_liter_offset_m3_milli: i64,
}

/// Mathematical image of a `Reading`.
pub struct ReadingView {
    pub wifi_ssid: Seq<char>,
    pub wifi_strength_milli: int,
    pub total_liter_m3_milli: int,
    pub active_liter_lpm_milli: int,
    pub total_liter_offset_m3_milli: int,
}

impl View for Reading {
    type V = ReadingView;

    open spec fn view(&self) -> ReadingView {
        ReadingView {
            wifi_ssid: self.wifi_ssid@,
            wifi_strength_milli: self.wifi_strength_milli as int,
            total_liter_m3_milli: self.total_liter_m3_milli as int,
            active_liter_lpm_milli: self.active_liter_lpm_milli as int,
            total_liter_offset_m3_milli: self.total_liter_offset_m3_milli as int,
        }
    }
}

/// Why a fetch failed. The two variants are the poller's whole failure
/// taxonomy: transport trouble (no connection, timeout, unreadable body)
/// and an answer whose status code is outside the success range.
#[derive(Debug)]
pub enum HomeWizardError {
    /// The request did not complete, or its body could not be decoded.
    RequestFailed(String),
    /// The device answered with a non-success HTTP status.
    ParseError(String),
}

impl HomeWizardError {
    /// The human-readable description carried into the logs.
    pub fn message(&self) -> (r: String)
        ensures
            self matches HomeWizardError::RequestFailed(d) ==> r@ == "HTTP request failed: "@
                + d@,
            self matches HomeWizardError::ParseError(d) ==> r@ == "Failed to parse response: "@
                + d@,
    {
        match self {
            HomeWizardError::RequestFailed(d) => {
                let mut r = "HTTP request failed: ".to_owned();
                r.append(d.as_str());
                r
            },
            HomeWizardError::ParseError(d) => {
                let mut r = "Failed to parse response: ".to_owned();
                r.append(d.as_str());
                r
            },
        }
    }

    /// True of the transport-failure class of errors.
    pub fn is_transport(&self) -> (r: bool)
        ensures
            r == (self matches HomeWizardError::RequestFailed(_)),
    {
        match self {
            HomeWizardError::RequestFailed(_) => true,
            HomeWizardError::ParseError(_) => false,
        }
    }
}

/// Decides whether a status code from the device counts as an answer:
/// any code in the success range is accepted, any other is a response
/// failure carrying the code, exactly as the fetch path classifies it.
pub fn check_status(status: u16) -> (r: Result<(), HomeWizardError>)
    ensures
        r.is_ok() <==> 200 <= status < 300,
        r matches Err(e) ==> e matches HomeWizardError::ParseError(d) && d@ == "HTTP status: "@
            + dec_rep(status as nat),
{
    if 200 <= status && status < 300 {
        Ok(())
    } else {
        let mut d = "HTTP status: ".to_owned();
        d.append(u64_to_string(status as u64).as_str());
        Err(HomeWizardError::ParseError(d))
    }
}

} // verus!
