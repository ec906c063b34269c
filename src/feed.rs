use vstd::prelude::*;

verus! {

/// One answer of the appointment feed for a district and a date.
#[derive(Clone, Debug, Default, PartialEq)]
pub struct Root {
    pub centers: Vec<Center>,
}

/// A vaccination center and the sessions it offers.
#[derive(Clone, Debug, Default, PartialEq)]
pub struct Center {
    pub center_id: u64,
    pub name: String,
    pub address: String,
    pub state_name: String,
    pub district_name: String,
    pub block_name: String,
    pub pincode: u64,
    pub lat: i64,
    pub long: i64,
    pub from: String,
    pub to: String,
    pub fee_type: String,
    pub sessions: Vec<Session>,
    /// Only some answers carry the fee list.
    pub vaccine_fees: Option<Vec<VaccineFee>>,
}

/// One day of appointments at a center.
///
/// `available_capacity` is a whole number of doses: the feed may report a
/// fractional count, which is rounded to the nearest whole unit (halves away
/// from zero) when the answer is read, before any decision is made on it.
#[derive(Clone, Debug, Default, PartialEq)]
pub struct Session {
    pub session_id: String,
    pub date: String,
    pub available_capacity: u64,
    pub min_age_limit: u64,
    pub vaccine: String,
    pub slots: Vec<String>,
    /// Present only in some revisions of the feed.
    pub available_capacity_dose1: Option<i64>,
    /// Present only in some revisions of the feed.
    pub available_capacity_dose2: Option<i64>,
}

/// The fee a paid center charges for one vaccine.
#[derive(Clone, Debug, Default, PartialEq)]
pub struct VaccineFee {
    pub vaccine: String,
    pub fee: String,
}

} // verus!
