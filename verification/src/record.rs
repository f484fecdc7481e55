//! One trip, as a record.

use vstd::prelude::*;
use crate::ieee::{Binary32, Binary64};

verus! {

/// One row of the trips table. Every field may be absent, and an absent
/// field is `None`: no field stands in for absence with a zero or an empty
/// text. The two temporal columns of the stored table have no field here.
#[derive(Debug, PartialEq)]
pub struct NycTripsTable {
    pub vendor_id: Option<i32>,
    pub passenger_count: Option<i64>,
    pub trip_distance: Option<Binary64>,
    pub ratecode_id: Option<Binary64>,
    pub store_and_fwd_flag: Option<String>,
    pub pu_location_id: Option<Binary32>,
    pub do_location_id: Option<Binary32>,
    pub payment_type: Option<Binary64>,
    pub fare_amount: Option<Binary64>,
    pub extra: Option<Binary64>,
    pub mta_tax: Option<Binary64>,
    pub tip_amount: Option<Binary64>,
    pub tolls_amount: Option<Binary64>,
    pub improvement_surcharge: Option<Binary64>,
    pub total_amount: Option<Binary64>,
}

/// What a record holds: its fields, the text by its characters.
pub struct TripRecord {
    pub vendor_id: Option<i32>,
    pub passenger_count: Option<i64>,
    pub trip_distance: Option<Binary64>,
    pub ratecode_id: Option<Binary64>,
    pub store_and_fwd_flag: Option<Seq<char>>,
    pub pu_location_id: Option<Binary32>,
    pub do_location_id: Option<Binary32>,
    pub payment_type: Option<Binary64>,
    pub fare_amount: Option<Binary64>,
    pub extra: Option<Binary64>,
    pub mta_tax: Option<Binary64>,
    pub tip_amount: Option<Binary64>,
    pub tolls_amount: Option<Binary64>,
    pub improvement_surcharge: Option<Binary64>,
    pub total_amount: Option<Binary64>,
}

impl TripRecord {
    /// The record in which every field is absent.
    pub open spec fn absent() -> TripRecord {
        TripRecord {
            vendor_id: None,
            passenger_count: None,
            trip_distance: None,
            ratecode_id: None,
            store_and_fwd_flag: None,
            pu_location_id: None,
            do_location_id: None,
            payment_type: None,
            fare_amount: None,
            extra: None,
            mta_tax: None,
            tip_amount: None,
            tolls_amount: None,
            improvement_surcharge: None,
            total_amount: None,
        }
    }
}

impl View for NycTripsTable {
    type V = TripRecord;

    open spec fn view(&self) -> TripRecord {
        TripRecord {
            vendor_id: self.vendor_id,
            passenger_count: self.passenger_count,
            trip_distance: self.trip_distance,
            ratecode_id: self.ratecode_id,
            store_and_fwd_flag: match self.store_and_fwd_flag {
                Some(flag) => Some(flag@),
                None => None,
            },
            pu_location_id: self.pu_location_id,
            do_location_id: self.do_location_id,
            payment_type: self.payment_type,
            fare_amount: self.fare_amount,
            extra: self.extra,
            mta_tax: self.mta_tax,
            tip_amount: self.tip_amount,
            tolls_amount: self.tolls_amount,
            improvement_surcharge: self.improvement_surcharge,
            total_amount: self.total_amount,
        }
    }
}

impl Default for NycTripsTable {
    /// The record in which every field is absent.
    fn default() -> (record: NycTripsTable)
        ensures
            record@ == TripRecord::absent(),
    {
        NycTripsTable {
            vendor_id: None,
            passenger_count: None,
            trip_distance: None,
            ratecode_id: None,
            store_and_fwd_flag: None,
            pu_location_id: None,
            do_location_id: None,
            payment_type: None,
            fare_amount: None,
            extra: None,
            mta_tax: None,
            tip_amount: None,
            tolls_amount: None,
            improvement_surcharge: None,
            total_amount: None,
        }
    }
}

} // verus!
