//! The columns of the trips table.
//!
//! Two descriptors live here, side by side. [`storage_schema`] lists every
//! column of the stored table. [`record_schema`] lists the columns that a
//! [`crate::NycTripsTable`] carries: the same columns, in the same order,
//! without the temporal ones. Each list is written out in full;
//! [`lemma_record_schema_is_storage_without_temporal`] ties them together, so
//! a change to one that forgets the other no longer verifies.

use vstd::prelude::*;

verus! {

/// The SQL type that a column is declared with.
#[derive(Clone, Copy, Debug, PartialEq, Eq, Structural)]
pub enum SqlType {
    Int,
    BigInt,
    DoublePrecision,
    Real,
    Text,
    Timestamp,
}

impl SqlType {
    /// The type's name as it is written in a table definition.
    pub open spec fn keyword_text(self) -> Seq<char> {
        match self {
            SqlType::Int => "INT"@,
            SqlType::BigInt => "BIGINT"@,
            SqlType::DoublePrecision => "DOUBLE PRECISION"@,
            SqlType::Real => "REAL"@,
            SqlType::Text => "TEXT"@,
            SqlType::Timestamp => "TIMESTAMP"@,
        }
    }

    /// The type's name as a table definition writes it.
    pub fn keyword(self) -> (s: &'static str)
        ensures
            s@ == self.keyword_text(),
    {
        match self {
            SqlType::Int => "INT",
            SqlType::BigInt => "BIGINT",
            SqlType::DoublePrecision => "DOUBLE PRECISION",
            SqlType::Real => "REAL",
            SqlType::Text => "TEXT",
            SqlType::Timestamp => "TIMESTAMP",
        }
    }
}

/// A column of the trips table.
#[derive(Clone, Copy, Debug, PartialEq, Eq, Structural)]
pub enum Column {
    VendorId,
    PickupDatetime,
    DropoffDatetime,
    PassengerCount,
    TripDistance,
    RatecodeId,
    StoreAndFwdFlag,
    PuLocationId,
    DoLocationId,
    PaymentType,
    FareAmount,
    Extra,
    MtaTax,
    TipAmount,
    TollsAmount,
    ImprovementSurcharge,
    TotalAmount,
}

impl Column {
    /// The name under which the column is stored and exchanged. Some names
    /// keep the capitals of the published data set, the others are lower
    /// case throughout; the table says which, column by column.
    pub open spec fn external_name_text(self) -> Seq<char> {
        match self {
            Column::VendorId => "VendorID"@,
            Column::PickupDatetime => "tpep_pickup_datetime"@,
            Column::DropoffDatetime => "tpep_dropoff_datetime"@,
            Column::PassengerCount => "passenger_count"@,
            Column::TripDistance => "trip_distance"@,
            Column::RatecodeId => "RatecodeID"@,
            Column::StoreAndFwdFlag => "store_and_fwd_flag"@,
            Column::PuLocationId => "PULocationID"@,
            Column::DoLocationId => "DOLocationID"@,
            Column::PaymentType => "payment_type"@,
            Column::FareAmount => "fare_amount"@,
            Column::Extra => "extra"@,
            Column::MtaTax => "mta_tax"@,
            Column::TipAmount => "tip_amount"@,
            Column::TollsAmount => "tolls_amount"@,
            Column::ImprovementSurcharge => "improvement_surcharge"@,
            Column::TotalAmount => "total_amount"@,
        }
    }

    /// The name under which the column is stored and exchanged.
    pub fn external_name(self) -> (s: &'static str)
        ensures
            s@ == self.external_name_text(),
    {
        match self {
            Column::VendorId => "VendorID",
            Column::PickupDatetime => "tpep_pickup_datetime",
            Column::DropoffDatetime => "tpep_dropoff_datetime",
            Column::PassengerCount => "passenger_count",
            Column::TripDistance => "trip_distance",
            Column::RatecodeId => "RatecodeID",
            Column::StoreAndFwdFlag => "store_and_fwd_flag",
            Column::PuLocationId => "PULocationID",
            Column::DoLocationId => "DOLocationID",
            Column::PaymentType => "payment_type",
            Column::FareAmount => "fare_amount",
            Column::Extra => "extra",
            Column::MtaTax => "mta_tax",
            Column::TipAmount => "tip_amount",
            Column::TollsAmount => "tolls_amount",
            Column::ImprovementSurcharge => "improvement_surcharge",
            Column::TotalAmount => "total_amount",
        }
    }

    /// The name of the record's field that holds the column, or `None` for a
    /// column that the record leaves out.
    pub open spec fn field_name_text(self) -> Option<Seq<char>> {
        match self {
            Column::VendorId => Some("vendor_id"@),
            Column::PickupDatetime => None,
            Column::DropoffDatetime => None,
            Column::PassengerCount => Some("passenger_count"@),
            Column::TripDistance => Some("trip_distance"@),
            Column::RatecodeId => Some("ratecode_id"@),
            Column::StoreAndFwdFlag => Some("store_and_fwd_flag"@),
            Column::PuLocationId => Some("pu_location_id"@),
            Column::DoLocationId => Some("do_location_id"@),
            Column::PaymentType => Some("payment_type"@),
            Column::FareAmount => Some("fare_amount"@),
            Column::Extra => Some("extra"@),
            Column::MtaTax => Some("mta_tax"@),
            Column::TipAmount => Some("tip_amount"@),
            Column::TollsAmount => Some("tolls_amount"@),
            Column::ImprovementSurcharge => Some("improvement_surcharge"@),
            Column::TotalAmount => Some("total_amount"@),
        }
    }

    /// The name of the record's field that holds the column, if one does.
    pub fn field_name(self) -> (name: Option<&'static str>)
        ensures
            name is Some <==> self.field_name_text() is Some,
            name is Some ==> name->0@ == self.field_name_text()->0,
            name is Some <==> !self.is_temporal(),
    {
        match self {
            Column::VendorId => Some("vendor_id"),
            Column::PickupDatetime => None,
            Column::DropoffDatetime => None,
            Column::PassengerCount => Some("passenger_count"),
            Column::TripDistance => Some("trip_distance"),
            Column::RatecodeId => Some("ratecode_id"),
            Column::StoreAndFwdFlag => Some("store_and_fwd_flag"),
            Column::PuLocationId => Some("pu_location_id"),
            Column::DoLocationId => Some("do_location_id"),
            Column::PaymentType => Some("payment_type"),
            Column::FareAmount => Some("fare_amount"),
            Column::Extra => Some("extra"),
            Column::MtaTax => Some("mta_tax"),
            Column::TipAmount => Some("tip_amount"),
            Column::TollsAmount => Some("tolls_amount"),
            Column::ImprovementSurcharge => Some("improvement_surcharge"),
            Column::TotalAmount => Some("total_amount"),
        }
    }

    /// The type that the column is declared with.
    pub open spec fn spec_sql_type(self) -> SqlType {
        match self {
            Column::VendorId => SqlType::Int,
            Column::PickupDatetime => SqlType::Timestamp,
            Column::DropoffDatetime => SqlType::Timestamp,
            Column::PassengerCount => SqlType::BigInt,
            Column::StoreAndFwdFlag => SqlType::Text,
            Column::PuLocationId => SqlType::Real,
            Column::DoLocationId => SqlType::Real,
            Column::TripDistance
            | Column::RatecodeId
            | Column::PaymentType
            | Column::FareAmount
            | Column::Extra
            | Column::MtaTax
            | Column::TipAmount
            | Column::TollsAmount
            | Column::ImprovementSurcharge
            | Column::TotalAmount => SqlType::DoublePrecision,
        }
    }

    /// The type that the column is declared with.
    #[verifier::when_used_as_spec(spec_sql_type)]
    pub fn sql_type(self) -> (t: SqlType)
        ensures
            t == self.spec_sql_type(),
    {
        match self {
            Column::VendorId => SqlType::Int,
            Column::PickupDatetime => SqlType::Timestamp,
            Column::DropoffDatetime => SqlType::Timestamp,
            Column::PassengerCount => SqlType::BigInt,
            Column::StoreAndFwdFlag => SqlType::Text,
            Column::PuLocationId => SqlType::Real,
            Column::DoLocationId => SqlType::Real,
            Column::TripDistance
            | Column::RatecodeId
            | Column::PaymentType
            | Column::FareAmount
            | Column::Extra
            | Column::MtaTax
            | Column::TipAmount
            | Column::TollsAmount
            | Column::ImprovementSurcharge
            | Column::TotalAmount => SqlType::DoublePrecision,
        }
    }

    /// Whether the column holds a point in time. Such a column is stored,
    /// but no record carries it.
    pub open spec fn spec_is_temporal(self) -> bool {
        self.spec_sql_type() == SqlType::Timestamp
    }

    /// Whether the column holds a point in time.
    #[verifier::when_used_as_spec(spec_is_temporal)]
    pub fn is_temporal(self) -> (b: bool)
        ensures
            b == self.spec_is_temporal(),
    {
        match self {
            Column::PickupDatetime | Column::DropoffDatetime => true,
            _ => false,
        }
    }

    /// Whether the external name holds capitals, so that a statement has to
    /// quote it wherever it names the column.
    pub open spec fn spec_is_case_sensitive(self) -> bool {
        self == Column::VendorId || self == Column::RatecodeId || self == Column::PuLocationId
            || self == Column::DoLocationId
    }

    /// Whether the external name holds capitals.
    #[verifier::when_used_as_spec(spec_is_case_sensitive)]
    pub fn is_case_sensitive(self) -> (b: bool)
        ensures
            b == self.spec_is_case_sensitive(),
    {
        match self {
            Column::VendorId | Column::RatecodeId | Column::PuLocationId | Column::DoLocationId => true,
            _ => false,
        }
    }
}

/// The stored table: every column, in the order of the table definition.
pub open spec fn storage_schema() -> Seq<Column> {
    seq![
        Column::VendorId,
        Column::PickupDatetime,
        Column::DropoffDatetime,
        Column::PassengerCount,
        Column::TripDistance,
        Column::RatecodeId,
        Column::StoreAndFwdFlag,
        Column::PuLocationId,
        Column::DoLocationId,
        Column::PaymentType,
        Column::FareAmount,
        Column::Extra,
        Column::MtaTax,
        Column::TipAmount,
        Column::TollsAmount,
        Column::ImprovementSurcharge,
        Column::TotalAmount,
    ]
}

/// The typed record: the columns that a record carries, in field order.
/// The two temporal columns are missing on purpose. To bring them back, add
/// them here and to the record; `storage_schema` already has them.
pub open spec fn record_schema() -> Seq<Column> {
    seq![
        Column::VendorId,
        Column::PassengerCount,
        Column::TripDistance,
        Column::RatecodeId,
        Column::StoreAndFwdFlag,
        Column::PuLocationId,
        Column::DoLocationId,
        Column::PaymentType,
        Column::FareAmount,
        Column::Extra,
        Column::MtaTax,
        Column::TipAmount,
        Column::TollsAmount,
        Column::ImprovementSurcharge,
        Column::TotalAmount,
    ]
}

/// The columns of `cols` that are not temporal, in their order.
pub open spec fn without_temporal(cols: Seq<Column>) -> Seq<Column> {
    cols.filter(|c: Column| !c.spec_is_temporal())
}

/// The columns of the stored table, in order.
pub fn storage_columns() -> (cols: Vec<Column>)
    ensures
        cols@ == storage_schema(),
{
    vec![
        Column::VendorId,
        Column::PickupDatetime,
        Column::DropoffDatetime,
        Column::PassengerCount,
        Column::TripDistance,
        Column::RatecodeId,
        Column::StoreAndFwdFlag,
        Column::PuLocationId,
        Column::DoLocationId,
        Column::PaymentType,
        Column::FareAmount,
        Column::Extra,
        Column::MtaTax,
        Column::TipAmount,
        Column::TollsAmount,
        Column::ImprovementSurcharge,
        Column::TotalAmount,
    ]
}

/// The columns of the typed record, in field order.
pub fn record_columns() -> (cols: Vec<Column>)
    ensures
        cols@ == record_schema(),
{
    vec![
        Column::VendorId,
        Column::PassengerCount,
        Column::TripDistance,
        Column::RatecodeId,
        Column::StoreAndFwdFlag,
        Column::PuLocationId,
        Column::DoLocationId,
        Column::PaymentType,
        Column::FareAmount,
        Column::Extra,
        Column::MtaTax,
        Column::TipAmount,
        Column::TollsAmount,
        Column::ImprovementSurcharge,
        Column::TotalAmount,
    ]
}

/// No two columns share an external name.
pub proof fn lemma_external_names_differ(a: Column, b: Column)
    requires
        a != b,
    ensures
        a.external_name_text() != b.external_name_text(),
{
    reveal_strlit("VendorID");
    reveal_strlit("tpep_pickup_datetime");
    reveal_strlit("tpep_dropoff_datetime");
    reveal_strlit("passenger_count");
    reveal_strlit("trip_distance");
    reveal_strlit("RatecodeID");
    reveal_strlit("store_and_fwd_flag");
    reveal_strlit("PULocationID");
    reveal_strlit("DOLocationID");
    reveal_strlit("payment_type");
    reveal_strlit("fare_amount");
    reveal_strlit("extra");
    reveal_strlit("mta_tax");
    reveal_strlit("tip_amount");
    reveal_strlit("tolls_amount");
    reveal_strlit("improvement_surcharge");
    reveal_strlit("total_amount");
    let x = a.external_name_text();
    let y = b.external_name_text();
    if x == y {
        assert(x.len() == y.len());
        assert(x[0] == y[0]);
        assert(x[1] == y[1]);
        assert(x[2] == y[2]);
        assert(x[5] == y[5]);
    }
}

/// The typed record holds exactly the stored columns that are not temporal,
/// in the order in which the table stores them.
pub proof fn lemma_record_schema_is_storage_without_temporal()
    ensures
        record_schema() == without_temporal(storage_schema()),
{
    reveal_with_fuel(Seq::filter, 18);
    assert(record_schema() =~= without_temporal(storage_schema()));
}

} // verus!
