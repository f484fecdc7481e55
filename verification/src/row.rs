//! Rows as a source hands them over, and what a record is decoded from.
//!
//! A row is a list of named cells. A relational source and a columnar one
//! both give such rows; they differ in how they hold a value, not in the
//! names. Decoding looks each column of the typed record up by its external
//! name and takes the first cell of that name. A column that the row lacks
//! and a cell that holds no value are the same: the field is absent.

use vstd::prelude::*;
use crate::ieee::{binary32_of_int, binary64_of_int, Binary32, Binary64};
use crate::record::{NycTripsTable, TripRecord};
use crate::schema::{lemma_external_names_differ, record_columns, record_schema, Column, SqlType};

verus! {

/// What one cell of a row holds.
#[derive(Debug, PartialEq)]
pub enum Value {
    /// No value.
    Null,
    /// An integer, from a column of any integer type.
    Int(i64),
    /// A single-precision number.
    Real(Binary32),
    /// A double-precision number.
    Double(Binary64),
    /// A text.
    Text(String),
}

/// What a value holds, a text by its characters.
pub enum ValueView {
    Null,
    Int(i64),
    Real(Binary32),
    Double(Binary64),
    Text(Seq<char>),
}

impl View for Value {
    type V = ValueView;

    open spec fn view(&self) -> ValueView {
        match self {
            Value::Null => ValueView::Null,
            Value::Int(i) => ValueView::Int(*i),
            Value::Real(x) => ValueView::Real(*x),
            Value::Double(x) => ValueView::Double(*x),
            Value::Text(s) => ValueView::Text(s@),
        }
    }
}

/// One cell of a row: the name of its column and its value.
#[derive(Debug, PartialEq)]
pub struct Cell {
    pub column: String,
    pub value: Value,
}

pub struct CellView {
    pub column: Seq<char>,
    pub value: ValueView,
}

impl View for Cell {
    type V = CellView;

    open spec fn view(&self) -> CellView {
        CellView { column: self.column@, value: self.value@ }
    }
}

/// A row: its cells, in the order of the source.
#[derive(Debug, PartialEq)]
pub struct Row {
    pub cells: Vec<Cell>,
}

impl View for Row {
    type V = Seq<CellView>;

    open spec fn view(&self) -> Seq<CellView> {
        Seq::new(self.cells@.len(), |i: int| self.cells@[i]@)
    }
}

/// Why a row could not be decoded: the first column of the typed record, in
/// field order, whose value cannot be taken as the column's type.
#[derive(Clone, Copy, Debug, PartialEq, Eq, Structural)]
pub struct DecodeError {
    pub column: Column,
}

/// The value of the first cell of `row` that is named `name`, and `Null`
/// where the row has no such cell.
pub open spec fn value_of(row: Seq<CellView>, name: Seq<char>) -> ValueView
    decreases row.len(),
{
    if row.len() == 0 {
        ValueView::Null
    } else if row[0].column == name {
        row[0].value
    } else {
        value_of(row.drop_first(), name)
    }
}

/// What `row` holds for column `c`.
pub open spec fn cell_value(row: Seq<CellView>, c: Column) -> ValueView {
    value_of(row, c.external_name_text())
}

/// Whether `v` can be taken as a value of a column of type `t`. No value
/// can always be taken. A number or a text must be of the column's type,
/// except that an integer is taken for a column of either floating-point
/// type, and for a column of the narrower integer type where it fits.
pub open spec fn coerces(v: ValueView, t: SqlType) -> bool {
    match v {
        ValueView::Null => true,
        ValueView::Int(i) => match t {
            SqlType::Int => i32::MIN <= i <= i32::MAX,
            SqlType::BigInt => true,
            SqlType::Real => true,
            SqlType::DoublePrecision => true,
            _ => false,
        },
        ValueView::Real(_) => t == SqlType::Real,
        ValueView::Double(_) => t == SqlType::DoublePrecision,
        ValueView::Text(_) => t == SqlType::Text,
    }
}

/// `v` as a field of the narrower integer type.
pub open spec fn int_in(v: ValueView) -> Option<i32> {
    match v {
        ValueView::Int(i) => Some(i as i32),
        _ => None,
    }
}

/// `v` as a field of the wider integer type.
pub open spec fn bigint_in(v: ValueView) -> Option<i64> {
    match v {
        ValueView::Int(i) => Some(i),
        _ => None,
    }
}

/// `v` as a single-precision field: the number itself, or the number
/// nearest to an integer.
pub open spec fn real_in(v: ValueView) -> Option<Binary32> {
    match v {
        ValueView::Real(x) => Some(x),
        ValueView::Int(i) => Some(binary32_of_int(i as int)),
        _ => None,
    }
}

/// `v` as a double-precision field: the number itself, or the number
/// nearest to an integer.
pub open spec fn double_in(v: ValueView) -> Option<Binary64> {
    match v {
        ValueView::Double(x) => Some(x),
        ValueView::Int(i) => Some(binary64_of_int(i as int)),
        _ => None,
    }
}

/// `v` as a text field.
pub open spec fn text_in(v: ValueView) -> Option<Seq<char>> {
    match v {
        ValueView::Text(s) => Some(s),
        _ => None,
    }
}

/// Whether what `row` holds for column `c` can be taken as its type.
pub open spec fn fits(row: Seq<CellView>, c: Column) -> bool {
    coerces(cell_value(row, c), c.spec_sql_type())
}

/// The first of the first `n` columns of the typed record whose value in
/// `row` does not fit, if there is one.
pub open spec fn first_misfit(row: Seq<CellView>, n: int) -> Option<Column>
    decreases n,
{
    if n <= 0 {
        None
    } else {
        match first_misfit(row, n - 1) {
            Some(c) => Some(c),
            None => if fits(row, record_schema()[n - 1]) {
                None
            } else {
                Some(record_schema()[n - 1])
            },
        }
    }
}

/// The record that `row` holds, each field taken from the column of its
/// external name, whether the value fits or not.
pub open spec fn fields_of(row: Seq<CellView>) -> TripRecord {
    TripRecord {
        vendor_id: int_in(cell_value(row, Column::VendorId)),
        passenger_count: bigint_in(cell_value(row, Column::PassengerCount)),
        trip_distance: double_in(cell_value(row, Column::TripDistance)),
        ratecode_id: double_in(cell_value(row, Column::RatecodeId)),
        store_and_fwd_flag: text_in(cell_value(row, Column::StoreAndFwdFlag)),
        pu_location_id: real_in(cell_value(row, Column::PuLocationId)),
        do_location_id: real_in(cell_value(row, Column::DoLocationId)),
        payment_type: double_in(cell_value(row, Column::PaymentType)),
        fare_amount: double_in(cell_value(row, Column::FareAmount)),
        extra: double_in(cell_value(row, Column::Extra)),
        mta_tax: double_in(cell_value(row, Column::MtaTax)),
        tip_amount: double_in(cell_value(row, Column::TipAmount)),
        tolls_amount: double_in(cell_value(row, Column::TollsAmount)),
        improvement_surcharge: double_in(cell_value(row, Column::ImprovementSurcharge)),
        total_amount: double_in(cell_value(row, Column::TotalAmount)),
    }
}

/// What decoding `row` gives: the record that it holds where every column
/// of the typed record fits, and else the first column that does not.
pub open spec fn decoded(row: Seq<CellView>) -> Result<TripRecord, DecodeError> {
    match first_misfit(row, record_schema().len() as int) {
        Some(c) => Err(DecodeError { column: c }),
        None => Ok(fields_of(row)),
    }
}

/// No value for an absent field, and else the value that holds it.
pub open spec fn int_value(field: Option<i32>) -> ValueView {
    match field {
        Some(i) => ValueView::Int(i as i64),
        None => ValueView::Null,
    }
}

pub open spec fn bigint_value(field: Option<i64>) -> ValueView {
    match field {
        Some(i) => ValueView::Int(i),
        None => ValueView::Null,
    }
}

pub open spec fn real_value(field: Option<Binary32>) -> ValueView {
    match field {
        Some(x) => ValueView::Real(x),
        None => ValueView::Null,
    }
}

pub open spec fn double_value(field: Option<Binary64>) -> ValueView {
    match field {
        Some(x) => ValueView::Double(x),
        None => ValueView::Null,
    }
}

pub open spec fn text_value(field: Option<Seq<char>>) -> ValueView {
    match field {
        Some(s) => ValueView::Text(s),
        None => ValueView::Null,
    }
}

/// The value that `record` gives to column `c`: that of the field which
/// holds the column, and no value for a column without a field.
pub open spec fn field_value(record: TripRecord, c: Column) -> ValueView {
    match c {
        Column::VendorId => int_value(record.vendor_id),
        Column::PickupDatetime => ValueView::Null,
        Column::DropoffDatetime => ValueView::Null,
        Column::PassengerCount => bigint_value(record.passenger_count),
        Column::TripDistance => double_value(record.trip_distance),
        Column::RatecodeId => double_value(record.ratecode_id),
        Column::StoreAndFwdFlag => text_value(record.store_and_fwd_flag),
        Column::PuLocationId => real_value(record.pu_location_id),
        Column::DoLocationId => real_value(record.do_location_id),
        Column::PaymentType => double_value(record.payment_type),
        Column::FareAmount => double_value(record.fare_amount),
        Column::Extra => double_value(record.extra),
        Column::MtaTax => double_value(record.mta_tax),
        Column::TipAmount => double_value(record.tip_amount),
        Column::TollsAmount => double_value(record.tolls_amount),
        Column::ImprovementSurcharge => double_value(record.improvement_surcharge),
        Column::TotalAmount => double_value(record.total_amount),
    }
}

/// The cell that `record` gives to column `c`, under the external name.
pub open spec fn field_cell(record: TripRecord, c: Column) -> CellView {
    CellView { column: c.external_name_text(), value: field_value(record, c) }
}

/// The row that encodes `record`: one cell for each column of the typed
/// record, in field order, absent fields as cells without a value.
pub open spec fn encoded(record: TripRecord) -> Seq<CellView> {
    Seq::new(record_schema().len(), |i: int| field_cell(record, record_schema()[i]))
}

/// The result of a decoding, the record by what it holds.
pub open spec fn decoding_view(result: Result<NycTripsTable, DecodeError>) -> Result<
    TripRecord,
    DecodeError,
> {
    match result {
        Ok(record) => Ok(record@),
        Err(e) => Err(e),
    }
}

/// Where the first cell named `name` stands at `i`, the row's value for
/// `name` is that cell's.
pub proof fn lemma_value_of_first(row: Seq<CellView>, name: Seq<char>, i: int)
    requires
        0 <= i < row.len(),
        row[i].column == name,
        forall|k: int| 0 <= k < i ==> row[k].column != name,
    ensures
        value_of(row, name) == row[i].value,
    decreases i,
{
    if i > 0 {
        let rest = row.drop_first();
        assert(rest[i - 1] == row[i]);
        assert forall|k: int| 0 <= k < i - 1 implies rest[k].column != name by {
            assert(rest[k] == row[k + 1]);
        }
        lemma_value_of_first(rest, name, i - 1);
    }
}

/// Where no cell is named `name`, the row's value for `name` is `Null`.
pub proof fn lemma_value_of_missing(row: Seq<CellView>, name: Seq<char>)
    requires
        forall|k: int| 0 <= k < row.len() ==> row[k].column != name,
    ensures
        value_of(row, name) == ValueView::Null,
    decreases row.len(),
{
    if row.len() > 0 {
        let rest = row.drop_first();
        assert forall|k: int| 0 <= k < rest.len() implies rest[k].column != name by {
            assert(rest[k] == row[k + 1]);
        }
        lemma_value_of_missing(rest, name);
    }
}

impl Row {
    /// A row without cells.
    pub fn new() -> (row: Row)
        ensures
            row@ == Seq::<CellView>::empty(),
    {
        let row = Row { cells: Vec::new() };
        assert(row@ =~= Seq::<CellView>::empty());
        row
    }

    /// Adds a cell at the end.
    pub fn push(&mut self, column: &str, value: Value)
        ensures
            final(self)@ == old(self)@.push(CellView { column: column@, value: value@ }),
    {
        self.cells.push(Cell { column: String::from_str(column), value });
        assert(self@ =~= old(self)@.push(CellView { column: column@, value: value@ }));
    }

    /// The value of the first cell named `name`, or `None` where the row has
    /// no such cell.
    pub fn value(&self, name: &str) -> (found: Option<&Value>)
        ensures
            match found {
                Some(v) => v@ == value_of(self@, name@) && exists|k: int|
                    0 <= k < self@.len() && #[trigger] self@[k].column == name@,
                None => value_of(self@, name@) == ValueView::Null && forall|k: int|
                    0 <= k < self@.len() ==> #[trigger] self@[k].column != name@,
            },
    {
        let key = String::from_str(name);
        let n = self.cells.len();
        let mut i: usize = 0;
        while i < n
            invariant
                i <= n,
                n == self.cells.len(),
                key@ == name@,
                forall|k: int| 0 <= k < i ==> #[trigger] self@[k].column != name@,
            decreases n - i,
        {
            if self.cells[i].column.eq(&key) {
                proof {
                    assert(self@[i as int].column == name@);
                    lemma_value_of_first(self@, name@, i as int);
                }
                return Some(&self.cells[i].value);
            }
            i = i + 1;
        }
        proof {
            lemma_value_of_missing(self@, name@);
        }
        None
    }
}

fn read_int(row: &Row, c: Column) -> (r: Result<Option<i32>, DecodeError>)
    ensures
        coerces(cell_value(row@, c), SqlType::Int) ==> r == Ok::<Option<i32>, DecodeError>(
            int_in(cell_value(row@, c)),
        ),
        !coerces(cell_value(row@, c), SqlType::Int) ==> r == Err::<Option<i32>, DecodeError>(
            DecodeError { column: c },
        ),
{
    match row.value(c.external_name()) {
        None => Ok(None),
        Some(v) => match v {
            Value::Null => Ok(None),
            Value::Int(i) => {
                if -0x8000_0000 <= *i && *i <= 0x7fff_ffff {
                    Ok(Some(*i as i32))
                } else {
                    Err(DecodeError { column: c })
                }
            },
            _ => Err(DecodeError { column: c }),
        },
    }
}

fn read_bigint(row: &Row, c: Column) -> (r: Result<Option<i64>, DecodeError>)
    ensures
        coerces(cell_value(row@, c), SqlType::BigInt) ==> r == Ok::<Option<i64>, DecodeError>(
            bigint_in(cell_value(row@, c)),
        ),
        !coerces(cell_value(row@, c), SqlType::BigInt) ==> r == Err::<Option<i64>, DecodeError>(
            DecodeError { column: c },
        ),
{
    match row.value(c.external_name()) {
        None => Ok(None),
        Some(v) => match v {
            Value::Null => Ok(None),
            Value::Int(i) => Ok(Some(*i)),
            _ => Err(DecodeError { column: c }),
        },
    }
}

fn read_real(row: &Row, c: Column) -> (r: Result<Option<Binary32>, DecodeError>)
    ensures
        coerces(cell_value(row@, c), SqlType::Real) ==> r == Ok::<Option<Binary32>, DecodeError>(
            real_in(cell_value(row@, c)),
        ),
        !coerces(cell_value(row@, c), SqlType::Real) ==> r == Err::<Option<Binary32>, DecodeError>(
            DecodeError { column: c },
        ),
{
    match row.value(c.external_name()) {
        None => Ok(None),
        Some(v) => match v {
            Value::Null => Ok(None),
            Value::Real(x) => Ok(Some(*x)),
            Value::Int(i) => Ok(Some(Binary32::from_int(*i))),
            _ => Err(DecodeError { column: c }),
        },
    }
}

fn read_double(row: &Row, c: Column) -> (r: Result<Option<Binary64>, DecodeError>)
    ensures
        coerces(cell_value(row@, c), SqlType::DoublePrecision) ==> r == Ok::<
            Option<Binary64>,
            DecodeError,
        >(double_in(cell_value(row@, c))),
        !coerces(cell_value(row@, c), SqlType::DoublePrecision) ==> r == Err::<
            Option<Binary64>,
            DecodeError,
        >(DecodeError { column: c }),
{
    match row.value(c.external_name()) {
        None => Ok(None),
        Some(v) => match v {
            Value::Null => Ok(None),
            Value::Double(x) => Ok(Some(*x)),
            Value::Int(i) => Ok(Some(Binary64::from_int(*i))),
            _ => Err(DecodeError { column: c }),
        },
    }
}

fn read_text(row: &Row, c: Column) -> (r: Result<Option<String>, DecodeError>)
    ensures
        coerces(cell_value(row@, c), SqlType::Text) ==> (r matches Ok(text) && text_in(
            cell_value(row@, c),
        ) == match text {
            Some(s) => Some(s@),
            None => None,
        }),
        !coerces(cell_value(row@, c), SqlType::Text) ==> r == Err::<Option<String>, DecodeError>(
            DecodeError { column: c },
        ),
{
    match row.value(c.external_name()) {
        None => Ok(None),
        Some(v) => match v {
            Value::Null => Ok(None),
            Value::Text(s) => Ok(Some(s.clone())),
            _ => Err(DecodeError { column: c }),
        },
    }
}

fn double_cell(field: Option<Binary64>) -> (v: Value)
    ensures
        v@ == double_value(field),
{
    match field {
        Some(x) => Value::Double(x),
        None => Value::Null,
    }
}

fn real_cell(field: Option<Binary32>) -> (v: Value)
    ensures
        v@ == real_value(field),
{
    match field {
        Some(x) => Value::Real(x),
        None => Value::Null,
    }
}

impl NycTripsTable {
    /// The value that the record gives to column `c`.
    pub fn value(&self, c: Column) -> (v: Value)
        ensures
            v@ == field_value(self@, c),
    {
        match c {
            Column::VendorId => match self.vendor_id {
                Some(i) => Value::Int(i as i64),
                None => Value::Null,
            },
            Column::PickupDatetime => Value::Null,
            Column::DropoffDatetime => Value::Null,
            Column::PassengerCount => match self.passenger_count {
                Some(i) => Value::Int(i),
                None => Value::Null,
            },
            Column::TripDistance => double_cell(self.trip_distance),
            Column::RatecodeId => double_cell(self.ratecode_id),
            Column::StoreAndFwdFlag => match &self.store_and_fwd_flag {
                Some(s) => Value::Text(s.clone()),
                None => Value::Null,
            },
            Column::PuLocationId => real_cell(self.pu_location_id),
            Column::DoLocationId => real_cell(self.do_location_id),
            Column::PaymentType => double_cell(self.payment_type),
            Column::FareAmount => double_cell(self.fare_amount),
            Column::Extra => double_cell(self.extra),
            Column::MtaTax => double_cell(self.mta_tax),
            Column::TipAmount => double_cell(self.tip_amount),
            Column::TollsAmount => double_cell(self.tolls_amount),
            Column::ImprovementSurcharge => double_cell(self.improvement_surcharge),
            Column::TotalAmount => double_cell(self.total_amount),
        }
    }

    /// Encodes the record as a row: one cell for each of its fields, in
    /// field order, under the external names. An absent field gives a cell
    /// without a value.
    pub fn to_row(&self) -> (row: Row)
        ensures
            row@ == encoded(self@),
    {
        let cols = record_columns();
        let n = cols.len();
        let mut cells: Vec<Cell> = Vec::new();
        let mut i: usize = 0;
        while i < n
            invariant
                i <= n,
                n == cols.len(),
                cols@ == record_schema(),
                cells@.len() == i,
                forall|k: int| 0 <= k < i ==> (#[trigger] cells@[k])@ == field_cell(self@, cols@[k]),
            decreases n - i,
        {
            let c = cols[i];
            cells.push(Cell { column: String::from_str(c.external_name()), value: self.value(c) });
            i = i + 1;
        }
        let row = Row { cells };
        assert(row@ =~= encoded(self@));
        row
    }

    /// Decodes a row. A field is absent where the row lacks its column or
    /// the cell holds no value. The row's other columns are passed over. The
    /// decoding fails on the first column, in field order, whose value
    /// cannot be taken as the column's type, and on no other row.
    pub fn from_row(row: &Row) -> (result: Result<NycTripsTable, DecodeError>)
        ensures
            decoding_view(result) == decoded(row@),
    {
        proof {
            reveal_with_fuel(first_misfit, 16);
        }
        let vendor_id = read_int(row, Column::VendorId)?;
        let passenger_count = read_bigint(row, Column::PassengerCount)?;
        let trip_distance = read_double(row, Column::TripDistance)?;
        let ratecode_id = read_double(row, Column::RatecodeId)?;
        let store_and_fwd_flag = read_text(row, Column::StoreAndFwdFlag)?;
        let pu_location_id = read_real(row, Column::PuLocationId)?;
        let do_location_id = read_real(row, Column::DoLocationId)?;
        let payment_type = read_double(row, Column::PaymentType)?;
        let fare_amount = read_double(row, Column::FareAmount)?;
        let extra = read_double(row, Column::Extra)?;
        let mta_tax = read_double(row, Column::MtaTax)?;
        let tip_amount = read_double(row, Column::TipAmount)?;
        let tolls_amount = read_double(row, Column::TollsAmount)?;
        let improvement_surcharge = read_double(row, Column::ImprovementSurcharge)?;
        let total_amount = read_double(row, Column::TotalAmount)?;
        Ok(
            NycTripsTable {
                vendor_id,
                passenger_count,
                trip_distance,
                ratecode_id,
                store_and_fwd_flag,
                pu_location_id,
                do_location_id,
                payment_type,
                fare_amount,
                extra,
                mta_tax,
                tip_amount,
                tolls_amount,
                improvement_surcharge,
                total_amount,
            },
        )
    }
}

/// What a record gives to a column of the typed record is what its row
/// holds for that column.
pub proof fn lemma_encoded_cell_value(record: TripRecord, j: int)
    requires
        0 <= j < record_schema().len(),
    ensures
        cell_value(encoded(record), record_schema()[j]) == field_value(record, record_schema()[j]),
{
    let row = encoded(record);
    let name = record_schema()[j].external_name_text();
    assert forall|k: int| 0 <= k < j implies row[k].column != name by {
        lemma_external_names_differ(record_schema()[k], record_schema()[j]);
    }
    lemma_value_of_first(row, name, j);
}

/// Encoding a record and decoding the row gives the record back, field for
/// field, whichever of its fields are absent.
pub proof fn lemma_decode_encode(record: TripRecord)
    ensures
        decoded(encoded(record)) == Ok::<TripRecord, DecodeError>(record),
{
    let row = encoded(record);
    assert forall|j: int| 0 <= j < record_schema().len() implies fits(row, record_schema()[j]) by {
        lemma_encoded_cell_value(record, j);
    }
    lemma_all_fit(row);
    lemma_encoded_cell_value(record, 0);
    lemma_encoded_cell_value(record, 1);
    lemma_encoded_cell_value(record, 2);
    lemma_encoded_cell_value(record, 3);
    lemma_encoded_cell_value(record, 4);
    lemma_encoded_cell_value(record, 5);
    lemma_encoded_cell_value(record, 6);
    lemma_encoded_cell_value(record, 7);
    lemma_encoded_cell_value(record, 8);
    lemma_encoded_cell_value(record, 9);
    lemma_encoded_cell_value(record, 10);
    lemma_encoded_cell_value(record, 11);
    lemma_encoded_cell_value(record, 12);
    lemma_encoded_cell_value(record, 13);
    lemma_encoded_cell_value(record, 14);
    assert(fields_of(row) == record);
}

/// Where each of the first `n` columns of the typed record fits, none of
/// them is the first that does not.
pub proof fn lemma_none_misfit(row: Seq<CellView>, n: int)
    requires
        n <= record_schema().len(),
        forall|j: int| 0 <= j < n ==> fits(row, #[trigger] record_schema()[j]),
    ensures
        first_misfit(row, n) is None,
    decreases n,
{
    if n > 0 {
        lemma_none_misfit(row, n - 1);
        assert(fits(row, record_schema()[n - 1]));
    }
}

/// A row decodes if and only if every column of the typed record fits.
pub proof fn lemma_all_fit(row: Seq<CellView>)
    requires
        forall|j: int| 0 <= j < record_schema().len() ==> fits(row, #[trigger] record_schema()[j]),
    ensures
        decoded(row) == Ok::<TripRecord, DecodeError>(fields_of(row)),
{
    lemma_none_misfit(row, record_schema().len() as int);
}

/// A row in which every field is absent decodes, and to the record in which
/// every field is absent: a column may be missing or its cell may hold no
/// value, and no field gets a number or a text of its own.
pub proof fn lemma_decode_absent(row: Seq<CellView>)
    requires
        forall|j: int|
            0 <= j < record_schema().len() ==> cell_value(row, #[trigger] record_schema()[j])
                == ValueView::Null,
    ensures
        decoded(row) == Ok::<TripRecord, DecodeError>(TripRecord::absent()),
{
    assert forall|j: int| 0 <= j < record_schema().len() implies fits(
        row,
        #[trigger] record_schema()[j],
    ) by {}
    lemma_all_fit(row);
    assert(cell_value(row, record_schema()[0]) == ValueView::Null);
    assert(cell_value(row, record_schema()[1]) == ValueView::Null);
    assert(cell_value(row, record_schema()[2]) == ValueView::Null);
    assert(cell_value(row, record_schema()[3]) == ValueView::Null);
    assert(cell_value(row, record_schema()[4]) == ValueView::Null);
    assert(cell_value(row, record_schema()[5]) == ValueView::Null);
    assert(cell_value(row, record_schema()[6]) == ValueView::Null);
    assert(cell_value(row, record_schema()[7]) == ValueView::Null);
    assert(cell_value(row, record_schema()[8]) == ValueView::Null);
    assert(cell_value(row, record_schema()[9]) == ValueView::Null);
    assert(cell_value(row, record_schema()[10]) == ValueView::Null);
    assert(cell_value(row, record_schema()[11]) == ValueView::Null);
    assert(cell_value(row, record_schema()[12]) == ValueView::Null);
    assert(cell_value(row, record_schema()[13]) == ValueView::Null);
    assert(cell_value(row, record_schema()[14]) == ValueView::Null);
}

/// The row without cells is such a row.
pub proof fn lemma_decode_empty()
    ensures
        decoded(Seq::<CellView>::empty()) == Ok::<TripRecord, DecodeError>(TripRecord::absent()),
{
    lemma_decode_absent(Seq::<CellView>::empty());
}

/// Two rows whose columns fit alike have the same first misfit.
pub proof fn lemma_first_misfit_alike(first: Seq<CellView>, second: Seq<CellView>, n: int)
    requires
        n <= record_schema().len(),
        forall|j: int|
            0 <= j < n ==> fits(first, #[trigger] record_schema()[j]) == fits(
                second,
                record_schema()[j],
            ),
    ensures
        first_misfit(first, n) == first_misfit(second, n),
    decreases n,
{
    if n > 0 {
        lemma_first_misfit_alike(first, second, n - 1);
        assert(fits(first, record_schema()[n - 1]) == fits(second, record_schema()[n - 1]));
    }
}

/// A row decodes to the same record whether its rate code comes as an
/// integer or as the double-precision number that is that integer. The two
/// rows hold the same for every other column of the typed record. The
/// negative zero is left out: it is the integer zero, and another number
/// than the zero that the integer converts to.
pub proof fn lemma_ratecode_int_or_double(
    with_int: Seq<CellView>,
    with_double: Seq<CellView>,
    i: i64,
    d: Binary64,
)
    requires
        d.is_int(i as int),
        d.bits != 0x8000_0000_0000_0000,
        cell_value(with_int, Column::RatecodeId) == ValueView::Int(i),
        cell_value(with_double, Column::RatecodeId) == ValueView::Double(d),
        forall|j: int|
            0 <= j < record_schema().len() && record_schema()[j] != Column::RatecodeId
                ==> cell_value(with_int, #[trigger] record_schema()[j]) == cell_value(
                with_double,
                record_schema()[j],
            ),
    ensures
        decoded(with_int) == decoded(with_double),
{
    d.lemma_of_int_is_the_int(i as int);
    assert forall|j: int| 0 <= j < record_schema().len() implies fits(
        with_int,
        #[trigger] record_schema()[j],
    ) == fits(with_double, record_schema()[j]) by {
        if record_schema()[j] != Column::RatecodeId {
            assert(cell_value(with_int, record_schema()[j]) == cell_value(
                with_double,
                record_schema()[j],
            ));
        }
    }
    lemma_first_misfit_alike(with_int, with_double, record_schema().len() as int);
    assert(cell_value(with_int, record_schema()[0]) == cell_value(with_double, record_schema()[0]));
    assert(cell_value(with_int, record_schema()[1]) == cell_value(with_double, record_schema()[1]));
    assert(cell_value(with_int, record_schema()[2]) == cell_value(with_double, record_schema()[2]));
    assert(cell_value(with_int, record_schema()[4]) == cell_value(with_double, record_schema()[4]));
    assert(cell_value(with_int, record_schema()[5]) == cell_value(with_double, record_schema()[5]));
    assert(cell_value(with_int, record_schema()[6]) == cell_value(with_double, record_schema()[6]));
    assert(cell_value(with_int, record_schema()[7]) == cell_value(with_double, record_schema()[7]));
    assert(cell_value(with_int, record_schema()[8]) == cell_value(with_double, record_schema()[8]));
    assert(cell_value(with_int, record_schema()[9]) == cell_value(with_double, record_schema()[9]));
    assert(cell_value(with_int, record_schema()[10]) == cell_value(
        with_double,
        record_schema()[10],
    ));
    assert(cell_value(with_int, record_schema()[11]) == cell_value(
        with_double,
        record_schema()[11],
    ));
    assert(cell_value(with_int, record_schema()[12]) == cell_value(
        with_double,
        record_schema()[12],
    ));
    assert(cell_value(with_int, record_schema()[13]) == cell_value(
        with_double,
        record_schema()[13],
    ));
    assert(cell_value(with_int, record_schema()[14]) == cell_value(
        with_double,
        record_schema()[14],
    ));
    assert(fields_of(with_int) == fields_of(with_double));
}

} // verus!
