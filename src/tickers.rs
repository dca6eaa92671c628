//! The tabular ticker lists: a list of field names and rows of cells, read
//! into typed entries.

use vstd::prelude::*;

use crate::json::{cell_text, cell_u64, JsonCell};

verus! {

/// Why a row of a ticker list could not be read.
#[derive(Debug, Clone, Copy, PartialEq, Eq, Structural)]
pub enum RowError {
    /// The row does not have four cells.
    InvalidRowLength,
    /// The CIK cell is no unsigned integer.
    InvalidCik,
    /// The name cell is no string.
    InvalidName,
    /// The ticker cell is no string.
    InvalidTicker,
    /// The series cell is no string.
    InvalidSeriesId,
    /// The class cell is no string.
    InvalidClassId,
    /// The symbol cell is no string.
    InvalidSymbol,
}

impl RowError {
    /// A description of the error.
    pub fn message(&self) -> (r: String)
        ensures
            r@ == (match *self {
                RowError::InvalidRowLength => "Invalid row length"@,
                RowError::InvalidCik => "Invalid CIK"@,
                RowError::InvalidName => "Invalid name"@,
                RowError::InvalidTicker => "Invalid ticker"@,
                RowError::InvalidSeriesId => "Invalid series ID"@,
                RowError::InvalidClassId => "Invalid class ID"@,
                RowError::InvalidSymbol => "Invalid symbol"@,
            }),
    {
        match self {
            RowError::InvalidRowLength => String::from_str("Invalid row length"),
            RowError::InvalidCik => String::from_str("Invalid CIK"),
            RowError::InvalidName => String::from_str("Invalid name"),
            RowError::InvalidTicker => String::from_str("Invalid ticker"),
            RowError::InvalidSeriesId => String::from_str("Invalid series ID"),
            RowError::InvalidClassId => String::from_str("Invalid class ID"),
            RowError::InvalidSymbol => String::from_str("Invalid symbol"),
        }
    }
}

/// The cell's text, or the empty text where it is no string.
pub open spec fn text_or_empty(c: JsonCell) -> Seq<char> {
    match cell_text(c) {
        Some(t) => t,
        None => Seq::empty(),
    }
}

/// The cells of each row.
pub open spec fn rows_view(data: Seq<Vec<JsonCell>>) -> Seq<Seq<JsonCell>> {
    data.map_values(|row: Vec<JsonCell>| row@)
}

/// `i` is the first row that `bad` rejects.
pub open spec fn is_first_bad_row(
    rows: Seq<Seq<JsonCell>>,
    bad: spec_fn(Seq<JsonCell>) -> Option<RowError>,
    i: int,
) -> bool {
    &&& 0 <= i < rows.len()
    &&& bad(rows[i]) is Some
    &&& forall|k: int| 0 <= k < i ==> bad(rows[k]) is None
}

/// Company list: cells `[cik, name, ticker, exchange]`.
#[derive(Debug, Clone)]
pub struct CompanyTickers {
    /// Field names in order: `cik`, `name`, `ticker`, `exchange`.
    pub fields: Vec<String>,
    /// One row of cells per company, in the order of the fields.
    pub data: Vec<Vec<JsonCell>>,
}

/// A company of the list.
#[derive(Debug, Clone)]
pub struct CompanyTickerEntry {
    /// Central Index Key.
    pub cik: u64,
    /// Company name.
    pub name: String,
    /// Ticker symbol.
    pub ticker: String,
    /// Exchange name; empty where the list has none.
    pub exchange: String,
}

/// Why a company row is rejected, if it is.
pub open spec fn company_row_error(row: Seq<JsonCell>) -> Option<RowError> {
    if row.len() != 4 {
        Some(RowError::InvalidRowLength)
    } else if cell_u64(row[0]) is None {
        Some(RowError::InvalidCik)
    } else if cell_text(row[1]) is None {
        Some(RowError::InvalidName)
    } else if cell_text(row[2]) is None {
        Some(RowError::InvalidTicker)
    } else {
        None
    }
}

/// `e` is what an accepted company row holds.
pub open spec fn company_entry_of(row: Seq<JsonCell>, e: CompanyTickerEntry) -> bool {
    &&& cell_u64(row[0]) == Some(e.cik)
    &&& cell_text(row[1]) == Some(e.name@)
    &&& cell_text(row[2]) == Some(e.ticker@)
    &&& e.exchange@ == text_or_empty(row[3])
}

fn company_entry(row: &Vec<JsonCell>) -> (r: Result<CompanyTickerEntry, RowError>)
    ensures
        company_row_error(row@) is None <==> r is Ok,
        r matches Ok(e) ==> company_entry_of(row@, e),
        r matches Err(err) ==> company_row_error(row@) == Some(err),
{
    if row.len() != 4 {
        return Err(RowError::InvalidRowLength);
    }
    let cik = match row[0].as_u64() {
        Some(c) => c,
        None => {
            return Err(RowError::InvalidCik);
        },
    };
    let name = match row[1].as_str() {
        Some(s) => String::from_str(s),
        None => {
            return Err(RowError::InvalidName);
        },
    };
    let ticker = match row[2].as_str() {
        Some(s) => String::from_str(s),
        None => {
            return Err(RowError::InvalidTicker);
        },
    };
    let exchange = match row[3].as_str() {
        Some(s) => String::from_str(s),
        None => String::new(),
    };
    Ok(CompanyTickerEntry { cik, name, ticker, exchange })
}

impl CompanyTickers {
    /// The entries of all rows in order, or the error of the first row that
    /// cannot be read.
    pub fn entries(&self) -> (r: Result<Vec<CompanyTickerEntry>, RowError>)
        ensures
            r is Ok <==> forall|i: int|
                0 <= i < self.data@.len() ==> #[trigger] company_row_error(self.data@[i]@) is None,
            r matches Ok(es) ==> es@.len() == self.data@.len() && forall|i: int|
                0 <= i < es@.len() ==> #[trigger] company_entry_of(self.data@[i]@, es@[i]),
            r matches Err(err) ==> exists|i: int|
                is_first_bad_row(rows_view(self.data@), |row| company_row_error(row), i)
                    && company_row_error(self.data@[i]@) == Some(err),
    {
        let mut out: Vec<CompanyTickerEntry> = Vec::new();
        let n = self.data.len();
        let mut i: usize = 0;
        while i < n
            invariant
                n == self.data@.len(),
                i <= n,
                out@.len() == i,
                forall|k: int| 0 <= k < i ==> #[trigger] company_row_error(self.data@[k]@) is None,
                forall|k: int| 0 <= k < i ==> #[trigger] company_entry_of(self.data@[k]@, out@[k]),
            decreases n - i,
        {
            match company_entry(&self.data[i]) {
                Ok(e) => {
                    out.push(e);
                },
                Err(err) => {
                    let ghost rows = rows_view(self.data@);
                    assert forall|k: int| 0 <= k < i implies (|row| company_row_error(row))(
                        rows[k],
                    ) is None by {
                        assert(rows[k] == self.data@[k]@);
                    }
                    assert(rows[i as int] == self.data@[i as int]@);
                    assert(is_first_bad_row(rows, |row| company_row_error(row), i as int));
                    return Err(err);
                },
            }
            i = i + 1;
        }
        Ok(out)
    }
}

/// Mutual-fund list: cells `[cik, seriesId, classId, symbol]`.
#[derive(Debug, Clone)]
pub struct CompanyTickersMf {
    /// Field names in order: `cik`, `seriesId`, `classId`, `symbol`.
    pub fields: Vec<String>,
    /// One row of cells per fund class, in the order of the fields.
    pub data: Vec<Vec<JsonCell>>,
}

/// A fund class of the list.
#[derive(Debug, Clone)]
pub struct MutualFundTickerEntry {
    /// Central Index Key.
    pub cik: u64,
    /// Series identifier.
    pub series_id: String,
    /// Class identifier.
    pub class_id: String,
    /// Fund symbol.
    pub symbol: String,
}

/// Why a fund row is rejected, if it is.
pub open spec fn fund_row_error(row: Seq<JsonCell>) -> Option<RowError> {
    if row.len() != 4 {
        Some(RowError::InvalidRowLength)
    } else if cell_u64(row[0]) is None {
        Some(RowError::InvalidCik)
    } else if cell_text(row[1]) is None {
        Some(RowError::InvalidSeriesId)
    } else if cell_text(row[2]) is None {
        Some(RowError::InvalidClassId)
    } else if cell_text(row[3]) is None {
        Some(RowError::InvalidSymbol)
    } else {
        None
    }
}

/// `e` is what an accepted fund row holds.
pub open spec fn fund_entry_of(row: Seq<JsonCell>, e: MutualFundTickerEntry) -> bool {
    &&& cell_u64(row[0]) == Some(e.cik)
    &&& cell_text(row[1]) == Some(e.series_id@)
    &&& cell_text(row[2]) == Some(e.class_id@)
    &&& cell_text(row[3]) == Some(e.symbol@)
}

fn fund_entry(row: &Vec<JsonCell>) -> (r: Result<MutualFundTickerEntry, RowError>)
    ensures
        fund_row_error(row@) is None <==> r is Ok,
        r matches Ok(e) ==> fund_entry_of(row@, e),
        r matches Err(err) ==> fund_row_error(row@) == Some(err),
{
    if row.len() != 4 {
        return Err(RowError::InvalidRowLength);
    }
    let cik = match row[0].as_u64() {
        Some(c) => c,
        None => {
            return Err(RowError::InvalidCik);
        },
    };
    let series_id = match row[1].as_str() {
        Some(s) => String::from_str(s),
        None => {
            return Err(RowError::InvalidSeriesId);
        },
    };
    let class_id = match row[2].as_str() {
        Some(s) => String::from_str(s),
        None => {
            return Err(RowError::InvalidClassId);
        },
    };
    let symbol = match row[3].as_str() {
        Some(s) => String::from_str(s),
        None => {
            return Err(RowError::InvalidSymbol);
        },
    };
    Ok(MutualFundTickerEntry { cik, series_id, class_id, symbol })
}

impl CompanyTickersMf {
    /// The entries of all rows in order, or the error of the first row that
    /// cannot be read.
    pub fn entries(&self) -> (r: Result<Vec<MutualFundTickerEntry>, RowError>)
        ensures
            r is Ok <==> forall|i: int|
                0 <= i < self.data@.len() ==> #[trigger] fund_row_error(self.data@[i]@) is None,
            r matches Ok(es) ==> es@.len() == self.data@.len() && forall|i: int|
                0 <= i < es@.len() ==> #[trigger] fund_entry_of(self.data@[i]@, es@[i]),
            r matches Err(err) ==> exists|i: int|
                is_first_bad_row(rows_view(self.data@), |row| fund_row_error(row), i)
                    && fund_row_error(self.data@[i]@) == Some(err),
    {
        let mut out: Vec<MutualFundTickerEntry> = Vec::new();
        let n = self.data.len();
        let mut i: usize = 0;
        while i < n
            invariant
                n == self.data@.len(),
                i <= n,
                out@.len() == i,
                forall|k: int| 0 <= k < i ==> #[trigger] fund_row_error(self.data@[k]@) is None,
                forall|k: int| 0 <= k < i ==> #[trigger] fund_entry_of(self.data@[k]@, out@[k]),
            decreases n - i,
        {
            match fund_entry(&self.data[i]) {
                Ok(e) => {
                    out.push(e);
                },
                Err(err) => {
                    let ghost rows = rows_view(self.data@);
                    assert forall|k: int| 0 <= k < i implies (|row| fund_row_error(row))(
                        rows[k],
                    ) is None by {
                        assert(rows[k] == self.data@[k]@);
                    }
                    assert(rows[i as int] == self.data@[i as int]@);
                    assert(is_first_bad_row(rows, |row| fund_row_error(row), i as int));
                    return Err(err);
                },
            }
            i = i + 1;
        }
        Ok(out)
    }
}

} // verus!
