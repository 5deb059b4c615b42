//! Turbines and their import from a semicolon-separated table.
//!
//! The first record of the table is a header naming the columns `id`, `x`,
//! `y`, `hub_height_m` and `rotor_diameter_m`, in any order and possibly among
//! others. Each following record becomes one turbine. The import is all or
//! nothing: the first record that cannot be read aborts it.
use crate::number::{Decimal, decimal_string, decimal_text, is_number, is_positive};
use vstd::prelude::*;

verus! {

/// Field separator of a turbine table.
pub const TABLE_DELIMITER: u8 = 59;

/// One wind-turbine placement.
pub struct Turbine {
    pub id: String,
    pub x: Decimal,
    pub y: Decimal,
    pub hub_height_m: Decimal,
    pub rotor_diameter_m: Decimal,
}

impl Turbine {
    /// A non-empty id, finite coordinates, and positive dimensions.
    pub open spec fn wf(&self) -> bool {
        &&& self.id@.len() > 0
        &&& self.x.wf()
        &&& self.y.wf()
        &&& self.hub_height_m.wf() && is_positive(self.hub_height_m.spec_text())
        &&& self.rotor_diameter_m.wf() && is_positive(self.rotor_diameter_m.spec_text())
    }

    /// Whether the turbine is valid.
    pub fn is_valid(&self) -> (r: bool)
        ensures
            r == self.wf(),
    {
        self.id.as_str().unicode_len() > 0 && self.x.is_valid() && self.y.is_valid()
            && self.hub_height_m.is_valid() && self.hub_height_m.is_positive()
            && self.rotor_diameter_m.is_valid() && self.rotor_diameter_m.is_positive()
    }
}

/// Why an import failed.
#[derive(Debug)]
pub enum ImportError {
    /// The table itself could not be read; the reader's message.
    Table(String),
    /// The header names no column for this field.
    MissingColumn(String),
    /// The header names this field more than once.
    DuplicateColumn(String),
    /// Record `row` (the header is record 0) has no valid value for `field`.
    BadRow { row: usize, field: String },
}

impl ImportError {
    pub fn message(&self) -> (r: String)
        ensures
            match self {
                ImportError::Table(m) => r@ == m@,
                ImportError::MissingColumn(f) => r@ == "missing field `"@ + f@ + "`"@,
                ImportError::DuplicateColumn(f) => r@ == "duplicate field `"@ + f@ + "`"@,
                ImportError::BadRow { row, field } => r@ == "record "@ + decimal_text(*row as nat)
                    + ": invalid value for field `"@ + field@ + "`"@,
            },
    {
        match self {
            ImportError::Table(m) => m.clone(),
            ImportError::MissingColumn(f) => {
                let mut s = "missing field `".to_owned();
                s.append(f.as_str());
                s.append("`");
                s
            },
            ImportError::DuplicateColumn(f) => {
                let mut s = "duplicate field `".to_owned();
                s.append(f.as_str());
                s.append("`");
                s
            },
            ImportError::BadRow { row, field } => {
                let mut s = "record ".to_owned();
                let n = decimal_string(*row);
                s.append(n.as_str());
                s.append(": invalid value for field `");
                s.append(field.as_str());
                s.append("`");
                s
            },
        }
    }
}

/// What the `csv` reader, with `delimiter` as field separator and no header
/// handling, reads from `text`: its records, each a sequence of fields, or
/// the message of the error that stopped it.
pub uninterp spec fn delimited_records(text: Seq<char>, delimiter: u8) -> Result<
    Seq<Seq<Seq<char>>>,
    Seq<char>,
>;

/// Relies on `csv::ReaderBuilder` (`delimiter`, `has_headers(false)`,
/// `from_reader`) and `Reader::records`: splits `text` into records of fields,
/// or reports the reader's first error.
#[verifier::external_body]
fn read_records(text: &str, delimiter: u8) -> (r: Result<Vec<Vec<String>>, String>)
    ensures
        match r {
            Ok(v) => delimited_records(text@, delimiter) == Ok::<Seq<Seq<Seq<char>>>, Seq<char>>(v.deep_view()),
            Err(e) => delimited_records(text@, delimiter) == Err::<Seq<Seq<Seq<char>>>, Seq<char>>(e@),
        },
{
    let mut rdr = csv::ReaderBuilder::new().delimiter(delimiter).has_headers(false).from_reader(text.as_bytes());
    rdr.records().map(|rec| rec.map(|r| r.iter().map(|f| f.to_string()).collect()).map_err(|e| e.to_string())).collect()
}

/// Column `i` of `header` is named `name`.
pub open spec fn names(header: Seq<Seq<char>>, name: Seq<char>, i: int) -> bool {
    0 <= i < header.len() && header[i] == name
}

pub open spec fn has_column(header: Seq<Seq<char>>, name: Seq<char>) -> bool {
    exists|i: int| names(header, name, i)
}

/// Exactly one column of `header` is named `name`.
pub open spec fn unique_column(header: Seq<Seq<char>>, name: Seq<char>) -> bool {
    has_column(header, name) && forall|i: int, j: int|
        names(header, name, i) && names(header, name, j) ==> i == j
}

pub open spec fn header_ok(header: Seq<Seq<char>>) -> bool {
    unique_column(header, "id"@) && unique_column(header, "x"@) && unique_column(header, "y"@)
        && unique_column(header, "hub_height_m"@) && unique_column(header, "rotor_diameter_m"@)
}

/// What a field must hold.
pub const KIND_TEXT: u8 = 0;
pub const KIND_NUMBER: u8 = 1;
pub const KIND_POSITIVE: u8 = 2;

/// `v` is a valid value for a field of the given kind: non-empty text, a
/// number, or a number greater than zero.
pub open spec fn value_ok(v: Seq<char>, kind: u8) -> bool {
    if kind == KIND_TEXT {
        v.len() > 0
    } else if kind == KIND_NUMBER {
        is_number(v)
    } else {
        is_positive(v)
    }
}

/// The column named `name` exists in `row` and holds a valid value.
pub open spec fn field_ok(header: Seq<Seq<char>>, row: Seq<Seq<char>>, name: Seq<char>, kind: u8) -> bool {
    forall|i: int| #[trigger] names(header, name, i) ==> i < row.len() && value_ok(row[i], kind)
}

pub open spec fn row_ok(header: Seq<Seq<char>>, row: Seq<Seq<char>>) -> bool {
    &&& field_ok(header, row, "id"@, KIND_TEXT)
    &&& field_ok(header, row, "x"@, KIND_NUMBER)
    &&& field_ok(header, row, "y"@, KIND_NUMBER)
    &&& field_ok(header, row, "hub_height_m"@, KIND_POSITIVE)
    &&& field_ok(header, row, "rotor_diameter_m"@, KIND_POSITIVE)
}

/// The first field, in the order id, x, y, hub_height_m, rotor_diameter_m,
/// that `row` does not hold validly.
pub open spec fn first_bad_field(header: Seq<Seq<char>>, row: Seq<Seq<char>>) -> Seq<char> {
    if !field_ok(header, row, "id"@, KIND_TEXT) {
        "id"@
    } else if !field_ok(header, row, "x"@, KIND_NUMBER) {
        "x"@
    } else if !field_ok(header, row, "y"@, KIND_NUMBER) {
        "y"@
    } else if !field_ok(header, row, "hub_height_m"@, KIND_POSITIVE) {
        "hub_height_m"@
    } else {
        "rotor_diameter_m"@
    }
}

/// The first field, in the same order, that `header` does not name exactly once.
pub open spec fn first_bad_column(header: Seq<Seq<char>>) -> Seq<char> {
    if !unique_column(header, "id"@) {
        "id"@
    } else if !unique_column(header, "x"@) {
        "x"@
    } else if !unique_column(header, "y"@) {
        "y"@
    } else if !unique_column(header, "hub_height_m"@) {
        "hub_height_m"@
    } else {
        "rotor_diameter_m"@
    }
}

/// `t` holds the fields of `row`, taken by column name.
pub open spec fn turbine_matches(t: Turbine, header: Seq<Seq<char>>, row: Seq<Seq<char>>) -> bool {
    &&& t.wf()
    &&& forall|i: int| names(header, "id"@, i) ==> t.id@ == row[i]
    &&& forall|i: int| names(header, "x"@, i) ==> t.x.spec_text() == row[i]
    &&& forall|i: int| names(header, "y"@, i) ==> t.y.spec_text() == row[i]
    &&& forall|i: int| names(header, "hub_height_m"@, i) ==> t.hub_height_m.spec_text() == row[i]
    &&& forall|i: int| names(header, "rotor_diameter_m"@, i) ==> t.rotor_diameter_m.spec_text() == row[i]
}

/// The outcome of importing the records `rs`. A table without data records
/// imports nothing, whatever its header.
pub open spec fn import_post(rs: Seq<Seq<Seq<char>>>, r: Result<Vec<Turbine>, ImportError>) -> bool {
    if rs.len() <= 1 {
        r matches Ok(v) && v@.len() == 0
    } else if !header_ok(rs[0]) {
        match r {
            Err(ImportError::MissingColumn(n)) => n@ == first_bad_column(rs[0]) && !has_column(rs[0], n@),
            Err(ImportError::DuplicateColumn(n)) => n@ == first_bad_column(rs[0]) && has_column(rs[0], n@)
                && !unique_column(rs[0], n@),
            _ => false,
        }
    } else {
        match r {
            Ok(v) => v@.len() == rs.len() - 1 && forall|k: int|
                1 <= k < rs.len() ==> row_ok(rs[0], #[trigger] rs[k]) && turbine_matches(v@[k - 1], rs[0], rs[k]),
            Err(ImportError::BadRow { row, field }) => 1 <= row < rs.len() && !row_ok(rs[0], rs[row as int])
                && field@ == first_bad_field(rs[0], rs[row as int])
                && forall|k: int| 1 <= k < row ==> row_ok(rs[0], #[trigger] rs[k]),
            _ => false,
        }
    }
}

/// Finds the one column of `header` named `name`.
fn locate(header: &Vec<String>, name: &str) -> (r: Result<usize, ImportError>)
    ensures
        r is Ok <==> unique_column(header.deep_view(), name@),
        r matches Ok(i) ==> names(header.deep_view(), name@, i as int),
        match r {
            Ok(_) => true,
            Err(ImportError::MissingColumn(n)) => n@ == name@ && !has_column(header.deep_view(), name@),
            Err(ImportError::DuplicateColumn(n)) => n@ == name@ && has_column(header.deep_view(), name@)
                && !unique_column(header.deep_view(), name@),
            _ => false,
        },
{
    let ghost h = header.deep_view();
    let target = name.to_owned();
    let mut found: Option<usize> = None;
    let mut i: usize = 0;
    while i < header.len()
        invariant
            h == header.deep_view(),
            target@ == name@,
            i <= header.len(),
            match found {
                Some(c) => names(h, name@, c as int) && c < i && forall|j: int|
                    0 <= j < i && names(h, name@, j) ==> j == c,
                None => forall|j: int| 0 <= j < i ==> !names(h, name@, j),
            },
        decreases header.len() - i,
    {
        if header[i] == target {
            if let Some(c) = found {
                assert(names(h, name@, c as int) && names(h, name@, i as int));
                return Err(ImportError::DuplicateColumn(target));
            }
            found = Some(i);
        }
        i = i + 1;
    }
    match found {
        Some(c) => Ok(c),
        None => Err(ImportError::MissingColumn(target)),
    }
}

/// Column positions of the five turbine fields.
pub struct Columns {
    pub id: usize,
    pub x: usize,
    pub y: usize,
    pub hub_height_m: usize,
    pub rotor_diameter_m: usize,
}

/// `cols` gives the one column of `header` for each field.
pub open spec fn columns_of(header: Seq<Seq<char>>, cols: Columns) -> bool {
    &&& header_ok(header)
    &&& names(header, "id"@, cols.id as int)
    &&& names(header, "x"@, cols.x as int)
    &&& names(header, "y"@, cols.y as int)
    &&& names(header, "hub_height_m"@, cols.hub_height_m as int)
    &&& names(header, "rotor_diameter_m"@, cols.rotor_diameter_m as int)
}

/// Maps each field to its column of `header`.
pub fn header_columns(header: &Vec<String>) -> (r: Result<Columns, ImportError>)
    ensures
        r is Ok <==> header_ok(header.deep_view()),
        r matches Ok(c) ==> columns_of(header.deep_view(), c),
        match r {
            Ok(_) => true,
            Err(ImportError::MissingColumn(n)) => n@ == first_bad_column(header.deep_view())
                && !has_column(header.deep_view(), n@),
            Err(ImportError::DuplicateColumn(n)) => n@ == first_bad_column(header.deep_view())
                && has_column(header.deep_view(), n@) && !unique_column(header.deep_view(), n@),
            _ => false,
        },
{
    let id = locate(header, "id")?;
    let x = locate(header, "x")?;
    let y = locate(header, "y")?;
    let hub_height_m = locate(header, "hub_height_m")?;
    let rotor_diameter_m = locate(header, "rotor_diameter_m")?;
    Ok(Columns { id, x, y, hub_height_m, rotor_diameter_m })
}

/// Reads the number in column `col` of `row`, which must be greater than
/// zero if `positive`.
fn number_field(row: &Vec<String>, col: usize, row_no: usize, field: &str, positive: bool) -> (r: Result<Decimal, ImportError>)
    ensures
        r is Ok <==> col < row@.len() && value_ok(row@[col as int]@, if positive { KIND_POSITIVE } else { KIND_NUMBER }),
        r matches Ok(d) ==> d.wf() && d.spec_text() == row@[col as int]@,
        r matches Err(e) ==> e matches ImportError::BadRow { row, field: f } && row == row_no && f@ == field@,
{
    if col < row.len() {
        match Decimal::parse(row[col].as_str()) {
            Some(d) => {
                if positive && !d.is_positive() {
                    Err(ImportError::BadRow { row: row_no, field: field.to_owned() })
                } else {
                    Ok(d)
                }
            },
            None => {
                proof {
                    if positive {
                        assert(!is_positive(row@[col as int]@));
                    }
                }
                Err(ImportError::BadRow { row: row_no, field: field.to_owned() })
            },
        }
    } else {
        Err(ImportError::BadRow { row: row_no, field: field.to_owned() })
    }
}

/// Builds the turbine of record `row_no`, whose fields are `row`.
pub fn turbine_from_row(header: Ghost<Seq<Seq<char>>>, cols: &Columns, row: &Vec<String>, row_no: usize) -> (r: Result<Turbine, ImportError>)
    requires
        columns_of(header@, *cols),
    ensures
        r is Ok <==> row_ok(header@, row.deep_view()),
        r matches Ok(t) ==> turbine_matches(t, header@, row.deep_view()),
        r matches Err(e) ==> e matches ImportError::BadRow { row: n, field: f } && n == row_no
            && f@ == first_bad_field(header@, row.deep_view()),
{
    let ghost rv = row.deep_view();
    let ghost h = header@;
    assert(rv.len() == row@.len());
    assert forall|i: int| 0 <= i < rv.len() implies rv[i] == row@[i]@ by {}
    if cols.id >= row.len() || row[cols.id].as_str().unicode_len() == 0 {
        assert(names(h, "id"@, cols.id as int));
        return Err(ImportError::BadRow { row: row_no, field: "id".to_owned() });
    }
    let id = row[cols.id].clone();
    let x = match number_field(row, cols.x, row_no, "x", false) {
        Ok(d) => d,
        Err(e) => {
            assert(names(h, "x"@, cols.x as int));
            return Err(e);
        },
    };
    let y = match number_field(row, cols.y, row_no, "y", false) {
        Ok(d) => d,
        Err(e) => {
            assert(names(h, "y"@, cols.y as int));
            return Err(e);
        },
    };
    let hub_height_m = match number_field(row, cols.hub_height_m, row_no, "hub_height_m", true) {
        Ok(d) => d,
        Err(e) => {
            assert(names(h, "hub_height_m"@, cols.hub_height_m as int));
            return Err(e);
        },
    };
    let rotor_diameter_m = match number_field(row, cols.rotor_diameter_m, row_no, "rotor_diameter_m", true) {
        Ok(d) => d,
        Err(e) => {
            assert(names(h, "rotor_diameter_m"@, cols.rotor_diameter_m as int));
            return Err(e);
        },
    };
    Ok(Turbine { id, x, y, hub_height_m, rotor_diameter_m })
}

/// Turns the records of a table into turbines: the first record is the
/// header, each other record one turbine, in order.
pub fn turbines_from_records(rs: &Vec<Vec<String>>) -> (r: Result<Vec<Turbine>, ImportError>)
    ensures
        import_post(rs.deep_view(), r),
{
    let ghost rsv = rs.deep_view();
    if rs.len() <= 1 {
        return Ok(Vec::new());
    }
    let cols = header_columns(&rs[0]);
    let cols = match cols {
        Ok(c) => c,
        Err(e) => return Err(e),
    };
    let mut out: Vec<Turbine> = Vec::new();
    let mut k: usize = 1;
    while k < rs.len()
        invariant
            rsv == rs.deep_view(),
            rs@.len() > 0,
            columns_of(rsv[0], cols),
            1 <= k <= rs@.len(),
            out@.len() == k - 1,
            forall|j: int| 1 <= j < k ==> row_ok(rsv[0], #[trigger] rsv[j]) && turbine_matches(out@[j - 1], rsv[0], rsv[j]),
        decreases rs.len() - k,
    {
        match turbine_from_row(Ghost(rsv[0]), &cols, &rs[k], k) {
            Ok(t) => out.push(t),
            Err(e) => return Err(e),
        }
        k = k + 1;
    }
    Ok(out)
}

/// Imports the turbine table `text`: the semicolon-separated records are read
/// by the table reader, then turned into turbines.
pub fn import_table(text: &str) -> (r: Result<Vec<Turbine>, ImportError>)
    ensures
        match delimited_records(text@, TABLE_DELIMITER) {
            Ok(rs) => import_post(rs, r),
            Err(m) => r matches Err(ImportError::Table(e)) && e@ == m,
        },
{
    match read_records(text, TABLE_DELIMITER) {
        Ok(rs) => turbines_from_records(&rs),
        Err(m) => Err(ImportError::Table(m)),
    }
}

/// Imports the table that the user picked; `None`, a cancelled pick, imports
/// nothing and is no failure.
pub fn import_csv_turbines(picked: Option<&str>) -> (r: Result<Vec<Turbine>, ImportError>)
    ensures
        match picked {
            None => r matches Ok(v) && v@.len() == 0,
            Some(text) => match delimited_records(text@, TABLE_DELIMITER) {
                Ok(rs) => import_post(rs, r),
                Err(m) => r matches Err(ImportError::Table(e)) && e@ == m,
            },
        },
{
    match picked {
        None => Ok(Vec::new()),
        Some(text) => import_table(text),
    }
}

} // verus!
