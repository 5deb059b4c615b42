use wind_shadow_launcher::turbine::{import_csv_turbines, import_table, ImportError};

#[test]
fn imports_rows_in_order() {
    let t = import_table("id;x;y;hub_height_m;rotor_diameter_m\nT1;1;2;3;4\nT2;5.5;6;7;8\n").unwrap();
    assert_eq!(t.len(), 2);
    assert_eq!(t[0].id, "T1");
    assert_eq!(t[0].x.text(), "1");
    assert_eq!(t[0].rotor_diameter_m.text(), "4");
    assert_eq!(t[1].id, "T2");
    assert_eq!(t[1].x.text(), "5.5");
    assert_eq!(t[1].hub_height_m.text(), "7");
}

#[test]
fn columns_found_by_name() {
    let t = import_table("rotor_diameter_m;note;y;x;id;hub_height_m\n140;a;5000100;500100;W7;120\n").unwrap();
    assert_eq!(t.len(), 1);
    assert_eq!(t[0].id, "W7");
    assert_eq!(t[0].x.text(), "500100");
    assert_eq!(t[0].y.text(), "5000100");
    assert_eq!(t[0].hub_height_m.text(), "120");
    assert_eq!(t[0].rotor_diameter_m.text(), "140");
}

#[test]
fn malformed_row_fails_whole_import() {
    let r = import_table("id;x;y;hub_height_m;rotor_diameter_m\nT1;1;2;3;4\nT2;abc;6;7;8\nT3;1;2;3;4\n");
    match r {
        Err(ImportError::BadRow { row, field }) => {
            assert_eq!(row, 2);
            assert_eq!(field, "x");
        }
        other => panic!("unexpected {:?}", other.map(|v| v.len())),
    }
}

#[test]
fn missing_column_fails() {
    let r = import_table("id;x;hub_height_m;rotor_diameter_m\nT1;1;3;4\n");
    assert!(matches!(r, Err(ImportError::MissingColumn(ref f)) if f == "y"));
}

#[test]
fn comma_table_lacks_columns() {
    let r = import_table("id,x,y,hub_height_m,rotor_diameter_m\nT1,1,2,3,4\n");
    assert!(matches!(r, Err(ImportError::MissingColumn(ref f)) if f == "id"));
}

#[test]
fn duplicate_column_fails() {
    let r = import_table("id;x;x;y;hub_height_m;rotor_diameter_m\nT1;1;1;2;3;4\n");
    assert!(matches!(r, Err(ImportError::DuplicateColumn(ref f)) if f == "x"));
}

#[test]
fn ragged_table_fails() {
    let r = import_table("id;x;y;hub_height_m;rotor_diameter_m\nT1;1;2;3;4;9\n");
    assert!(matches!(r, Err(ImportError::Table(_))));
}

#[test]
fn empty_tables_import_nothing() {
    assert_eq!(import_table("").unwrap().len(), 0);
    assert_eq!(import_table("id;x;y;hub_height_m;rotor_diameter_m\n").unwrap().len(), 0);
}

#[test]
fn cancelled_pick_imports_nothing() {
    assert_eq!(import_csv_turbines(None).unwrap().len(), 0);
    assert_eq!(import_csv_turbines(Some("id;x;y;hub_height_m;rotor_diameter_m\nA;1;2;3;4\n")).unwrap().len(), 1);
}

#[test]
fn error_messages() {
    assert_eq!(ImportError::MissingColumn("y".to_string()).message(), "missing field `y`");
    assert_eq!(ImportError::DuplicateColumn("x".to_string()).message(), "duplicate field `x`");
}

#[test]
fn row_and_table_messages() {
    let e = ImportError::BadRow { row: 3, field: "y".to_string() };
    assert_eq!(e.message(), "record 3: invalid value for field `y`");
    let e = ImportError::BadRow { row: 120, field: "x".to_string() };
    assert_eq!(e.message(), "record 120: invalid value for field `x`");
    assert_eq!(ImportError::Table("boom".to_string()).message(), "boom");
}

#[test]
fn missing_field_in_short_row_is_reported() {
    let r = import_table("id;x;y;hub_height_m;rotor_diameter_m\nT1;1;2;3;\n");
    assert!(matches!(r, Err(ImportError::BadRow { row: 1, ref field }) if field == "rotor_diameter_m"));
}

fn bad_field(r: Result<Vec<wind_shadow_launcher::turbine::Turbine>, ImportError>) -> (usize, String) {
    match r {
        Err(ImportError::BadRow { row, field }) => (row, field),
        _ => panic!("expected a bad row"),
    }
}

#[test]
fn non_positive_dimensions_fail() {
    let h = "id;x;y;hub_height_m;rotor_diameter_m\n";
    assert_eq!(bad_field(import_table(&format!("{}T1;1;2;-3;4\n", h))), (1, "hub_height_m".to_string()));
    assert_eq!(bad_field(import_table(&format!("{}T1;1;2;3;0\n", h))), (1, "rotor_diameter_m".to_string()));
    assert_eq!(bad_field(import_table(&format!("{}T1;1;2;3;4\nT2;1;2;0.0e5;4\n", h))), (2, "hub_height_m".to_string()));
    assert!(import_table(&format!("{}T1;-1;-2;0.5;1e2\n", h)).is_ok());
}

#[test]
fn empty_id_fails() {
    let r = import_table("id;x;y;hub_height_m;rotor_diameter_m\n;1;2;3;4\n");
    assert_eq!(bad_field(r), (1, "id".to_string()));
}

#[test]
fn first_bad_field_is_reported() {
    let r = import_table("id;x;y;hub_height_m;rotor_diameter_m\nT1;a;b;-1;-1\n");
    assert_eq!(bad_field(r), (1, "x".to_string()));
    let r = import_table("x;id;y;hub_height_m;rotor_diameter_m\na;T1;b;-1;-1\n");
    assert_eq!(bad_field(r), (1, "x".to_string()));
}

#[test]
fn first_bad_column_is_reported() {
    let r = import_table("rotor_diameter_m;y;y\n1;2;3\n");
    assert!(matches!(r, Err(ImportError::MissingColumn(ref f)) if f == "id"));
    let r = import_table("id;y;y;x;hub_height_m\nA;2;3;1;4\n");
    assert!(matches!(r, Err(ImportError::DuplicateColumn(ref f)) if f == "y"));
}

#[test]
fn header_only_table_with_missing_column_imports_nothing() {
    assert_eq!(import_table("id;x\n").unwrap().len(), 0);
}
