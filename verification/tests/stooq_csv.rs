use vault_compass::context::asset::repository::stooq_csv::{close_field, StooqCsvError};

#[test]
fn rejects_missing_data_row() {
    let csv = "Symbol,Date,Time,Open,High,Low,Close,Volume\n";
    assert!(close_field(csv).is_err());
    assert_eq!(close_field(csv).unwrap_err(), StooqCsvError::MissingDataRow);
}

#[test]
fn close_field_of_well_formed_csv() {
    let csv = "Symbol,Date,Time,Open,High,Low,Close,Volume\n\
               AAPL.US,2026-05-16,21:55:00,189.50,190.20,188.75,189.95,12345678";
    let field = close_field(csv).unwrap();
    assert_eq!(field.raw, "189.95");
    assert_eq!(field.trimmed, "189.95");
}

#[test]
fn close_field_keeps_a_non_numeric_close_as_written() {
    let csv = "Symbol,Date,Time,Open,High,Low,Close,Volume\n\
               AAPL.US,2026-05-16,21:55:00,189.50,190.20,188.75,N/D,0";
    let field = close_field(csv).unwrap();
    assert_eq!(field.raw, "N/D");
}

#[test]
fn close_field_of_a_zero_close() {
    let csv = "Symbol,Date,Time,Open,High,Low,Close,Volume\n\
               AAPL.US,2026-05-16,21:55:00,0,0,0,0,0";
    assert_eq!(close_field(csv).unwrap().trimmed, "0");
}

#[test]
fn close_field_is_trimmed_and_crlf_is_dropped() {
    let csv = "h\r\nA,B,C,D,E,F,  12.5 \r\nnext,line";
    let field = close_field(csv).unwrap();
    assert_eq!(field.raw, "  12.5 ");
    assert_eq!(field.trimmed, "12.5");
}

#[test]
fn last_field_of_a_row_without_trailing_newline() {
    let field = close_field("h\na,b,c,d,e,f,7").unwrap();
    assert_eq!(field.raw, "7");
    let field = close_field("h\na,b,c,d,e,f,\n").unwrap();
    assert_eq!(field.raw, "");
}

#[test]
fn rejects_a_row_without_a_close_column() {
    let csv = "Symbol,Date,Time,Open,High,Low,Close,Volume\nAAPL.US,2026-05-16,21:55:00,1,2,3";
    assert_eq!(close_field(csv).unwrap_err(), StooqCsvError::MissingCloseColumn);
}

#[test]
fn rejects_input_without_a_second_line() {
    assert_eq!(close_field("").unwrap_err(), StooqCsvError::MissingDataRow);
    assert_eq!(close_field("only a header").unwrap_err(), StooqCsvError::MissingDataRow);
}

#[test]
fn an_empty_second_line_has_no_close_column() {
    assert_eq!(close_field("h\n\nx").unwrap_err(), StooqCsvError::MissingCloseColumn);
}

#[test]
fn a_lone_carriage_return_ends_no_line() {
    let field = close_field("h\na,b,c,d,e,f,9\r").unwrap();
    assert_eq!(field.raw, "9\r");
    assert_eq!(field.trimmed, "9");
}
