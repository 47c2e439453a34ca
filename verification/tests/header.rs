use namahage::config::Config;
use namahage::validator::header::duplicated_header::DuplicatedHeader;
use namahage::validator::header::header_column::HeaderColumn;
use namahage::validator::header::header_line::HeaderLine;
use namahage::validator::header::Header;
use namahage::validator::Level;
use namahage::vcf::Content;

#[test]
fn duplicated_header_test_valid() {
    let item = Header {
        config: &Config::default(),
        validated: false,
        contents: vec![Content(
            2,
            String::from("#CHROM\tPOS\tID\tREF\tALT\tQUAL\tFILTER\tINFO"),
        )],
        errors: vec![],
    };

    let v = DuplicatedHeader::default().validate(&item).unwrap();

    assert!(v.is_none());
}

#[test]
fn test_invalid_duplicated_header() {
    let item = Header {
        config: &Config::default(),
        validated: false,
        contents: vec![
            Content(
                2,
                String::from("#CHROM\tPOS\tID\tREF\tALT\tQUAL\tFILTER\tINFO"),
            ),
            Content(
                3,
                String::from("#CHROM\tPOS\tID\tREF\tALT\tQUAL\tFILTER\tINFO"),
            ),
        ],
        errors: vec![],
    };

    let v = DuplicatedHeader::default().validate(&item).unwrap();

    assert!(v.is_some());
}

#[test]
fn header_column_test_valid() {
    let item = Header {
        config: &Config::default(),
        validated: false,
        contents: vec![Content(
            2,
            String::from("#CHROM\tPOS\tID\tREF\tALT\tQUAL\tFILTER\tINFO"),
        )],
        errors: vec![],
    };

    let v = HeaderColumn::default().validate(&item).unwrap();

    assert!(v.is_none());
}

#[test]
fn test_invalid_missing_column() {
    let item = Header {
        config: &Config::default(),
        validated: false,
        contents: vec![Content(
            2,
            String::from("#CHROM\tPOS\tID\tREF\tALT\tQUAL\tFILTER"),
        )],
        errors: vec![],
    };

    let v = HeaderColumn::default().validate(&item).unwrap();

    assert!(v.is_some());
}

#[test]
fn test_invalid_invalid_order() {
    let item = Header {
        config: &Config::default(),
        validated: false,
        contents: vec![Content(
            2,
            String::from("#CHROM\tPOS\tID\tREF\tALT\tQUAL\tINFO\tFILTER"),
        )],
        errors: vec![],
    };

    let v = HeaderColumn::default().validate(&item).unwrap();

    assert!(v.is_some());
}

#[test]
fn header_line_test_valid() {
    let item = Header {
        config: &Config::default(),
        validated: false,
        contents: vec![Content(
            2,
            String::from("#CHROM\tPOS\tID\tREF\tALT\tQUAL\tFILTER\tINFO"),
        )],
        errors: vec![],
    };

    let v = HeaderLine::default().validate(&item).unwrap();

    assert!(v.is_none());
}

#[test]
fn test_invalid_missing_header_row() {
    let item = Header {
        config: &Config::default(),
        validated: false,
        contents: vec![],
        errors: vec![],
    };

    let v = HeaderLine::default().validate(&item).unwrap();

    assert!(v.is_some());
}

#[test]
fn header_column_accepts_further_columns_and_renders_the_expected_ones() {
    let config = Config::default();
    let mut item = Header::new(&config);
    item.push(&Content(
        2,
        String::from("#CHROM\tPOS\tID\tREF\tALT\tQUAL\tFILTER\tINFO\tFORMAT\tNA00001"),
    ));
    assert!(HeaderColumn::default().validate(&item).unwrap().is_none());

    let mut item = Header::new(&config);
    item.push(&Content(2, String::from("CHROM\tPOS\tID\tREF\tALT\tQUAL\tFILTER\tINFO")));
    let e = HeaderColumn::default().validate(&item).unwrap().unwrap();
    assert_eq!(e.id, "JV_VR0003");
    assert_eq!(e.name, "Header/HeaderColumn");
    assert_eq!(e.level, Level::Error);
    assert_eq!(
        e.message,
        "The header line names the 8 fixed, mandatory columns. These columns are as follows: CHROM, POS, ID, REF, ALT, QUAL, FILTER, INFO."
    );
}

#[test]
fn header_column_wants_exactly_one_header_line() {
    let config = Config::default();
    let item = Header::new(&config);
    assert!(HeaderColumn::default().validate(&item).unwrap().is_some());

    let mut item = Header::new(&config);
    item.push(&Content(2, String::from("#CHROM\tPOS\tID\tREF\tALT\tQUAL\tFILTER\tINFO")));
    item.push(&Content(3, String::from("#CHROM\tPOS\tID\tREF\tALT\tQUAL\tFILTER\tINFO")));
    assert!(HeaderColumn::default().validate(&item).unwrap().is_some());
}

#[test]
fn duplicated_header_is_silent_without_header() {
    let config = Config::default();
    let item = Header::new(&config);
    assert!(DuplicatedHeader::default().validate(&item).unwrap().is_none());
}

#[test]
fn disabled_header_rules_report_nothing() {
    let config = Config::default();
    let item = Header::new(&config);

    let mut line = HeaderLine::default();
    line.enabled = false;
    let mut column = HeaderColumn::default();
    column.enabled = false;
    assert!(line.validate(&item).unwrap().is_none());
    assert!(column.validate(&item).unwrap().is_none());
}

#[test]
fn header_validate_asks_the_rules_in_order_once() {
    let config = Config::default();
    let mut header = Header::new(&config);
    header.push(&Content(2, String::from("#CHROM\tPOS")));
    header.push(&Content(3, String::from("#CHROM\tPOS")));
    header.validate().unwrap();

    let ids: Vec<&str> = header.errors.iter().map(|e| e.id).collect();
    assert_eq!(ids, vec!["JV_VR0005", "JV_VR0003"]);

    header.push(&Content(4, String::from("#CHROM\tPOS")));
    assert_eq!(header.contents.len(), 2);
    header.validate().unwrap();
    assert_eq!(header.errors.len(), 2);

    let mut header = Header::new(&config);
    header.validate().unwrap();
    let ids: Vec<&str> = header.errors.iter().map(|e| e.id).collect();
    assert_eq!(ids, vec!["JV_VR0003", "JV_VR0002"]);
    assert_eq!(
        header.errors[1].message,
        "The header line is missing. The line starts with `#` is required."
    );
}
