use namahage::config::Base;
use namahage::config::Config;
use namahage::validator::findings::ErrorMap;
use namahage::validator::global::blank_line::BlankLine;
use namahage::validator::global::data_before_header::DataBeforeHeader;
use namahage::validator::global::empty_vcf::EmptyVCF;
use namahage::validator::global::Global;
use namahage::validator::report;
use namahage::validator::Level;
use namahage::validator::ValidationError;
use namahage::vcf::Content;

const HEADER: &str = "#CHROM\tPOS\tID\tREF\tALT\tQUAL\tFILTER\tINFO";
const RECORD: &str = "NC_000001.10\t10001\trs1570391677\tT\tA\t.\t.\t.";

#[test]
fn blank_line_test_valid() {
    let item = Global {
        config: &Config::default(),
        validated: false,
        header: true,
        count: 0,
        current_content: Some(Content(4, RECORD.to_owned())),
        previous_content: Some(Content(3, HEADER.to_owned())),
        errors: ErrorMap::new(),
    };

    let v = BlankLine::default().validate(&item).unwrap();

    assert!(v.is_none());
}

#[test]
fn blank_line_test_invalid_data_before_header() {
    let item = Global {
        config: &Config::default(),
        validated: false,
        header: true,
        count: 0,
        current_content: Some(Content(4, "".to_owned())),
        previous_content: Some(Content(3, HEADER.to_owned())),
        errors: ErrorMap::new(),
    };

    let v = BlankLine::default().validate(&item).unwrap();

    assert!(v.is_some());
}

#[test]
fn data_before_header_test_valid() {
    let item = Global {
        config: &Config::default(),
        validated: false,
        header: true,
        count: 0,
        current_content: Some(Content(4, RECORD.to_owned())),
        previous_content: Some(Content(3, HEADER.to_owned())),
        errors: ErrorMap::new(),
    };

    let v = DataBeforeHeader::default().validate(&item).unwrap();

    assert!(v.is_none());
}

#[test]
fn data_before_header_test_invalid_data_before_header() {
    let item = Global {
        config: &Config::default(),
        validated: false,
        header: false,
        count: 0,
        current_content: Some(Content(3, RECORD.to_owned())),
        previous_content: Some(Content(2, "##reference=GRCh37.p13".to_owned())),
        errors: ErrorMap::new(),
    };

    let v = DataBeforeHeader::default().validate(&item).unwrap();

    assert!(v.is_some());
}

#[test]
fn empty_vcf_test_valid() {
    let item = Global {
        config: &Config::default(),
        validated: false,
        header: true,
        count: 1,
        current_content: None,
        previous_content: None,
        errors: ErrorMap::new(),
    };

    let v = EmptyVCF::default().validate(&item).unwrap();

    assert!(v.is_none());
}

#[test]
fn empty_vcf_test_invalid_data_before_header() {
    let item = Global {
        config: &Config::default(),
        validated: false,
        header: true,
        count: 0,
        current_content: None,
        previous_content: None,
        errors: ErrorMap::new(),
    };

    let v = EmptyVCF::default().validate(&item).unwrap();

    assert!(v.is_some());
}

#[test]
fn blank_line_reports_its_identity_and_message() {
    let config = Config::default();
    let mut item = Global::new(&config);
    item.current_content = Some(Content(7, String::new()));

    let e = BlankLine::default().validate(&item).unwrap().unwrap();

    assert_eq!(e.id, "JV_VR0006");
    assert_eq!(e.name, "Global/BlankLine");
    assert_eq!(e.id, BlankLine::id());
    assert_eq!(e.name, BlankLine::name());
    assert_eq!(e.level, Level::Error);
    assert_eq!(e.message, "Blank line found. This line will be ignored.");
}

#[test]
fn blank_line_without_current_line_is_a_finding() {
    let config = Config::default();
    let item = Global::new(&config);

    assert!(BlankLine::default().validate(&item).unwrap().is_some());
}

#[test]
fn disabled_global_rules_report_nothing() {
    let config = Config::default();
    let item = Global::new(&config);

    let mut blank = BlankLine::default();
    blank.enabled = false;
    let mut before = DataBeforeHeader::default();
    before.enabled = false;
    let mut empty = EmptyVCF::default();
    empty.enabled = false;

    assert!(blank.validate(&item).unwrap().is_none());
    assert!(before.validate(&item).unwrap().is_none());
    assert!(empty.validate(&item).unwrap().is_none());
}

#[test]
fn data_before_header_spares_marked_lines() {
    let config = Config::default();
    let mut item = Global::new(&config);
    item.current_content = Some(Content(1, "##fileformat=VCFv4.3".to_owned()));
    assert!(DataBeforeHeader::default().validate(&item).unwrap().is_none());

    item.current_content = Some(Content(1, HEADER.to_owned()));
    assert!(DataBeforeHeader::default().validate(&item).unwrap().is_none());

    item.current_content = None;
    assert!(DataBeforeHeader::default().validate(&item).unwrap().is_some());
}

#[test]
fn global_push_counts_lines_and_sees_the_header() {
    let config = Config::default();
    let mut global = Global::new(&config);
    assert_eq!(global.count, 0);
    assert!(!global.header);

    global.push(&Content(1, "##fileformat=VCFv4.3".to_owned())).unwrap();
    assert_eq!(global.count, 1);
    assert!(!global.header);
    assert!(global.errors.get(Some(1)).is_none());

    global.push(&Content(2, HEADER.to_owned())).unwrap();
    assert_eq!(global.count, 2);
    assert!(global.header);

    global.push(&Content(3, RECORD.to_owned())).unwrap();
    assert_eq!(global.count, 3);
    assert!(global.errors.get(Some(3)).is_none());
    assert_eq!(global.previous_content.as_ref().unwrap().0, 3);
    assert_eq!(global.current_content.as_ref().unwrap().1, RECORD);

    global.validate().unwrap();
    assert!(global.validated);
    assert!(global.errors.get(None).is_none());
    assert!(global.errors.line_numbers().is_empty());
}

#[test]
fn global_push_reports_data_before_header_then_blank_line() {
    let config = Config::default();
    let mut global = Global::new(&config);

    global.push(&Content(1, "".to_owned())).unwrap();
    global.push(&Content(2, RECORD.to_owned())).unwrap();

    let first = global.errors.get(Some(1)).unwrap();
    assert_eq!(first.len(), 2);
    assert_eq!(first[0].id, "JV_VR0004");
    assert_eq!(first[0].level, Level::Warning);
    assert_eq!(
        first[0].message,
        "Data line found before header line. This line will be ignored."
    );
    assert_eq!(first[1].id, "JV_VR0006");

    let second = global.errors.get(Some(2)).unwrap();
    assert_eq!(second.len(), 1);
    assert_eq!(second[0].id, "JV_VR0004");

    assert_eq!(global.errors.line_numbers(), vec![1, 2]);
    assert_eq!(global.errors.line(1).unwrap().1, "");
    assert_eq!(global.errors.line(2).unwrap().1, RECORD);
    assert!(global.errors.line(3).is_none());
}

#[test]
fn global_ignores_lines_after_validate() {
    let config = Config::default();
    let mut global = Global::new(&config);
    global.validate().unwrap();

    let at_end = global.errors.get(None).unwrap();
    assert_eq!(at_end.len(), 1);
    assert_eq!(at_end[0].id, "JV_VR0007");
    assert_eq!(at_end[0].name, "Global/EmptyVCF");
    assert_eq!(at_end[0].message, "No records found in VCF.");

    global.push(&Content(1, "".to_owned())).unwrap();
    assert_eq!(global.count, 0);
    assert!(global.errors.get(Some(1)).is_none());

    global.validate().unwrap();
    assert_eq!(global.errors.get(None).unwrap().len(), 1);
}

#[test]
fn global_push_fails_on_a_broken_template_and_stays_as_it_was() {
    let mut config = Config::default();
    config.blank_line.message = "{{ unclosed".to_owned();
    let mut global = Global::new(&config);

    let r = global.push(&Content(1, "".to_owned()));

    assert!(matches!(r, Err(namahage::errors::Fault::Template(_))));
    assert_eq!(global.count, 0);
    assert!(global.current_content.is_none());
    assert!(global.errors.get(Some(1)).is_none());
}

#[test]
fn examine_reports_without_changing_the_validator() {
    let config = Config::default();
    let mut global = Global::new(&config);

    let found = global.examine(&Content(1, "".to_owned())).unwrap();
    assert_eq!(found.len(), 2);
    assert_eq!(found[0].id, "JV_VR0004");
    assert_eq!(found[1].id, "JV_VR0006");
    assert_eq!(global.count, 0);
    assert!(global.current_content.is_none());
    assert!(global.errors.get(Some(1)).is_none());

    global.accept(&Content(1, "".to_owned()), found);
    assert_eq!(global.count, 1);
    assert_eq!(global.errors.get(Some(1)).unwrap().len(), 2);

    global.validate().unwrap();
    assert!(global.examine(&Content(2, "".to_owned())).unwrap().is_empty());
    global.accept(&Content(2, "".to_owned()), Vec::new());
    assert_eq!(global.count, 1);
}

#[test]
fn error_map_keeps_errors_by_key_in_order() {
    let error = |id: &'static str| ValidationError {
        id,
        name: "n",
        level: Level::Warning,
        message: id.to_lowercase(),
    };
    let mut map = ErrorMap::new();
    assert!(map.get(None).is_none());
    assert!(map.line_numbers().is_empty());

    map.push_or_insert(Some(Content(7, "seven".to_owned())), error("A"));
    map.push_or_insert(Some(Content(2, "two".to_owned())), error("B"));
    map.push_or_insert(None, error("C"));
    map.push_or_insert(Some(Content(7, "again".to_owned())), error("D"));
    map.extend(Some(&Content(5, "five".to_owned())), vec![error("E"), error("F")]);
    map.extend(Some(&Content(9, "nine".to_owned())), Vec::new());
    map.extend(None, vec![error("G")]);

    assert_eq!(map.line_numbers(), vec![2, 5, 7]);
    let ids = |key| map.get(key).unwrap().iter().map(|e| e.id).collect::<Vec<_>>();
    assert_eq!(ids(Some(7)), vec!["A", "D"]);
    assert_eq!(ids(Some(2)), vec!["B"]);
    assert_eq!(ids(Some(5)), vec!["E", "F"]);
    assert_eq!(ids(None), vec!["C", "G"]);
    assert!(map.get(Some(9)).is_none());
    assert_eq!(map.line(7).unwrap().1, "seven");
    assert_eq!(map.line(5).unwrap().1, "five");
    assert!(map.line(9).is_none());
    assert_eq!(map.get(Some(7)).unwrap()[1].message, "d");
}

#[test]
fn report_makes_the_error_from_the_rendered_message() {
    let made = report("JV_X", "Some/Rule", Level::Warning, Ok("text".to_owned()))
        .unwrap()
        .unwrap();
    assert_eq!(made.id, "JV_X");
    assert_eq!(made.name, "Some/Rule");
    assert_eq!(made.level, Level::Warning);
    assert_eq!(made.message, "text");

    let copy = made.clone();
    assert_eq!(copy.id, "JV_X");
    assert_eq!(copy.message, "text");
}
