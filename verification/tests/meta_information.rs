use namahage::config::Config;
use namahage::validator::meta_information::file_format::FileFormat;
use namahage::validator::meta_information::is_allowed_declaration;
use namahage::validator::meta_information::is_declared;
use namahage::validator::meta_information::version::Version;
use namahage::validator::meta_information::which_declare;
use namahage::validator::meta_information::MetaInformation;
use namahage::validator::Level;
use namahage::vcf::Content;

#[test]
fn file_format_test_valid() {
    let item = MetaInformation {
        config: &Config::default(),
        validated: false,
        contents: vec![
            Content(1, String::from("##fileformat=VCFv4.3")),
            Content(2, String::from("##reference=GRCh37.p13")),
        ],
        errors: vec![],
    };

    let v = FileFormat::default().validate(&item).unwrap();

    assert!(v.is_none());
}

#[test]
fn test_invalid_not_first_line() {
    let item = MetaInformation {
        config: &Config::default(),
        validated: false,
        contents: vec![
            Content(2, String::from("##fileformat=VCFv4.3")),
            Content(3, String::from("##reference=GRCh37.p13")),
        ],
        errors: vec![],
    };

    let v = FileFormat::default().validate(&item).unwrap();

    assert!(v.is_some());
}

#[test]
fn version_test_valid() {
    let item = MetaInformation {
        config: &Config::default(),
        validated: false,
        contents: vec![
            Content(1, String::from("##fileformat=VCFv4.3")),
            Content(2, String::from("##reference=GRCh37.p13")),
        ],
        errors: vec![],
    };

    let v = Version::default().validate(&item).unwrap();

    assert!(v.is_none());
}

#[test]
fn test_invalid_disallowed_value() {
    let item = MetaInformation {
        config: &Config::default(),
        validated: false,
        contents: vec![
            Content(1, String::from("##fileformat=VCFv4.1")),
            Content(2, String::from("##reference=GRCh37.p13")),
        ],
        errors: vec![],
    };

    let v = Version::default().validate(&item).unwrap();

    assert!(v.is_some());
}

#[test]
fn which_declare_matches_the_pattern_anywhere_in_the_line() {
    let contents = vec![
        Content(1, String::from("##fileformat=VCFv4.3")),
        Content(2, String::from("##reference=GRCh37.p13")),
        Content(3, String::from("##note=see fileformat=above")),
        Content(4, String::from("##fileformat")),
    ];

    assert_eq!(which_declare(&contents).unwrap(), vec![true, false, true, false]);
    assert_eq!(which_declare(&Vec::new()).unwrap(), Vec::<bool>::new());
}

#[test]
fn is_declared_wants_one_declaration_in_line_one_of_an_allowed_version() {
    let allowed = vec![String::from("VCFv4.2"), String::from("VCFv4.3")];
    let contents = vec![
        Content(1, String::from("##fileformat=VCFv4.2")),
        Content(2, String::from("##reference=GRCh37.p13")),
    ];

    assert!(is_declared(&contents, &vec![true, false], &allowed));
    assert!(!is_declared(&contents, &vec![false, false], &allowed));
    assert!(!is_declared(&contents, &vec![true, true], &allowed));
    assert!(!is_declared(&contents, &vec![false, true], &allowed));
    assert!(!is_declared(&contents, &vec![true], &allowed));
    assert!(!is_declared(&contents, &vec![true, false], &Vec::new()));
    assert!(!is_declared(&Vec::new(), &Vec::new(), &allowed));

    let later = vec![Content(2, String::from("##fileformat=VCFv4.2"))];
    assert!(!is_declared(&later, &vec![true], &allowed));
}

#[test]
fn is_allowed_declaration_compares_the_whole_line() {
    let allowed = vec![String::from("VCFv4.2"), String::from("VCFv4.3")];

    assert!(is_allowed_declaration(&String::from("##fileformat=VCFv4.3"), &allowed));
    assert!(!is_allowed_declaration(&String::from("##fileformat=VCFv4.1"), &allowed));
    assert!(!is_allowed_declaration(&String::from("##fileformat=VCFv4.3 "), &allowed));
    assert!(!is_allowed_declaration(&String::from("fileformat=VCFv4.3"), &allowed));
    assert!(!is_allowed_declaration(&String::from("VCFv4.3"), &allowed));
}

#[test]
fn file_format_goes_by_the_versions_of_the_version_rule() {
    let config = Config::default();
    let mut item = MetaInformation::new(&config);
    item.push(&Content(1, String::from("##fileformat=VCFv4.1")));

    let e = FileFormat::default().validate(&item).unwrap().unwrap();
    assert_eq!(e.id, "JV_VR0001");
    assert_eq!(e.name, "MetaInformation/FileFormat");
    assert_eq!(e.level, Level::Error);
    assert_eq!(
        e.message,
        "A single `fileformat` line is always required, must be the first line in the file."
    );

    let mut lenient = Config::default();
    lenient.version.allowed.push(String::from("VCFv4.1"));
    let mut item = MetaInformation::new(&lenient);
    item.push(&Content(1, String::from("##fileformat=VCFv4.1")));
    assert!(FileFormat::default().validate(&item).unwrap().is_none());
    assert!(Version::default().validate(&item).unwrap().is_some());
    assert!(lenient.version.validate(&item).unwrap().is_none());
}

#[test]
fn version_renders_the_allowed_versions() {
    let config = Config::default();
    let item = MetaInformation::new(&config);

    let e = Version::default().validate(&item).unwrap().unwrap();

    assert_eq!(e.id, "JV_VR0012");
    assert_eq!(e.name, "MetaInformation/Version");
    assert_eq!(e.level, Level::Warning);
    assert_eq!(
        e.message,
        "Unexpected VCF version. Expected values are VCFv4.2, VCFv4.3."
    );
}

#[test]
fn two_declarations_are_a_finding() {
    let config = Config::default();
    let mut item = MetaInformation::new(&config);
    item.push(&Content(1, String::from("##fileformat=VCFv4.3")));
    item.push(&Content(2, String::from("##fileformat=VCFv4.3")));

    assert!(FileFormat::default().validate(&item).unwrap().is_some());
    assert!(Version::default().validate(&item).unwrap().is_some());
}

#[test]
fn disabled_meta_rules_report_nothing() {
    let config = Config::default();
    let item = MetaInformation::new(&config);

    let mut format = FileFormat::default();
    format.enabled = false;
    let mut version = Version::default();
    version.enabled = false;
    assert!(format.validate(&item).unwrap().is_none());
    assert!(version.validate(&item).unwrap().is_none());
}

#[test]
fn meta_validate_asks_both_rules_in_order_once() {
    let config = Config::default();
    let mut meta = MetaInformation::new(&config);
    meta.push(&Content(2, String::from("##fileformat=VCFv4.3")));
    meta.validate().unwrap();

    let ids: Vec<&str> = meta.errors.iter().map(|e| e.id).collect();
    assert_eq!(ids, vec!["JV_VR0001", "JV_VR0012"]);

    meta.push(&Content(3, String::from("##reference=GRCh37.p13")));
    assert_eq!(meta.contents.len(), 1);
    meta.validate().unwrap();
    assert_eq!(meta.errors.len(), 2);

    let mut meta = MetaInformation::new(&config);
    meta.push(&Content(1, String::from("##fileformat=VCFv4.2")));
    meta.push(&Content(2, String::from("##reference=GRCh37.p13")));
    meta.validate().unwrap();
    assert!(meta.errors.is_empty());
    assert!(meta.validated);
}
