use namahage::config::Base;
use namahage::config::Config;
use namahage::errors::Fault;
use namahage::validator::data::allowed_alternate_base::AllowedAlternateBase;
use namahage::validator::data::allowed_reference_base::AllowedReferenceBase;
use namahage::validator::data::ambiguous_alternate_base::AmbiguousAlternateBase;
use namahage::validator::data::ambiguous_reference_base::AmbiguousReferenceBase;
use namahage::validator::data::deletion_length::DeletionLength;
use namahage::validator::data::discontiguous_chromosome::DiscontiguousChromosome;
use namahage::validator::data::identical_bases::IdenticalBases;
use namahage::validator::data::insertion_length::InsertionLength;
use namahage::validator::data::mismatch_reference_base::MismatchReferenceBase;
use namahage::validator::data::missing_alternate_base::MissingAlternateBase;
use namahage::validator::data::missing_reference_base::MissingReferenceBase;
use namahage::validator::data::multiple_alternate_alleles::MultipleAlternateAlleles;
use namahage::validator::data::position_format::PositionFormat;
use namahage::validator::data::unsorted_position::UnsortedPosition;
use namahage::validator::data::Chromosomes;
use namahage::validator::data::Data;
use namahage::validator::data::Fetched;
use namahage::validator::data::ReferenceQuery;
use namahage::validator::findings::ErrorMap;
use namahage::validator::Level;
use namahage::vcf::Content;

#[test]
fn allowed_alternate_base_test_valid() {
    let item = Data {
        config: &Config::default(),
        faidx: None,
        validated: false,
        content: None,
        chromosomes: Chromosomes::new(),
        current_record: Some(vec![
                "NC_000001.10".to_owned(),
                "10001".to_owned(),
                "rs1570391677".to_owned(),
                "T".to_owned(),
                "ACGTU".to_owned(),
                ".".to_owned(),
                ".".to_owned(),
                ".".to_owned(),
            ]),
        previous_record: None,
        errors: ErrorMap::new(),
    };

    let v = AllowedAlternateBase::default().validate(&item).unwrap();

    assert!(v.is_none());
}

#[test]
fn allowed_alternate_base_test_invalid_alt_contains_n() {
    let item = Data {
        config: &Config::default(),
        faidx: None,
        validated: false,
        content: None,
        chromosomes: Chromosomes::new(),
        current_record: Some(vec![
                "NC_000001.10".to_owned(),
                "10001".to_owned(),
                "rs1570391677".to_owned(),
                "T".to_owned(),
                "ACGTUN".to_owned(),
                ".".to_owned(),
                ".".to_owned(),
                ".".to_owned(),
            ]),
        previous_record: None,
        errors: ErrorMap::new(),
    };

    let v = AllowedAlternateBase::default().validate(&item).unwrap();

    assert!(v.is_some());
}

#[test]
fn allowed_reference_base_test_valid() {
    let item = Data {
        config: &Config::default(),
        faidx: None,
        validated: false,
        content: None,
        chromosomes: Chromosomes::new(),
        current_record: Some(vec![
                "NC_000001.10".to_owned(),
                "10001".to_owned(),
                "rs1570391677".to_owned(),
                "ACGTU".to_owned(),
                "A".to_owned(),
                ".".to_owned(),
                ".".to_owned(),
                ".".to_owned(),
            ]),
        previous_record: None,
        errors: ErrorMap::new(),
    };

    let v = AllowedReferenceBase::default().validate(&item).unwrap();

    assert!(v.is_none());
}

#[test]
fn allowed_reference_base_test_invalid_ref_contains_n() {
    let item = Data {
        config: &Config::default(),
        faidx: None,
        validated: false,
        content: None,
        chromosomes: Chromosomes::new(),
        current_record: Some(vec![
                "NC_000001.10".to_owned(),
                "10001".to_owned(),
                "rs1570391677".to_owned(),
                "ACGTUN".to_owned(),
                "A".to_owned(),
                ".".to_owned(),
                ".".to_owned(),
                ".".to_owned(),
            ]),
        previous_record: None,
        errors: ErrorMap::new(),
    };

    let v = AllowedReferenceBase::default().validate(&item).unwrap();

    assert!(v.is_some());
}

#[test]
fn ambiguous_reference_base_test_valid() {
    let item = Data {
        config: &Config::default(),
        faidx: None,
        validated: false,
        content: None,
        chromosomes: Chromosomes::new(),
        current_record: Some(vec![
                "NC_000001.10".to_owned(),
                "10001".to_owned(),
                "rs1570391677".to_owned(),
                "T".to_owned(),
                "A".to_owned(),
                ".".to_owned(),
                ".".to_owned(),
                ".".to_owned(),
            ]),
        previous_record: None,
        errors: ErrorMap::new(),
    };

    let v = AmbiguousReferenceBase::default().validate(&item).unwrap();

    assert!(v.is_none());
}

#[test]
fn ambiguous_reference_base_test_invalid_ref_contains_n() {
    let item = Data {
        config: &Config::default(),
        faidx: None,
        validated: false,
        content: None,
        chromosomes: Chromosomes::new(),
        current_record: Some(vec![
                "NC_000001.10".to_owned(),
                "10001".to_owned(),
                "rs1570391677".to_owned(),
                "N".to_owned(),
                "A".to_owned(),
                ".".to_owned(),
                ".".to_owned(),
                ".".to_owned(),
            ]),
        previous_record: None,
        errors: ErrorMap::new(),
    };

    let v = AmbiguousReferenceBase::default().validate(&item).unwrap();

    assert!(v.is_some());
}

#[test]
fn ambiguous_alternate_base_test_valid() {
    let item = Data {
        config: &Config::default(),
        faidx: None,
        validated: false,
        content: None,
        chromosomes: Chromosomes::new(),
        current_record: Some(vec![
                "NC_000001.10".to_owned(),
                "10001".to_owned(),
                "rs1570391677".to_owned(),
                "T".to_owned(),
                "A".to_owned(),
                ".".to_owned(),
                ".".to_owned(),
                ".".to_owned(),
            ]),
        previous_record: None,
        errors: ErrorMap::new(),
    };

    let v = AmbiguousAlternateBase::default().validate(&item).unwrap();

    assert!(v.is_none());
}

#[test]
fn ambiguous_alternate_base_test_invalid_alt_contains_n() {
    let item = Data {
        config: &Config::default(),
        faidx: None,
        validated: false,
        content: None,
        chromosomes: Chromosomes::new(),
        current_record: Some(vec![
                "NC_000001.10".to_owned(),
                "10001".to_owned(),
                "rs1570391677".to_owned(),
                "T".to_owned(),
                "N".to_owned(),
                ".".to_owned(),
                ".".to_owned(),
                ".".to_owned(),
            ]),
        previous_record: None,
        errors: ErrorMap::new(),
    };

    let v = AmbiguousAlternateBase::default().validate(&item).unwrap();

    assert!(v.is_some());
}

#[test]
fn missing_alternate_base_test_valid() {
    let item = Data {
        config: &Config::default(),
        faidx: None,
        validated: false,
        content: None,
        chromosomes: Chromosomes::new(),
        current_record: Some(vec![
                "NC_000001.10".to_owned(),
                "10001".to_owned(),
                "rs1570391677".to_owned(),
                "T".to_owned(),
                "A".to_owned(),
                ".".to_owned(),
                ".".to_owned(),
                ".".to_owned(),
            ]),
        previous_record: None,
        errors: ErrorMap::new(),
    };

    let v = MissingAlternateBase::default().validate(&item).unwrap();

    assert!(v.is_none());
}

#[test]
fn test_invalid_alt_is_dot() {
    let item = Data {
        config: &Config::default(),
        faidx: None,
        validated: false,
        content: None,
        chromosomes: Chromosomes::new(),
        current_record: Some(vec![
                "NC_000001.10".to_owned(),
                "10001".to_owned(),
                "rs1570391677".to_owned(),
                "T".to_owned(),
                ".".to_owned(),
                ".".to_owned(),
                ".".to_owned(),
                ".".to_owned(),
            ]),
        previous_record: None,
        errors: ErrorMap::new(),
    };

    let v = MissingAlternateBase::default().validate(&item).unwrap();

    assert!(v.is_some());
}

#[test]
fn missing_reference_base_test_valid() {
    let item = Data {
        config: &Config::default(),
        faidx: None,
        validated: false,
        content: None,
        chromosomes: Chromosomes::new(),
        current_record: Some(vec![
                "NC_000001.10".to_owned(),
                "10001".to_owned(),
                "rs1570391677".to_owned(),
                "T".to_owned(),
                "A".to_owned(),
                ".".to_owned(),
                ".".to_owned(),
                ".".to_owned(),
            ]),
        previous_record: None,
        errors: ErrorMap::new(),
    };

    let v = MissingReferenceBase::default().validate(&item).unwrap();

    assert!(v.is_none());
}

#[test]
fn test_invalid_ref_is_dot() {
    let item = Data {
        config: &Config::default(),
        faidx: None,
        validated: false,
        content: None,
        chromosomes: Chromosomes::new(),
        current_record: Some(vec![
                "NC_000001.10".to_owned(),
                "10001".to_owned(),
                "rs1570391677".to_owned(),
                ".".to_owned(),
                "A".to_owned(),
                ".".to_owned(),
                ".".to_owned(),
                ".".to_owned(),
            ]),
        previous_record: None,
        errors: ErrorMap::new(),
    };

    let v = MissingReferenceBase::default().validate(&item).unwrap();

    assert!(v.is_some());
}

#[test]
fn multiple_alternate_alleles_test_valid() {
    let item = Data {
        config: &Config::default(),
        faidx: None,
        validated: false,
        content: None,
        chromosomes: Chromosomes::new(),
        current_record: Some(vec![
                "NC_000001.10".to_owned(),
                "10001".to_owned(),
                "rs1570391677".to_owned(),
                "T".to_owned(),
                "A".to_owned(),
                ".".to_owned(),
                ".".to_owned(),
                ".".to_owned(),
            ]),
        previous_record: None,
        errors: ErrorMap::new(),
    };

    let v = MultipleAlternateAlleles::default().validate(&item).unwrap();

    assert!(v.is_none());
}

#[test]
fn test_invalid_alt_is_multi_allelic() {
    let item = Data {
        config: &Config::default(),
        faidx: None,
        validated: false,
        content: None,
        chromosomes: Chromosomes::new(),
        current_record: Some(vec![
                "NC_000001.10".to_owned(),
                "10001".to_owned(),
                "rs1570391677".to_owned(),
                "T".to_owned(),
                "A,C".to_owned(),
                ".".to_owned(),
                ".".to_owned(),
                ".".to_owned(),
            ]),
        previous_record: None,
        errors: ErrorMap::new(),
    };

    let v = MultipleAlternateAlleles::default().validate(&item).unwrap();

    assert!(v.is_some());
}

#[test]
fn identical_bases_test_valid() {
    let item = Data {
        config: &Config::default(),
        faidx: None,
        validated: false,
        content: None,
        chromosomes: Chromosomes::new(),
        current_record: Some(vec![
                "NC_000001.10".to_owned(),
                "10001".to_owned(),
                "rs1570391677".to_owned(),
                "T".to_owned(),
                "A".to_owned(),
                ".".to_owned(),
                ".".to_owned(),
                ".".to_owned(),
            ]),
        previous_record: None,
        errors: ErrorMap::new(),
    };

    let v = IdenticalBases::default().validate(&item).unwrap();

    assert!(v.is_none());
}

#[test]
fn test_invalid_ref_and_alt_are_same() {
    let item = Data {
        config: &Config::default(),
        faidx: None,
        validated: false,
        content: None,
        chromosomes: Chromosomes::new(),
        current_record: Some(vec![
                "NC_000001.10".to_owned(),
                "10001".to_owned(),
                "rs1570391677".to_owned(),
                "T".to_owned(),
                "T".to_owned(),
                ".".to_owned(),
                ".".to_owned(),
                ".".to_owned(),
            ]),
        previous_record: None,
        errors: ErrorMap::new(),
    };

    let v = IdenticalBases::default().validate(&item).unwrap();

    assert!(v.is_some());
}

#[test]
fn position_format_test_valid() {
    let item = Data {
        config: &Config::default(),
        faidx: None,
        validated: false,
        content: None,
        chromosomes: Chromosomes::new(),
        current_record: Some(vec![
                "NC_000001.10".to_owned(),
                "10001".to_owned(),
                "rs1570391677".to_owned(),
                "T".to_owned(),
                "A".to_owned(),
                ".".to_owned(),
                ".".to_owned(),
                ".".to_owned(),
            ]),
        previous_record: None,
        errors: ErrorMap::new(),
    };

    let v = PositionFormat::default().validate(&item).unwrap();

    assert!(v.is_none());
}

#[test]
fn position_format_test_invalid_data_before_header() {
    let item = Data {
        config: &Config::default(),
        faidx: None,
        validated: false,
        content: None,
        chromosomes: Chromosomes::new(),
        current_record: Some(vec![
                "NC_000001.10".to_owned(),
                "".to_owned(),
                "rs1570391677".to_owned(),
                "T".to_owned(),
                "A".to_owned(),
                ".".to_owned(),
                ".".to_owned(),
                ".".to_owned(),
            ]),
        previous_record: None,
        errors: ErrorMap::new(),
    };

    let v = PositionFormat::default().validate(&item).unwrap();

    assert!(v.is_some());
}

#[test]
fn test_valid_length_of_deletion_is_within_limit() {
    let item = Data {
        config: &Config::default(),
        faidx: None,
        validated: false,
        content: None,
        chromosomes: Chromosomes::new(),
        current_record: Some(vec![
                "NC_000001.10".to_owned(),
                "10001".to_owned(),
                "rs1570391677".to_owned(),
                std::iter::repeat("T").take(50).collect::<String>(),
                "T".to_owned(),
                ".".to_owned(),
                ".".to_owned(),
                ".".to_owned(),
            ]),
        previous_record: None,
        errors: ErrorMap::new(),
    };

    let v = DeletionLength::default().validate(&item).unwrap();

    assert!(v.is_none());
}

#[test]
fn test_invalid_length_of_deletion_is_over_limit() {
    let item = Data {
        config: &Config::default(),
        faidx: None,
        validated: false,
        content: None,
        chromosomes: Chromosomes::new(),
        current_record: Some(vec![
                "NC_000001.10".to_owned(),
                "10001".to_owned(),
                "rs1570391677".to_owned(),
                std::iter::repeat("T").take(51).collect::<String>(),
                "T".to_owned(),
                ".".to_owned(),
                ".".to_owned(),
                ".".to_owned(),
            ]),
        previous_record: None,
        errors: ErrorMap::new(),
    };

    let v = DeletionLength::default().validate(&item).unwrap();

    assert!(v.is_some());
}

#[test]
fn test_valid_length_of_insertion_is_within_limit() {
    let item = Data {
        config: &Config::default(),
        faidx: None,
        validated: false,
        content: None,
        chromosomes: Chromosomes::new(),
        current_record: Some(vec![
                "NC_000001.10".to_owned(),
                "10001".to_owned(),
                "rs1570391677".to_owned(),
                "T".to_owned(),
                std::iter::repeat("T").take(50).collect::<String>(),
                ".".to_owned(),
                ".".to_owned(),
                ".".to_owned(),
            ]),
        previous_record: None,
        errors: ErrorMap::new(),
    };

    let v = InsertionLength::default().validate(&item).unwrap();

    assert!(v.is_none());
}

#[test]
fn test_invalid_length_of_insertion_is_over_limit() {
    let item = Data {
        config: &Config::default(),
        faidx: None,
        validated: false,
        content: None,
        chromosomes: Chromosomes::new(),
        current_record: Some(vec![
                "NC_000001.10".to_owned(),
                "10001".to_owned(),
                "rs1570391677".to_owned(),
                "T".to_owned(),
                std::iter::repeat("T").take(51).collect::<String>(),
                ".".to_owned(),
                ".".to_owned(),
                ".".to_owned(),
            ]),
        previous_record: None,
        errors: ErrorMap::new(),
    };

    let v = InsertionLength::default().validate(&item).unwrap();

    assert!(v.is_some());
}

#[test]
fn unsorted_position_test_valid() {
    let item = Data {
        config: &Config::default(),
        faidx: None,
        validated: false,
        content: None,
        chromosomes: Chromosomes::new(),
        current_record: Some(vec![
                "NC_000002.11".to_owned(),
                "10007".to_owned(),
                "rs1572047073".to_owned(),
                "C".to_owned(),
                "A".to_owned(),
                ".".to_owned(),
                ".".to_owned(),
                ".".to_owned(),
            ]),
        previous_record: Some(vec![
                "NC_000001.10".to_owned(),
                "10026".to_owned(),
                "rs1570391712".to_owned(),
                "A".to_owned(),
                "C".to_owned(),
                ".".to_owned(),
                ".".to_owned(),
                ".".to_owned(),
            ]),
        errors: ErrorMap::new(),
    };

    let v = UnsortedPosition::default().validate(&item).unwrap();

    assert!(v.is_none());
}

#[test]
fn test_valid_first_record() {
    let item = Data {
        config: &Config::default(),
        faidx: None,
        validated: false,
        content: None,
        chromosomes: Chromosomes::new(),
        current_record: Some(vec![
                "NC_000001.10".to_owned(),
                "10002".to_owned(),
                "rs1570391692".to_owned(),
                "A".to_owned(),
                "C".to_owned(),
                ".".to_owned(),
                ".".to_owned(),
                ".".to_owned(),
            ]),
        previous_record: None,
        errors: ErrorMap::new(),
    };

    let v = UnsortedPosition::default().validate(&item).unwrap();

    assert!(v.is_none());
}

#[test]
fn test_invalid_unsorted_position() {
    let item = Data {
        config: &Config::default(),
        faidx: None,
        validated: false,
        content: None,
        chromosomes: Chromosomes::new(),
        current_record: Some(vec![
                "NC_000001.10".to_owned(),
                "10001".to_owned(),
                "rs1570391677".to_owned(),
                "T".to_owned(),
                "A".to_owned(),
                ".".to_owned(),
                ".".to_owned(),
                ".".to_owned(),
            ]),
        previous_record: Some(vec![
                "NC_000001.10".to_owned(),
                "10002".to_owned(),
                "rs1570391692".to_owned(),
                "A".to_owned(),
                "C".to_owned(),
                ".".to_owned(),
                ".".to_owned(),
                ".".to_owned(),
            ]),
        errors: ErrorMap::new(),
    };

    let v = UnsortedPosition::default().validate(&item).unwrap();

    assert!(v.is_some());
}

#[test]
fn discontiguous_chromosome_test_valid() {
    let item = Data {
        config: &Config::default(),
        faidx: None,
        validated: false,
        content: None,
        chromosomes: Chromosomes::new(),
        current_record: Some(vec![
                "NC_000001.10".to_owned(),
                "10002".to_owned(),
                "rs1570391692".to_owned(),
                "A".to_owned(),
                "C".to_owned(),
                ".".to_owned(),
                ".".to_owned(),
                ".".to_owned(),
            ]),
        previous_record: None,
        errors: ErrorMap::new(),
    };

    let v = DiscontiguousChromosome::default().validate(&item).unwrap();

    assert!(v.is_none());
}

#[test]
fn test_valid_2() {
    let mut chromosomes = Chromosomes::new();
    chromosomes.insert("NC_000001.10".to_owned());
    let item = Data {
        config: &Config::default(),
        faidx: None,
        validated: false,
        content: None,
        chromosomes: chromosomes,
        current_record: Some(vec![
                "NC_000002.11".to_owned(),
                "10007".to_owned(),
                "rs1572047073".to_owned(),
                "C".to_owned(),
                "A".to_owned(),
                ".".to_owned(),
                ".".to_owned(),
                ".".to_owned(),
            ]),
        previous_record: Some(vec![
                "NC_000001.10".to_owned(),
                "10001".to_owned(),
                "rs1570391677".to_owned(),
                "T".to_owned(),
                "A".to_owned(),
                ".".to_owned(),
                ".".to_owned(),
                ".".to_owned(),
            ]),
        errors: ErrorMap::new(),
    };

    let v = DiscontiguousChromosome::default().validate(&item).unwrap();

    assert!(v.is_none());
}

#[test]
fn discontiguous_chromosome_test_invalid_data_before_header() {
    let mut chromosomes = Chromosomes::new();
    chromosomes.insert("NC_000001.10".to_owned());
    chromosomes.insert("NC_000002.11".to_owned());
    let item = Data {
        config: &Config::default(),
        faidx: None,
        validated: false,
        content: None,
        chromosomes: chromosomes,
        current_record: Some(vec![
                "NC_000001.10".to_owned(),
                "10001".to_owned(),
                "rs1570391677".to_owned(),
                "T".to_owned(),
                "A".to_owned(),
                ".".to_owned(),
                ".".to_owned(),
                ".".to_owned(),
            ]),
        previous_record: Some(vec![
                "NC_000002.11".to_owned(),
                "10007".to_owned(),
                "rs1572047073".to_owned(),
                "C".to_owned(),
                "A".to_owned(),
                ".".to_owned(),
                ".".to_owned(),
                ".".to_owned(),
            ]),
        errors: ErrorMap::new(),
    };

    let v = DiscontiguousChromosome::default().validate(&item).unwrap();

    assert!(v.is_some());
}

#[test]
fn mismatch_reference_base_test_valid() {
    let item = Data {
        config: &Config::default(),
        faidx: Some(Fetched {
            query: ReferenceQuery { chrom: "NC_000001.10".to_owned(), begin: 10000, end: 10000 },
            sequence: Some(b"T".to_vec()),
        }),
        validated: false,
        content: None,
        chromosomes: Chromosomes::new(),
        current_record: Some(vec![
                "NC_000001.10".to_owned(),
                "10001".to_owned(),
                "rs1570391677".to_owned(),
                "T".to_owned(),
                "A".to_owned(),
                ".".to_owned(),
                ".".to_owned(),
                ".".to_owned(),
            ]),
        previous_record: None,
        errors: ErrorMap::new(),
    };

    let v = MismatchReferenceBase::default().validate(&item).unwrap();

    assert!(v.is_none());

    let item = Data {
        config: &Config::default(),
        faidx: Some(Fetched {
            query: ReferenceQuery { chrom: "NC_000001.10".to_owned(), begin: 10107, end: 10113 },
            sequence: Some(b"CAACCCT".to_vec()),
        }),
        validated: false,
        content: None,
        chromosomes: Chromosomes::new(),
        current_record: Some(vec![
                "NC_000001.10".to_owned(),
                "10108".to_owned(),
                "rs1377973775".to_owned(),
                "CAACCCT".to_owned(),
                "C".to_owned(),
                ".".to_owned(),
                ".".to_owned(),
                ".".to_owned(),
            ]),
        previous_record: None,
        errors: ErrorMap::new(),
    };

    let v = MismatchReferenceBase::default().validate(&item).unwrap();

    assert!(v.is_none());
}

#[test]
fn test_invalid_reference_differs_from_fasta() {
    let item = Data {
        config: &Config::default(),
        faidx: Some(Fetched {
            query: ReferenceQuery { chrom: "NC_000001.10".to_owned(), begin: 10000, end: 10000 },
            sequence: Some(b"T".to_vec()),
        }),
        validated: false,
        content: None,
        chromosomes: Chromosomes::new(),
        current_record: Some(vec![
                "NC_000001.10".to_owned(),
                "10001".to_owned(),
                "rs1570391677".to_owned(),
                "G".to_owned(),
                "A".to_owned(),
                ".".to_owned(),
                ".".to_owned(),
                ".".to_owned(),
            ]),
        previous_record: None,
        errors: ErrorMap::new(),
    };

    let v = MismatchReferenceBase::default().validate(&item).unwrap();

    assert!(v.is_some());
}

fn fields(chrom: &str, pos: &str, reference: &str, alternate: &str) -> Vec<String> {
    vec![
        chrom.to_owned(),
        pos.to_owned(),
        ".".to_owned(),
        reference.to_owned(),
        alternate.to_owned(),
        ".".to_owned(),
        ".".to_owned(),
        ".".to_owned(),
    ]
}

fn looking_at<'a>(config: &'a Config, current: Vec<String>) -> Data<'a> {
    let mut item = Data::new(config, None);
    item.current_record = Some(current);
    item
}

#[test]
fn unsorted_position_of_the_same_and_of_another_chromosome() {
    let config = Config::default();
    let mut item = looking_at(&config, fields("NC_1", "10001", "T", "A"));
    item.previous_record = Some(fields("NC_1", "10026", "A", "C"));
    let e = UnsortedPosition::default().validate(&item).unwrap().unwrap();
    assert_eq!(e.id, "JV_VR0026");
    assert_eq!(e.name, "Data/UnsortedPosition");
    assert_eq!(e.level, Level::Warning);

    let mut item = looking_at(&config, fields("NC_2", "10007", "T", "A"));
    item.previous_record = Some(fields("NC_1", "10026", "A", "C"));
    assert!(UnsortedPosition::default().validate(&item).unwrap().is_none());

    let mut item = looking_at(&config, fields("NC_1", "10026", "T", "A"));
    item.previous_record = Some(fields("NC_1", "10026", "A", "C"));
    assert!(UnsortedPosition::default().validate(&item).unwrap().is_none());

    let mut item = looking_at(&config, fields("NC_1", "-3", "T", "A"));
    item.previous_record = Some(fields("NC_1", "-4", "A", "C"));
    assert!(UnsortedPosition::default().validate(&item).unwrap().is_none());

    let mut item = looking_at(&config, fields("NC_1", "x", "T", "A"));
    item.previous_record = Some(fields("NC_1", "1", "A", "C"));
    assert!(UnsortedPosition::default().validate(&item).unwrap().is_some());
}

#[test]
fn insertion_and_deletion_lengths_against_the_default_maximum() {
    let config = Config::default();
    let one = "A".to_owned();
    let ten = "ACGTACGTAC".to_owned();
    let many = "ACGT".repeat(13);
    assert_eq!(many.len(), 52);

    let item = looking_at(&config, fields("1", "1", &one, &many));
    let e = InsertionLength::default().validate(&item).unwrap().unwrap();
    assert_eq!(e.id, "JV_VR0031");
    assert_eq!(e.name, "Record/InsertionLength");
    assert_eq!(
        e.message,
        "The length of the insertion exceeds the allowed value. Maximum of length is 50."
    );
    assert!(DeletionLength::default().validate(&item).unwrap().is_none());

    let item = looking_at(&config, fields("1", "1", &many, &one));
    let e = DeletionLength::default().validate(&item).unwrap().unwrap();
    assert_eq!(e.id, "JV_VR0037");
    assert_eq!(e.name, "Record/DeletionLength");
    assert_eq!(
        e.message,
        "The length of the deletion exceeds the allowed value. Maximum of length is 50."
    );
    assert!(InsertionLength::default().validate(&item).unwrap().is_none());

    let item = looking_at(&config, fields("1", "1", &ten, &ten));
    assert!(InsertionLength::default().validate(&item).unwrap().is_none());
    assert!(DeletionLength::default().validate(&item).unwrap().is_none());
}

#[test]
fn lengths_count_the_nucleotides_at_the_beginning_only() {
    let config = Config::default();
    let long_tail = format!("A<{}>", "T".repeat(60));
    let item = looking_at(&config, fields("1", "1", "A", &long_tail));
    assert!(InsertionLength::default().validate(&item).unwrap().is_none());

    let lower = "acgtn".repeat(11);
    let item = looking_at(&config, fields("1", "1", "A", &lower));
    assert!(InsertionLength::default().validate(&item).unwrap().is_some());

    let item = looking_at(&config, vec!["1".to_owned(), "1".to_owned()]);
    assert!(InsertionLength::default().validate(&item).unwrap().is_some());
    assert!(DeletionLength::default().validate(&item).unwrap().is_some());
}

#[test]
fn exceeds_is_the_difference_of_the_runs_against_the_maximum() {
    let insertion = InsertionLength::default();
    assert!(insertion.exceeds(Some(1), Some(51)));
    assert!(!insertion.exceeds(Some(1), Some(50)));
    assert!(!insertion.exceeds(Some(51), Some(1)));
    assert!(insertion.exceeds(None, Some(50)));
    assert!(!insertion.exceeds(None, None));

    let deletion = DeletionLength::default();
    assert!(deletion.exceeds(Some(51), Some(1)));
    assert!(!deletion.exceeds(Some(50), Some(1)));
    assert!(!deletion.exceeds(Some(1), Some(51)));
    assert!(deletion.exceeds(Some(50), None));

    let mut none = InsertionLength::default();
    none.max = 0;
    assert!(none.exceeds(Some(3), Some(3)));
    assert!(!none.exceeds(Some(4), Some(3)));
}

#[test]
fn allowed_bases_render_the_allowed_set() {
    let config = Config::default();
    let item = looking_at(&config, fields("1", "1", "ACGTUN", "A,x"));

    let e = AllowedReferenceBase::default().validate(&item).unwrap().unwrap();
    assert_eq!(e.id, "JV_VR0030");
    assert_eq!(e.name, "Data/AllowedReferenceBase");
    assert_eq!(e.level, Level::Warning);
    assert_eq!(
        e.message,
        "The reference sequence contains characters not allowed. Available characters are A, C, G, T, U."
    );

    let e = AllowedAlternateBase::default().validate(&item).unwrap().unwrap();
    assert_eq!(e.id, AllowedAlternateBase::id());
    assert_eq!(e.name, AllowedAlternateBase::name());
    assert_eq!(e.id, "JV_VR0036");
    assert_eq!(e.name, "Data/AllowedAlternateBase");
    assert_eq!(
        e.message,
        "The alternate sequence contains characters not allowed. Available characters are A, C, G, T, U."
    );

    let item = looking_at(&config, fields("1", "1", "", "A,C,,GT"));
    assert!(AllowedReferenceBase::default().validate(&item).unwrap().is_none());
    assert!(AllowedAlternateBase::default().validate(&item).unwrap().is_none());

    let item = looking_at(&config, fields("1", "1", "A,C", "A"));
    assert!(AllowedReferenceBase::default().validate(&item).unwrap().is_some());

    let mut wide = AllowedReferenceBase::default();
    wide.allowed.push("NN".to_owned());
    let item = looking_at(&config, fields("1", "1", "AN", "A"));
    assert!(wide.validate(&item).unwrap().is_some());
    wide.allowed.push("N".to_owned());
    assert!(wide.validate(&item).unwrap().is_none());
}

#[test]
fn disallowed_tokens_are_searched_as_substrings() {
    let config = Config::default();
    let item = looking_at(&config, fields("1", "1", "AC-GT", "ACRGT"));

    let e = MissingReferenceBase::default().validate(&item).unwrap().unwrap();
    assert_eq!(e.id, "JV_VR0029");
    assert_eq!(e.name, "Record/MissingReferenceBase");
    assert_eq!(
        e.message,
        "The reference sequence is missing. Refrain from using ., -."
    );
    assert!(MissingAlternateBase::default().validate(&item).unwrap().is_none());

    let e = AmbiguousAlternateBase::default().validate(&item).unwrap().unwrap();
    assert_eq!(e.id, "JV_VR0034");
    assert_eq!(e.name, "Record/AmbiguousAlternateBase");
    assert_eq!(
        e.message,
        "The alternate sequence contains IUPAC ambiguity codes. Refrain from using R, Y, S, W, K, M, B, D, H, V, N."
    );
    assert!(AmbiguousReferenceBase::default().validate(&item).unwrap().is_none());

    let mut two = MissingAlternateBase::default();
    two.disallowed = vec!["RG".to_owned()];
    assert!(two.validate(&item).unwrap().is_some());
    two.disallowed = vec!["GR".to_owned()];
    assert!(two.validate(&item).unwrap().is_none());
    two.disallowed = vec![String::new()];
    assert!(two.validate(&item).unwrap().is_some());
    two.disallowed = Vec::new();
    assert!(two.validate(&item).unwrap().is_none());
}

#[test]
fn rules_report_a_missing_record_or_field() {
    let config = Config::default();
    let none = Data::new(&config, None);
    let short = looking_at(&config, vec!["1".to_owned()]);

    for item in [&none, &short] {
        assert!(AllowedAlternateBase::default().validate(item).unwrap().is_some());
        assert!(AllowedReferenceBase::default().validate(item).unwrap().is_some());
        assert!(AmbiguousAlternateBase::default().validate(item).unwrap().is_some());
        assert!(AmbiguousReferenceBase::default().validate(item).unwrap().is_some());
        assert!(MissingAlternateBase::default().validate(item).unwrap().is_some());
        assert!(MissingReferenceBase::default().validate(item).unwrap().is_some());
        assert!(MultipleAlternateAlleles::default().validate(item).unwrap().is_some());
        assert!(PositionFormat::default().validate(item).unwrap().is_some());
        assert!(UnsortedPosition::default().validate(item).unwrap().is_none());
        assert!(DiscontiguousChromosome::default().validate(item).unwrap().is_none());
        assert!(MismatchReferenceBase::default().validate(item).unwrap().is_none());
    }
    assert!(IdenticalBases::default().validate(&none).unwrap().is_some());
    assert!(IdenticalBases::default().validate(&short).unwrap().is_some());
    let three = looking_at(&config, fields("1", "1", "A", "C")[..4].to_vec());
    assert!(IdenticalBases::default().validate(&three).unwrap().is_none());
}

#[test]
fn disabled_record_rules_report_nothing() {
    let config = Config::default();
    let item = Data::new(&config, None);

    let mut a = AllowedAlternateBase::default();
    a.enabled = false;
    assert!(a.validate(&item).unwrap().is_none());
    let mut b = IdenticalBases::default();
    b.enabled = false;
    assert!(b.validate(&item).unwrap().is_none());
    let mut c = InsertionLength::default();
    c.enabled = false;
    assert!(c.validate(&item).unwrap().is_none());
    let mut d = PositionFormat::default();
    d.enabled = false;
    assert!(d.validate(&item).unwrap().is_none());
    let mut e = MissingReferenceBase::default();
    e.enabled = false;
    assert!(e.validate(&item).unwrap().is_none());
}

#[test]
fn position_format_wants_an_unsigned_number() {
    let config = Config::default();
    for (pos, ok) in [
        ("0", true),
        ("10001", true),
        ("+7", true),
        ("007", true),
        ("18446744073709551615", true),
        ("18446744073709551616", false),
        ("-1", false),
        ("+", false),
        ("1e3", false),
        (" 1", false),
        ("1.0", false),
        ("１", false),
    ] {
        let item = looking_at(&config, fields("1", pos, "A", "C"));
        let v = PositionFormat::default().validate(&item).unwrap();
        assert_eq!(v.is_none(), ok, "POS {:?}", pos);
    }
}

#[test]
fn mismatch_compares_without_case_and_reports_both_texts() {
    let config = Config::default();
    let answer = |sequence: Option<&[u8]>| Fetched {
        query: ReferenceQuery { chrom: "chr1".to_owned(), begin: 99, end: 101 },
        sequence: sequence.map(|s| s.to_vec()),
    };

    let mut item = looking_at(&config, fields("chr1", "100", "AcG", "T"));
    item.faidx = Some(answer(Some(b"aCg")));
    assert!(MismatchReferenceBase::default().validate(&item).unwrap().is_none());

    item.faidx = Some(answer(Some(b"ACT")));
    let e = MismatchReferenceBase::default().validate(&item).unwrap().unwrap();
    assert_eq!(e.id, "JV_VR0033");
    assert_eq!(e.name, "Data/MismatchReferenceBase");
    assert_eq!(e.level, Level::Warning);
    assert_eq!(
        e.message,
        "The REF bases do not match the bases in the reference sequences. VCF = \"AcG\", FASTA = \"ACT\""
    );

    item.faidx = Some(answer(None));
    let e = MismatchReferenceBase::default().validate(&item).unwrap().unwrap();
    assert_eq!(
        e.message,
        "The REF bases do not match the bases in the reference sequences. VCF = \"AcG\", FASTA = \"Failed to obtain sequence from FASTA\""
    );

    item.faidx = Some(answer(Some(&[0xff, 0xfe, 0x41])));
    let e = MismatchReferenceBase::default().validate(&item).unwrap().unwrap();
    assert!(e.message.ends_with("FASTA = \"Failed to obtain sequence from FASTA\""));

    item.faidx = None;
    assert!(MismatchReferenceBase::default().validate(&item).unwrap().is_none());

    let mut off = MismatchReferenceBase::default();
    off.enabled = false;
    item.faidx = Some(answer(Some(b"ACT")));
    assert!(off.validate(&item).unwrap().is_none());
}

#[test]
fn mismatch_abstains_from_an_answer_for_another_interval() {
    let config = Config::default();
    let mut item = looking_at(&config, fields("chr1", "100", "ACG", "T"));
    for (chrom, begin, end) in [("chr2", 99, 101), ("chr1", 100, 101), ("chr1", 99, 100)] {
        item.faidx = Some(Fetched {
            query: ReferenceQuery { chrom: chrom.to_owned(), begin, end },
            sequence: Some(b"TTT".to_vec()),
        });
        assert!(MismatchReferenceBase::default().validate(&item).unwrap().is_none());
    }
}

#[test]
fn query_is_the_interval_of_the_reference() {
    let q = MismatchReferenceBase::query(&Some(fields("chr1", "10108", "CAACCCT", "C"))).unwrap();
    assert_eq!(q.chrom, "chr1");
    assert_eq!(q.begin, 10107);
    assert_eq!(q.end, 10113);

    let q = MismatchReferenceBase::query(&Some(fields("chr1", "1", "A", "C"))).unwrap();
    assert_eq!((q.begin, q.end), (0, 0));

    let q = MismatchReferenceBase::query(&Some(vec!["chr1".to_owned(), "5".to_owned()])).unwrap();
    assert_eq!((q.begin, q.end), (4, 23));
    assert_eq!(
        MismatchReferenceBase::reference_of(&Some(vec!["chr1".to_owned()])),
        "Failed to obtain REF"
    );

    assert!(MismatchReferenceBase::query(&Some(fields("chr1", "0", "A", "C"))).is_none());
    assert!(MismatchReferenceBase::query(&Some(fields("chr1", "x", "A", "C"))).is_none());
    assert!(MismatchReferenceBase::query(&Some(fields("chr1", "7", "", "C"))).is_none());
    assert!(MismatchReferenceBase::query(&Some(vec!["chr1".to_owned()])).is_none());
    assert!(MismatchReferenceBase::query(&None).is_none());
    let last = usize::MAX.to_string();
    assert!(MismatchReferenceBase::query(&Some(fields("chr1", &last, "ACG", "C"))).is_none());
    let q = MismatchReferenceBase::query(&Some(fields("chr1", &last, "AC", "C"))).unwrap();
    assert_eq!((q.begin, q.end), (usize::MAX - 1, usize::MAX));

    assert!(MismatchReferenceBase::differs(&"a".to_owned(), &"b".to_owned()));
    assert!(!MismatchReferenceBase::differs(&"a".to_owned(), &"a".to_owned()));
}

#[test]
fn chromosomes_keep_each_name_once() {
    let mut names = Chromosomes::new();
    assert!(!names.contains(&"A".to_owned()));
    assert!(names.insert("A".to_owned()));
    assert!(names.insert("B".to_owned()));
    assert!(!names.insert("A".to_owned()));
    assert!(names.contains(&"A".to_owned()));
    assert!(names.contains(&"B".to_owned()));
    assert!(!names.contains(&"C".to_owned()));
    assert_eq!(names.names(), vec!["A".to_owned(), "B".to_owned()]);
}

fn pushed<'a>(config: &'a Config, chroms: &[&str]) -> Data<'a> {
    let mut data = Data::new(config, None);
    for (i, chrom) in chroms.iter().enumerate() {
        let text = format!("{}\t{}\t.\tA\tC\t.\t.\t.", chrom, 100 + i);
        data.push(&Content(i + 1, text)).unwrap();
    }
    data
}

#[test]
fn a_chromosome_that_comes_back_is_reported_once_it_comes_back() {
    let config = Config::default();

    let data = pushed(&config, &["A", "B", "A"]);
    assert!(data.errors.get(Some(1)).is_none());
    assert!(data.errors.get(Some(2)).is_none());
    let third = data.errors.get(Some(3)).unwrap();
    assert_eq!(third.len(), 1);
    assert_eq!(third[0].id, "JV_VR0025");
    assert_eq!(third[0].name, "Record/DiscontiguousChromosome");
    assert_eq!(
        third[0].message,
        "CHROM must form a contiguous block within the VCF file."
    );
    assert_eq!(data.errors.line_numbers(), vec![3]);

    let data = pushed(&config, &["A", "A", "B", "B"]);
    assert!(data.errors.line_numbers().is_empty());
    assert!(data.chromosomes.contains(&"A".to_owned()));
    assert!(data.chromosomes.contains(&"B".to_owned()));
}

#[test]
fn data_push_splits_the_line_and_shifts_the_record() {
    let config = Config::default();
    let mut data = Data::new(&config, None);

    data.push(&Content(1, "#CHROM\tPOS".to_owned())).unwrap();
    assert!(data.current_record.is_none());
    assert!(data.content.is_none());

    data.push(&Content(2, "1\t5\trs1\tA\tC\t.\t.\t.".to_owned())).unwrap();
    assert_eq!(data.current_record, Some(fields("1", "5", "A", "C").iter().enumerate().map(|(i, f)| if i == 2 { "rs1".to_owned() } else { f.clone() }).collect()));
    assert_eq!(data.previous_record, data.current_record);
    assert_eq!(data.content.as_ref().unwrap().0, 2);
    assert!(data.errors.get(Some(2)).is_none());

    data.validate();
    assert!(data.validated);
    data.push(&Content(3, "".to_owned())).unwrap();
    assert_eq!(data.content.as_ref().unwrap().0, 2);
    assert!(data.errors.get(Some(3)).is_none());
}

#[test]
fn data_push_reports_in_the_order_of_the_rules() {
    let config = Config::default();
    let mut data = Data::new(&config, None);

    data.push(&Content(1, "1\t5\t.\tN\tN,.\t.\t.\t.".to_owned())).unwrap();
    data.push(&Content(2, "".to_owned())).unwrap();

    let ids: Vec<&str> = data.errors.get(Some(1)).unwrap().iter().map(|e| e.id).collect();
    assert_eq!(
        ids,
        vec!["JV_VR0036", "JV_VR0030", "JV_VR0034", "JV_VR0028", "JV_VR0035", "JV_VR0038"]
    );

    let ids: Vec<&str> = data.errors.get(Some(2)).unwrap().iter().map(|e| e.id).collect();
    assert_eq!(
        ids,
        vec![
            "JV_VR0036", "JV_VR0030", "JV_VR0034", "JV_VR0028", "JV_VR0037", "JV_VR0027",
            "JV_VR0031", "JV_VR0035", "JV_VR0029", "JV_VR0038", "JV_VR0024",
        ]
    );
    assert!(data.chromosomes.contains(&String::new()));
}

#[test]
fn data_push_fails_on_a_broken_template_and_stays_as_it_was() {
    let mut config = Config::default();
    config.identical_bases.message = "{% if %}".to_owned();
    let mut data = Data::new(&config, None);
    data.push(&Content(1, "1\t5\t.\tA\tC\t.\t.\t.".to_owned())).unwrap();

    let r = data.push(&Content(2, "1\t6\t.\tA\tA\t.\t.\t.".to_owned()));

    assert!(matches!(r, Err(Fault::Template(_))));
    assert_eq!(data.content.as_ref().unwrap().0, 1);
    assert_eq!(data.current_record.as_ref().unwrap()[1], "5");
    assert!(data.errors.get(Some(2)).is_none());
}

#[test]
fn data_query_is_for_the_record_of_the_line() {
    let config = Config::default();
    let mut data = Data::new(&config, None);

    let q = data.query(&Content(4, "chr1\t100\t.\tACG\tT".to_owned())).unwrap();
    assert_eq!((q.chrom.as_str(), q.begin, q.end), ("chr1", 99, 101));
    assert!(data.query(&Content(4, "#chr1\t100\t.\tACG\tT".to_owned())).is_none());
    assert!(data.query(&Content(4, "chr1".to_owned())).is_none());

    data.faidx = Some(Fetched { query: q, sequence: Some(b"ACT".to_vec()) });
    data.push(&Content(4, "chr1\t100\t.\tACG\tT".to_owned())).unwrap();
    let ids: Vec<&str> = data.errors.get(Some(4)).unwrap().iter().map(|e| e.id).collect();
    assert_eq!(ids, vec!["JV_VR0033"]);

    data.push(&Content(5, "chr1\t200\t.\tACG\tT".to_owned())).unwrap();
    assert!(data.errors.get(Some(5)).is_none());

    data.validate();
    assert!(data.query(&Content(6, "chr1\t100\t.\tACG\tT".to_owned())).is_none());
}

#[test]
fn measure_run_counts_the_bytes_of_the_leading_nucleotides() {
    use_measure("", 0);
    use_measure("ACGT", 4);
    use_measure("acgtn", 5);
    use_measure("ACGTxACGT", 4);
    use_measure("<DEL>", 0);
    use_measure("N.", 1);
    use_measure("\u{212a}\u{17f}A", 6);
    use_measure("塩A", 0);
}

fn use_measure(bases: &str, expected: usize) {
    let found = namahage::validator::data::measure_run(bases).unwrap();
    assert_eq!(found, Some(expected), "{:?}", bases);
}
