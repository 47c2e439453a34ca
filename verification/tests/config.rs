use namahage::config::Config;
use namahage::config::Lang;
use namahage::validator::data::deletion_length::DeletionLength;
use namahage::validator::global::blank_line::BlankLine;
use namahage::validator::meta_information::version::Version;
use namahage::validator::Level;
use namahage::vcf::classify;
use namahage::vcf::starts_with_marker;
use namahage::vcf::Content;
use namahage::vcf::LineKind;

#[test]
fn default_language_is_english() {
    assert_eq!(Lang::default(), Lang::EN);
    assert_eq!(Lang::EN.code(), "EN");
    assert_eq!(Lang::JA.code(), "JA");
    assert_eq!(Level::default(), Level::Unset);
}

#[test]
fn default_configuration_has_every_rule_enabled_in_english() {
    let config = Config::default();

    assert_eq!(config.language, None);
    assert_eq!(config.language(), Lang::EN);

    assert!(config.file_format.enabled);
    assert_eq!(config.file_format.level, Level::Error);
    assert!(config.version.enabled);
    assert_eq!(config.version.level, Level::Warning);
    assert_eq!(config.version.allowed, vec!["VCFv4.2", "VCFv4.3"]);
    assert_eq!(config.header_line.level, Level::Error);
    assert_eq!(config.header_column.level, Level::Error);
    assert_eq!(config.duplicated_header.level, Level::Warning);
    assert_eq!(config.data_before_header.level, Level::Warning);
    assert_eq!(config.blank_line.level, Level::Error);
    assert_eq!(config.empty_vcf.level, Level::Error);
    assert_eq!(config.allowed_alternate_base.allowed, vec!["A", "C", "G", "T", "U"]);
    assert_eq!(config.allowed_reference_base.allowed, vec!["A", "C", "G", "T", "U"]);
    assert_eq!(
        config.ambiguous_alternate_base.disallowed,
        vec!["R", "Y", "S", "W", "K", "M", "B", "D", "H", "V", "N"]
    );
    assert_eq!(
        config.ambiguous_reference_base.disallowed,
        vec!["R", "Y", "S", "W", "K", "M", "B", "D", "H", "V", "N"]
    );
    assert_eq!(config.missing_alternate_base.disallowed, vec![".", "-"]);
    assert_eq!(config.missing_reference_base.disallowed, vec![".", "-"]);
    assert_eq!(config.deletion_length.max, 50);
    assert_eq!(config.insertion_length.max, 50);
    for level in [
        config.allowed_alternate_base.level,
        config.allowed_reference_base.level,
        config.ambiguous_alternate_base.level,
        config.ambiguous_reference_base.level,
        config.deletion_length.level,
        config.discontiguous_chromosome.level,
        config.identical_bases.level,
        config.insertion_length.level,
        config.mismatch_reference_base.level,
        config.missing_alternate_base.level,
        config.missing_reference_base.level,
        config.multiple_alternate_alleles.level,
        config.position_format.level,
        config.unsorted_position.level,
    ] {
        assert_eq!(level, Level::Warning);
    }
    assert_eq!(config.empty_vcf.message, "No records found in VCF.");
    assert_eq!(config.position_format.message, "POS should be a number.");
}

#[test]
fn localized_rules_carry_the_message_of_the_language() {
    assert_eq!(
        BlankLine::localized(Lang::JA).message,
        "VCFに空のデータ行が見つかりました、この行は無視されます。"
    );
    assert_eq!(
        BlankLine::localized(Lang::EN).message,
        BlankLine::default().message
    );
    assert_eq!(
        Version::localized(Lang::JA).message,
        "予期しないVCFバージョンです。期待されるバージョンは{{allowed}}です。"
    );
    assert_eq!(Version::localized(Lang::JA).allowed, vec!["VCFv4.2", "VCFv4.3"]);
    assert_eq!(
        DeletionLength::localized(Lang::JA).message,
        "欠損される塩基の長さが許容値を超えています。上限は{{max}}です。"
    );

    let config = Config::localized(Lang::JA);
    assert_eq!(config.language, Some(Lang::JA));
    assert_eq!(config.language(), Lang::JA);
    assert_eq!(config.identical_bases.message, "REFとALTの塩基が同一です。");
    assert_eq!(config.empty_vcf.message, "VCFにレコードが存在しません。");
}

#[test]
fn the_language_is_fixed_once() {
    let mut config = Config::default();
    config.deletion_length.max = 7;

    assert_eq!(config.init_language(Lang::JA), Ok(()));
    assert_eq!(config.language(), Lang::JA);
    assert_eq!(config.multiple_alternate_alleles.message, "ALTに複数の変異が含まれます。");
    assert_eq!(config.deletion_length.max, 50);

    config.deletion_length.max = 7;
    assert_eq!(config.init_language(Lang::EN), Err(Lang::EN));
    assert_eq!(config.language(), Lang::JA);
    assert_eq!(config.multiple_alternate_alleles.message, "ALTに複数の変異が含まれます。");
    assert_eq!(config.deletion_length.max, 7);

    assert_eq!(config.init_language(Lang::JA), Err(Lang::JA));
}

#[test]
fn lines_are_told_apart_by_their_markers() {
    assert_eq!(classify("##fileformat=VCFv4.3"), LineKind::MetaInformation);
    assert_eq!(classify("##"), LineKind::MetaInformation);
    assert_eq!(classify("#CHROM\tPOS"), LineKind::Header);
    assert_eq!(classify("#"), LineKind::Header);
    assert_eq!(classify("chr1\t1"), LineKind::Record);
    assert_eq!(classify(""), LineKind::Record);
    assert_eq!(classify(" #"), LineKind::Record);

    assert!(starts_with_marker("#"));
    assert!(starts_with_marker("##x"));
    assert!(!starts_with_marker(""));
    assert!(!starts_with_marker("x#"));
}

#[test]
fn content_clones_to_an_equal_content() {
    let content = Content(3, "chr1\t1".to_owned());
    let copy = content.clone();
    assert_eq!(copy.0, 3);
    assert_eq!(copy.1, "chr1\t1");
}

#[test]
fn content_is_shown_with_its_number() {
    assert_eq!(Content(4, "chr1\t1".to_owned()).to_string(), "L4: chr1\t1");
    assert_eq!(Content(0, String::new()).to_string(), "L0: ");
    assert_eq!(
        Content(18446744073709551615, "x".to_owned()).to_string(),
        "L18446744073709551615: x"
    );
}

#[test]
fn contents_are_equal_by_number_and_text_and_ordered_by_number() {
    let a = Content(3, "x".to_owned());
    assert!(a == Content(3, "x".to_owned()));
    assert!(a != Content(4, "x".to_owned()));
    assert!(a != Content(3, "y".to_owned()));

    assert!(a.precedes(&Content(4, "a".to_owned())));
    assert!(!a.precedes(&Content(3, "z".to_owned())));
    assert!(!a.precedes(&Content(2, "z".to_owned())));
}
