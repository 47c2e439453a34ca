//! The configuration of the rule catalogue.

use vstd::prelude::*;
use vstd::string::StringExecFns;

use crate::validator::data::allowed_alternate_base::AllowedAlternateBase;
use crate::validator::data::allowed_reference_base::AllowedReferenceBase;
use crate::validator::data::ambiguous_alternate_base::AmbiguousAlternateBase;
use crate::validator::data::ambiguous_reference_base::AmbiguousReferenceBase;
use crate::validator::data::deletion_length::DeletionLength;
use crate::validator::data::discontiguous_chromosome::DiscontiguousChromosome;
use crate::validator::data::identical_bases::IdenticalBases;
use crate::validator::data::insertion_length::InsertionLength;
use crate::validator::data::mismatch_reference_base::MismatchReferenceBase;
use crate::validator::data::missing_alternate_base::MissingAlternateBase;
use crate::validator::data::missing_reference_base::MissingReferenceBase;
use crate::validator::data::multiple_alternate_alleles::MultipleAlternateAlleles;
use crate::validator::data::position_format::PositionFormat;
use crate::validator::data::unsorted_position::UnsortedPosition;
use crate::validator::global::blank_line::BlankLine;
use crate::validator::global::data_before_header::DataBeforeHeader;
use crate::validator::global::empty_vcf::EmptyVCF;
use crate::validator::header::duplicated_header::DuplicatedHeader;
use crate::validator::header::header_column::HeaderColumn;
use crate::validator::header::header_line::HeaderLine;
use crate::validator::meta_information::file_format::FileFormat;
use crate::validator::meta_information::version::Version;

verus! {

/// The languages in which the rules' default messages exist.
#[derive(Debug, Copy, Clone, PartialEq, Eq, Structural)]
pub enum Lang {
    /// English.
    EN,
    /// Japanese.
    JA,
}

impl Default for Lang {
    /// English.
    fn default() -> (lang: Lang)
        ensures
            lang == Lang::EN,
    {
        Lang::EN
    }
}

impl Lang {
    /// The language's code in capital letters.
    pub fn code(&self) -> (code: String)
        ensures
            code@ == match *self {
                Lang::EN => "EN"@,
                Lang::JA => "JA"@,
            },
    {
        match self {
            Lang::EN => String::from_str("EN"),
            Lang::JA => String::from_str("JA"),
        }
    }
}

/// What identifies a rule whatever its configuration: a code and a name.
pub trait Base {
    /// The rule's code.
    spec fn rule_id() -> Seq<char>;

    /// The rule's name: its category and its own name with `/` between.
    spec fn rule_name() -> Seq<char>;

    /// The rule's code.
    fn id() -> (id: &'static str)
        ensures
            id@ == Self::rule_id(),
    ;

    /// The rule's name.
    fn name() -> (name: &'static str)
        ensures
            name@ == Self::rule_name(),
    ;
}

/// The configuration of every rule, and the language that the default
/// messages were asked in.
#[derive(Debug)]
pub struct Config {
    /// The language that was fixed, if one was.
    pub language: Option<Lang>,
    /// The rule [`FileFormat`].
    pub file_format: FileFormat,
    /// The rule [`Version`].
    pub version: Version,
    /// The rule [`HeaderLine`].
    pub header_line: HeaderLine,
    /// The rule [`HeaderColumn`].
    pub header_column: HeaderColumn,
    /// The rule [`DuplicatedHeader`].
    pub duplicated_header: DuplicatedHeader,
    /// The rule [`DataBeforeHeader`].
    pub data_before_header: DataBeforeHeader,
    /// The rule [`BlankLine`].
    pub blank_line: BlankLine,
    /// The rule [`EmptyVCF`].
    pub empty_vcf: EmptyVCF,
    /// The rule [`AllowedAlternateBase`].
    pub allowed_alternate_base: AllowedAlternateBase,
    /// The rule [`AllowedReferenceBase`].
    pub allowed_reference_base: AllowedReferenceBase,
    /// The rule [`AmbiguousAlternateBase`].
    pub ambiguous_alternate_base: AmbiguousAlternateBase,
    /// The rule [`AmbiguousReferenceBase`].
    pub ambiguous_reference_base: AmbiguousReferenceBase,
    /// The rule [`DeletionLength`].
    pub deletion_length: DeletionLength,
    /// The rule [`DiscontiguousChromosome`].
    pub discontiguous_chromosome: DiscontiguousChromosome,
    /// The rule [`IdenticalBases`].
    pub identical_bases: IdenticalBases,
    /// The rule [`InsertionLength`].
    pub insertion_length: InsertionLength,
    /// The rule [`MismatchReferenceBase`].
    pub mismatch_reference_base: MismatchReferenceBase,
    /// The rule [`MissingAlternateBase`].
    pub missing_alternate_base: MissingAlternateBase,
    /// The rule [`MissingReferenceBase`].
    pub missing_reference_base: MissingReferenceBase,
    /// The rule [`MultipleAlternateAlleles`].
    pub multiple_alternate_alleles: MultipleAlternateAlleles,
    /// The rule [`PositionFormat`].
    pub position_format: PositionFormat,
    /// The rule [`UnsortedPosition`].
    pub unsorted_position: UnsortedPosition,
}

impl Config {
    /// Every rule is as it is by default, with its message in `lang`.
    pub open spec fn is_default_in(&self, lang: Lang) -> bool {
        &&& self.file_format.is_default_in(lang)
        &&& self.version.is_default_in(lang)
        &&& self.header_line.is_default_in(lang)
        &&& self.header_column.is_default_in(lang)
        &&& self.duplicated_header.is_default_in(lang)
        &&& self.data_before_header.is_default_in(lang)
        &&& self.blank_line.is_default_in(lang)
        &&& self.empty_vcf.is_default_in(lang)
        &&& self.allowed_alternate_base.is_default_in(lang)
        &&& self.allowed_reference_base.is_default_in(lang)
        &&& self.ambiguous_alternate_base.is_default_in(lang)
        &&& self.ambiguous_reference_base.is_default_in(lang)
        &&& self.deletion_length.is_default_in(lang)
        &&& self.discontiguous_chromosome.is_default_in(lang)
        &&& self.identical_bases.is_default_in(lang)
        &&& self.insertion_length.is_default_in(lang)
        &&& self.mismatch_reference_base.is_default_in(lang)
        &&& self.missing_alternate_base.is_default_in(lang)
        &&& self.missing_reference_base.is_default_in(lang)
        &&& self.multiple_alternate_alleles.is_default_in(lang)
        &&& self.position_format.is_default_in(lang)
        &&& self.unsorted_position.is_default_in(lang)
    }

    /// The default configuration with the messages in `lang`, which is from
    /// then on its language.
    pub fn localized(lang: Lang) -> (config: Config)
        ensures
            config.language == Some(lang),
            config.is_default_in(lang),
    {
        Config {
            language: Some(lang),
            file_format: FileFormat::localized(lang),
            version: Version::localized(lang),
            header_line: HeaderLine::localized(lang),
            header_column: HeaderColumn::localized(lang),
            duplicated_header: DuplicatedHeader::localized(lang),
            data_before_header: DataBeforeHeader::localized(lang),
            blank_line: BlankLine::localized(lang),
            empty_vcf: EmptyVCF::localized(lang),
            allowed_alternate_base: AllowedAlternateBase::localized(lang),
            allowed_reference_base: AllowedReferenceBase::localized(lang),
            ambiguous_alternate_base: AmbiguousAlternateBase::localized(lang),
            ambiguous_reference_base: AmbiguousReferenceBase::localized(lang),
            deletion_length: DeletionLength::localized(lang),
            discontiguous_chromosome: DiscontiguousChromosome::localized(lang),
            identical_bases: IdenticalBases::localized(lang),
            insertion_length: InsertionLength::localized(lang),
            mismatch_reference_base: MismatchReferenceBase::localized(lang),
            missing_alternate_base: MissingAlternateBase::localized(lang),
            missing_reference_base: MissingReferenceBase::localized(lang),
            multiple_alternate_alleles: MultipleAlternateAlleles::localized(lang),
            position_format: PositionFormat::localized(lang),
            unsorted_position: UnsortedPosition::localized(lang),
        }
    }

    /// Fixes the language, which can be done once. Where none was fixed yet,
    /// the configuration becomes the default one in `lang`; where one was, it
    /// stays as it is and `lang` comes back.
    pub fn init_language(&mut self, lang: Lang) -> (r: Result<(), Lang>)
        ensures
            match old(self).language {
                None => {
                    &&& r == Ok::<(), Lang>(())
                    &&& final(self).language == Some(lang)
                    &&& final(self).is_default_in(lang)
                },
                Some(_) => r == Err::<(), Lang>(lang) && *final(self) == *old(self),
            },
    {
        if self.language.is_none() {
            *self = Config::localized(lang);
            Ok(())
        } else {
            Err(lang)
        }
    }

    /// The language that was fixed, or the default one where none was.
    pub fn language(&self) -> (lang: Lang)
        ensures
            lang == match self.language {
                Some(fixed) => fixed,
                None => Lang::EN,
            },
    {
        match self.language {
            Some(fixed) => fixed,
            None => Lang::default(),
        }
    }
}

impl Default for Config {
    /// Every rule as it is by default, with its message in English; the
    /// language is not fixed yet.
    fn default() -> (config: Config)
        ensures
            config.language is None,
            config.is_default_in(Lang::EN),
    {
        Config {
            language: None,
            file_format: FileFormat::localized(Lang::EN),
            version: Version::localized(Lang::EN),
            header_line: HeaderLine::localized(Lang::EN),
            header_column: HeaderColumn::localized(Lang::EN),
            duplicated_header: DuplicatedHeader::localized(Lang::EN),
            data_before_header: DataBeforeHeader::localized(Lang::EN),
            blank_line: BlankLine::localized(Lang::EN),
            empty_vcf: EmptyVCF::localized(Lang::EN),
            allowed_alternate_base: AllowedAlternateBase::localized(Lang::EN),
            allowed_reference_base: AllowedReferenceBase::localized(Lang::EN),
            ambiguous_alternate_base: AmbiguousAlternateBase::localized(Lang::EN),
            ambiguous_reference_base: AmbiguousReferenceBase::localized(Lang::EN),
            deletion_length: DeletionLength::localized(Lang::EN),
            discontiguous_chromosome: DiscontiguousChromosome::localized(Lang::EN),
            identical_bases: IdenticalBases::localized(Lang::EN),
            insertion_length: InsertionLength::localized(Lang::EN),
            mismatch_reference_base: MismatchReferenceBase::localized(Lang::EN),
            missing_alternate_base: MissingAlternateBase::localized(Lang::EN),
            missing_reference_base: MissingReferenceBase::localized(Lang::EN),
            multiple_alternate_alleles: MultipleAlternateAlleles::localized(Lang::EN),
            position_format: PositionFormat::localized(Lang::EN),
            unsorted_position: UnsortedPosition::localized(Lang::EN),
        }
    }
}

} // verus!
