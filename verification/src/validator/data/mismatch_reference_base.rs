//! The rule `MismatchReferenceBase`.

use vstd::prelude::*;
use vstd::string::StringExecFns;
use vstd::string::StringSliceAdditionalSpecFns;
use vstd::utf8::decode_utf8;
use vstd::utf8::encode_utf8;
use vstd::utf8::valid_utf8;

use crate::config::Base;
use crate::config::Lang;
use crate::errors::Fault;
use crate::template::Named;
use crate::template::Parameters;
use crate::text::parse_unsigned;
use crate::text::parse_usize;
use crate::unicode::decode;
use crate::unicode::lowercase;
use crate::unicode::to_lowercase;
use crate::validator::Finding;
use crate::validator::Level;
use crate::validator::ValidationError;
use crate::validator::Verdict;
use crate::validator::data::CHROM;
use crate::validator::data::Data;
use crate::validator::data::Interval;
use crate::validator::data::POS;
use crate::validator::data::REF;
use crate::validator::data::RecordState;
use crate::validator::data::ReferenceQuery;
use crate::validator::data::field;
use crate::validator::data::field_at;
use crate::validator::data::fields_of;
use crate::validator::is_verdict;
use crate::validator::render_finding;

verus! {

/// Reports a reference that differs from the bases which the reference
/// sequence has at the record's position.
#[derive(Debug)]
pub struct MismatchReferenceBase {
    /// Whether the rule is asked at all.
    pub enabled: bool,
    /// The level of what the rule reports.
    pub level: Level,
    /// The template of the rule's message.
    pub message: String,
}

impl Base for MismatchReferenceBase {
    /// The rule's code.
    open spec fn rule_id() -> Seq<char> {
        "JV_VR0033"@
    }

    /// The rule's name.
    open spec fn rule_name() -> Seq<char> {
        "Data/MismatchReferenceBase"@
    }

    /// The rule's code.
    fn id() -> (id: &'static str) {
        "JV_VR0033"
    }

    /// The rule's name.
    fn name() -> (name: &'static str) {
        "Data/MismatchReferenceBase"
    }
}

impl MismatchReferenceBase {
    /// The rule's default message in `lang`.
    pub open spec fn message_in(lang: Lang) -> Seq<char> {
        match lang {
            Lang::EN => "The REF bases do not match the bases in the reference sequences. VCF = \"{{vcf}}\", FASTA = \"{{fasta}}\""@,
            Lang::JA => "VCFのREFの塩基が参照配列の塩基と一致しません。VCF = \"{{vcf}}\", FASTA = \"{{fasta}}\""@,
        }
    }

    /// The rule is as it is by default, with its message in `lang`.
    pub open spec fn is_default_in(&self, lang: Lang) -> bool {
        &&& self.enabled
        &&& self.level == Level::Warning
        &&& self.message@ == Self::message_in(lang)
    }

    /// The rule as it is by default, with its message in `lang`.
    pub fn localized(lang: Lang) -> (rule: Self)
        ensures
            rule.is_default_in(lang),
    {
        Self {
            enabled: true,
            level: Level::Warning,
            message: match lang {
                Lang::EN => String::from_str("The REF bases do not match the bases in the reference sequences. VCF = \"{{vcf}}\", FASTA = \"{{fasta}}\""),
                Lang::JA => String::from_str("VCFのREFの塩基が参照配列の塩基と一致しません。VCF = \"{{vcf}}\", FASTA = \"{{fasta}}\""),
            },
        }
    }

    /// What the rule reports when it reports.
    pub open spec fn finding(&self) -> Finding {
        Finding { id: Self::rule_id(), name: Self::rule_name(), level: self.level }
    }

    /// What stands for the reference of a record that has none.
    pub open spec fn missing_reference() -> Seq<char> {
        "Failed to obtain REF"@
    }

    /// What stands for the bases of the reference sequence where the lookup
    /// failed or gave bytes that are no text.
    pub open spec fn missing_sequence() -> Seq<char> {
        "Failed to obtain sequence from FASTA"@
    }

    /// The REF of `record`, or what stands for it where the record has none.
    pub open spec fn reference_text(record: Option<Seq<Seq<char>>>) -> Seq<char> {
        match field(record, REF as int) {
            Some(reference) => reference,
            None => Self::missing_reference(),
        }
    }

    /// The number of bytes that `text` takes as a string.
    pub open spec fn byte_length(text: Seq<char>) -> usize {
        encode_utf8(text).len() as usize
    }

    /// The interval of the reference sequence that the REF of `record` is to
    /// be compared with: on the sequence CHROM, from POS - 1 over as many
    /// places as the reference has bytes. There is none where the record
    /// lacks CHROM or POS, where POS denotes no unsigned number or denotes 0,
    /// where the reference is empty, or where the end is no machine word.
    pub open spec fn interval_of(record: Option<Seq<Seq<char>>>) -> Option<Interval> {
        match (field(record, CHROM as int), field(record, POS as int)) {
            (Some(chrom), Some(position)) => match parse_unsigned(position) {
                Some(pos) => {
                    let len = Self::byte_length(Self::reference_text(record));
                    if pos >= 1 && len >= 1 && pos - 1 + len - 1 <= usize::MAX {
                        Some(
                            Interval {
                                chrom,
                                begin: (pos - 1) as usize,
                                end: (pos - 1 + len - 1) as usize,
                            },
                        )
                    } else {
                        None
                    }
                },
                None => None,
            },
            _ => None,
        }
    }

    /// The bases that the lookup gave, as text, or what stands for them.
    pub open spec fn sequence_text(sequence: Option<Seq<u8>>) -> Seq<char> {
        match sequence {
            Some(bytes) => if valid_utf8(bytes) {
                decode_utf8(bytes)
            } else {
                Self::missing_sequence()
            },
            None => Self::missing_sequence(),
        }
    }

    /// The rule is enabled, the lookup has answered for the interval of the
    /// current record, and the reference and the bases of the answer differ
    /// by more than case.
    pub open spec fn finds(&self, state: RecordState) -> bool {
        &&& self.enabled
        &&& state.reference matches Some(answer) && Self::interval_of(state.current) == Some(
            answer.interval,
        ) && lowercase(Self::reference_text(state.current)) != lowercase(
            Self::sequence_text(answer.sequence),
        )
    }

    /// The REF of `record`, or what stands for it where the record has none.
    pub fn reference_of(record: &Option<Vec<String>>) -> (reference: String)
        ensures
            reference@ == Self::reference_text(fields_of(*record)),
    {
        match field_at(record, REF) {
            Some(reference) => reference.clone(),
            None => String::from_str("Failed to obtain REF"),
        }
    }

    /// The interval of the reference sequence to look up for `record`, where
    /// there is one.
    pub fn query(record: &Option<Vec<String>>) -> (query: Option<ReferenceQuery>)
        ensures
            match query {
                Some(q) => Self::interval_of(fields_of(*record)) == Some(q@),
                None => Self::interval_of(fields_of(*record)) is None,
            },
    {
        let chrom = field_at(record, CHROM);
        let position = field_at(record, POS);
        if let (Some(chrom), Some(position)) = (chrom, position) {
            if let Some(pos) = parse_usize(position.as_str()) {
                let reference = Self::reference_of(record);
                let len: usize = reference.as_str().len();
                if pos >= 1 && len >= 1 && len - 1 <= usize::MAX - (pos - 1) {
                    return Some(
                        ReferenceQuery {
                            chrom: chrom.clone(),
                            begin: pos - 1,
                            end: pos - 1 + (len - 1),
                        },
                    );
                }
            }
        }
        None
    }

    /// Whether two texts in lower case differ: after the case has been taken
    /// out of a reference and of the bases looked up, that is what counts.
    pub fn differs(reference: &String, sequence: &String) -> (b: bool)
        ensures
            b == (reference@ != sequence@),
    {
        *reference != *sequence
    }

    /// The values that the rule's message may refer to: `vcf`, the
    /// reference of the current record, and `fasta`, the bases that the
    /// lookup gave, each as text or as what stands for it.
    pub open spec fn values(&self, state: RecordState) -> Named {
        Named::empty().text("vcf"@, Self::reference_text(state.current)).text(
            "fasta"@,
            Self::sequence_text(
                match state.reference {
                    Some(answer) => answer.sequence,
                    None => None,
                },
            ),
        )
    }

    /// What the rule reports in `state`.
    pub open spec fn verdict(&self, state: RecordState) -> Verdict {
        Verdict {
            refused: false,
            found: self.finds(state),
            finding: self.finding(),
            template: self.message@,
            values: self.values(state),
        }
    }

    /// Asks the rule about `item`: it hands back nothing where it has no
    /// finding, else the error with the rendered message.
    pub fn validate(&self, item: &Data) -> (r: Result<Option<ValidationError>, Fault>)
        ensures
            is_verdict(r, self.verdict(item.state())),
    {
        if !self.enabled {
            return Ok(None);
        }
        let fetched = match &item.faidx {
            Some(fetched) => fetched,
            None => {
                return Ok(None);
            },
        };
        let query = match Self::query(&item.current_record) {
            Some(query) => query,
            None => {
                return Ok(None);
            },
        };
        if !(fetched.query.chrom == query.chrom && fetched.query.begin == query.begin
            && fetched.query.end == query.end) {
            return Ok(None);
        }
        let vcf = Self::reference_of(&item.current_record);
        let fasta = match &fetched.sequence {
            Some(bytes) => match decode(bytes.as_slice()) {
                Some(text) => text,
                None => String::from_str("Failed to obtain sequence from FASTA"),
            },
            None => String::from_str("Failed to obtain sequence from FASTA"),
        };
        if !Self::differs(&to_lowercase(vcf.as_str()), &to_lowercase(fasta.as_str())) {
            return Ok(None);
        }
        let mut context = Parameters::new();
        context.insert_text(String::from_str("vcf"), vcf);
        context.insert_text(String::from_str("fasta"), fasta);
        render_finding(Self::id(), Self::name(), self.level, self.message.as_str(), &context)
    }
}

impl Default for MismatchReferenceBase {
    /// The rule as it is by default, with its message in English.
    fn default() -> (rule: Self)
        ensures
            rule.is_default_in(Lang::EN),
    {
        Self::localized(Lang::EN)
    }
}

} // verus!
