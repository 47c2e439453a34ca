//! The rule `DeletionLength`.

use vstd::prelude::*;
use vstd::string::StringExecFns;

use crate::config::Base;
use crate::config::Lang;
use crate::errors::Fault;
use crate::pattern::regex_compiles;
use crate::template::Named;
use crate::template::Parameters;
use crate::validator::Finding;
use crate::validator::Level;
use crate::validator::ValidationError;
use crate::validator::Verdict;
use crate::validator::data::ALT;
use crate::validator::data::Data;
use crate::validator::data::REF;
use crate::validator::data::RecordState;
use crate::validator::data::field;
use crate::validator::data::field_at;
use crate::validator::data::leading_run;
use crate::validator::data::measure_run;
use crate::validator::data::nucleotide_pattern;
use crate::validator::data::run_length;
use crate::validator::is_verdict;
use crate::validator::render_finding;

verus! {

/// Reports a deletion of too many bases.
#[derive(Debug)]
pub struct DeletionLength {
    /// Whether the rule is asked at all.
    pub enabled: bool,
    /// The level of what the rule reports.
    pub level: Level,
    /// The template of the rule's message.
    pub message: String,
    /// The length from which on the rule reports.
    pub max: usize,
}

impl Base for DeletionLength {
    /// The rule's code.
    open spec fn rule_id() -> Seq<char> {
        "JV_VR0037"@
    }

    /// The rule's name.
    open spec fn rule_name() -> Seq<char> {
        "Record/DeletionLength"@
    }

    /// The rule's code.
    fn id() -> (id: &'static str) {
        "JV_VR0037"
    }

    /// The rule's name.
    fn name() -> (name: &'static str) {
        "Record/DeletionLength"
    }
}

impl DeletionLength {
    /// The rule's default message in `lang`.
    pub open spec fn message_in(lang: Lang) -> Seq<char> {
        match lang {
            Lang::EN => "The length of the deletion exceeds the allowed value. Maximum of length is {{max}}."@,
            Lang::JA => "欠損される塩基の長さが許容値を超えています。上限は{{max}}です。"@,
        }
    }

    /// The rule is as it is by default, with its message in `lang`.
    pub open spec fn is_default_in(&self, lang: Lang) -> bool {
        &&& self.enabled
        &&& self.level == Level::Warning
        &&& self.message@ == Self::message_in(lang)
        &&& self.max == 50
    }

    /// The rule as it is by default, with its message in `lang`.
    pub fn localized(lang: Lang) -> (rule: Self)
        ensures
            rule.is_default_in(lang),
    {
        Self {
            enabled: true,
            level: Level::Warning,
            message: match lang {
                Lang::EN => String::from_str("The length of the deletion exceeds the allowed value. Maximum of length is {{max}}."),
                Lang::JA => String::from_str("欠損される塩基の長さが許容値を超えています。上限は{{max}}です。"),
            },
            max: 50,
        }
    }

    /// What the rule reports when it reports.
    pub open spec fn finding(&self) -> Finding {
        Finding { id: Self::rule_id(), name: Self::rule_name(), level: self.level }
    }

    /// The deletion is too long: the nucleotides at the beginning of the
    /// reference allele are `max` or more longer than those at the beginning
    /// of the alternate one. A run that was not found counts as empty.
    pub open spec fn too_long(&self, reference: Option<usize>, alternate: Option<usize>) -> bool {
        run_length(reference) - run_length(alternate) >= self.max
    }

    /// The rule is enabled, and the record is absent, lacks REF or ALT, or
    /// its deletion is too long.
    pub open spec fn finds(&self, state: RecordState) -> bool {
        self.enabled && !(field(state.current, REF as int) matches Some(reference) && field(
            state.current,
            ALT as int,
        ) matches Some(alternate) && !self.too_long(leading_run(reference), leading_run(alternate)))
    }

    /// Whether the deletion is too long, given the runs of nucleotides
    /// measured at the beginning of the two alleles.
    pub fn exceeds(&self, reference: Option<usize>, alternate: Option<usize>) -> (b: bool)
        ensures
            b == self.too_long(reference, alternate),
    {
        let reference: usize = match reference {
            Some(n) => n,
            None => 0,
        };
        let alternate: usize = match alternate {
            Some(n) => n,
            None => 0,
        };
        reference >= alternate && reference - alternate >= self.max
    }

    /// The values that the rule's message may refer to: `max`, the
    /// maximum.
    pub open spec fn values(&self) -> Named {
        Named::empty().number("max"@, self.max)
    }

    /// The rule measures the record of `state`, for which it needs the
    /// nucleotide pattern: it is enabled and the record has REF and ALT.
    pub open spec fn asks(&self, state: RecordState) -> bool {
        &&& self.enabled
        &&& field(state.current, REF as int) is Some
        &&& field(state.current, ALT as int) is Some
    }

    /// What the rule reports in `state`. It is refused where it measures
    /// the record and the nucleotide pattern does not compile.
    pub open spec fn verdict(&self, state: RecordState) -> Verdict {
        Verdict {
            refused: self.asks(state) && !regex_compiles(nucleotide_pattern()),
            found: self.finds(state),
            finding: self.finding(),
            template: self.message@,
            values: self.values(),
        }
    }

    /// Asks the rule about `item`: it hands back nothing where it has no
    /// finding, else the error with the rendered message. Where the
    /// nucleotide pattern does not compile, that is the fault.
    pub fn validate(&self, item: &Data) -> (r: Result<Option<ValidationError>, Fault>)
        ensures
            is_verdict(r, self.verdict(item.state())),
    {
        if !self.enabled {
            return Ok(None);
        }
        let reference = field_at(&item.current_record, REF);
        let alternate = field_at(&item.current_record, ALT);
        if let (Some(reference), Some(alternate)) = (reference, alternate) {
            let reference_run = match measure_run(reference.as_str()) {
                Ok(found) => found,
                Err(refusal) => {
                    return Err(Fault::Pattern(refusal));
                },
            };
            let alternate_run = match measure_run(alternate.as_str()) {
                Ok(found) => found,
                Err(refusal) => {
                    return Err(Fault::Pattern(refusal));
                },
            };
            if !self.exceeds(reference_run, alternate_run) {
                return Ok(None);
            }
        }
        let mut context = Parameters::new();
        context.insert_number(String::from_str("max"), self.max);
        render_finding(Self::id(), Self::name(), self.level, self.message.as_str(), &context)
    }
}

impl Default for DeletionLength {
    /// The rule as it is by default, with its message in English.
    fn default() -> (rule: Self)
        ensures
            rule.is_default_in(Lang::EN),
    {
        Self::localized(Lang::EN)
    }
}

} // verus!
