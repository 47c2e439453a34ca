//! The rule `DiscontiguousChromosome`.

use vstd::prelude::*;
use vstd::string::StringExecFns;

use crate::config::Base;
use crate::config::Lang;
use crate::errors::Fault;
use crate::template::Named;
use crate::template::Parameters;
use crate::validator::Finding;
use crate::validator::Level;
use crate::validator::ValidationError;
use crate::validator::Verdict;
use crate::validator::data::CHROM;
use crate::validator::data::Data;
use crate::validator::data::RecordState;
use crate::validator::data::field;
use crate::validator::data::field_at;
use crate::validator::data::same_field;
use crate::validator::is_verdict;
use crate::validator::render_finding;

verus! {

/// Reports a record whose sequence had records before, with records of
/// another sequence in between.
#[derive(Debug)]
pub struct DiscontiguousChromosome {
    /// Whether the rule is asked at all.
    pub enabled: bool,
    /// The level of what the rule reports.
    pub level: Level,
    /// The template of the rule's message.
    pub message: String,
}

impl Base for DiscontiguousChromosome {
    /// The rule's code.
    open spec fn rule_id() -> Seq<char> {
        "JV_VR0025"@
    }

    /// The rule's name.
    open spec fn rule_name() -> Seq<char> {
        "Record/DiscontiguousChromosome"@
    }

    /// The rule's code.
    fn id() -> (id: &'static str) {
        "JV_VR0025"
    }

    /// The rule's name.
    fn name() -> (name: &'static str) {
        "Record/DiscontiguousChromosome"
    }
}

impl DiscontiguousChromosome {
    /// The rule's default message in `lang`.
    pub open spec fn message_in(lang: Lang) -> Seq<char> {
        match lang {
            Lang::EN => "CHROM must form a contiguous block within the VCF file."@,
            Lang::JA => "CHROMはVCFの中で連続したブロックである必要があります。"@,
        }
    }

    /// The rule is as it is by default, with its message in `lang`.
    pub open spec fn is_default_in(&self, lang: Lang) -> bool {
        &&& self.enabled
        &&& self.level == Level::Warning
        &&& self.message@ == Self::message_in(lang)
    }

    /// The rule as it is by default, with its message in `lang`.
    pub fn localized(lang: Lang) -> (rule: Self)
        ensures
            rule.is_default_in(lang),
    {
        Self {
            enabled: true,
            level: Level::Warning,
            message: match lang {
                Lang::EN => String::from_str("CHROM must form a contiguous block within the VCF file."),
                Lang::JA => String::from_str("CHROMはVCFの中で連続したブロックである必要があります。"),
            },
        }
    }

    /// What the rule reports when it reports.
    pub open spec fn finding(&self) -> Finding {
        Finding { id: Self::rule_id(), name: Self::rule_name(), level: self.level }
    }

    /// The rule is enabled and there is a previous record, and the current
    /// record is absent, or its CHROM differs from the previous one and is
    /// missing or among the names seen before.
    pub open spec fn finds(&self, state: RecordState) -> bool {
        &&& self.enabled
        &&& state.previous is Some
        &&& !(state.current is Some && (field(state.previous, CHROM as int) == field(
            state.current,
            CHROM as int,
        ) || (field(state.current, CHROM as int) matches Some(name) && !state.chromosomes.contains(
            name,
        ))))
    }

    /// The values that the rule's message may refer to: none.
    pub open spec fn values(&self) -> Named {
        Named::empty()
    }

    /// What the rule reports in `state`.
    pub open spec fn verdict(&self, state: RecordState) -> Verdict {
        Verdict {
            refused: false,
            found: self.finds(state),
            finding: self.finding(),
            template: self.message@,
            values: self.values(),
        }
    }

    /// Asks the rule about `item`: it hands back nothing where it has no
    /// finding, else the error with the rendered message.
    pub fn validate(&self, item: &Data) -> (r: Result<Option<ValidationError>, Fault>)
        ensures
            is_verdict(r, self.verdict(item.state())),
    {
        if !self.enabled {
            return Ok(None);
        }
        if item.previous_record.is_none() {
            return Ok(None);
        }
        if item.current_record.is_some() {
            let previous = field_at(&item.previous_record, CHROM);
            let current = field_at(&item.current_record, CHROM);
            if same_field(previous, current) {
                return Ok(None);
            }
            if let Some(name) = current {
                if !item.chromosomes.contains(name) {
                    return Ok(None);
                }
            }
        }
        let context = Parameters::new();
        render_finding(Self::id(), Self::name(), self.level, self.message.as_str(), &context)
    }
}

impl Default for DiscontiguousChromosome {
    /// The rule as it is by default, with its message in English.
    fn default() -> (rule: Self)
        ensures
            rule.is_default_in(Lang::EN),
    {
        Self::localized(Lang::EN)
    }
}

} // verus!
