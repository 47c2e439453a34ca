//! The rule `MultipleAlternateAlleles`.

use vstd::prelude::*;
use vstd::string::StringExecFns;

use crate::config::Base;
use crate::config::Lang;
use crate::errors::Fault;
use crate::template::Named;
use crate::template::Parameters;
use crate::text::has_char;
use crate::validator::Finding;
use crate::validator::Level;
use crate::validator::ValidationError;
use crate::validator::Verdict;
use crate::validator::data::ALT;
use crate::validator::data::Data;
use crate::validator::data::RecordState;
use crate::validator::data::field;
use crate::validator::data::field_at;
use crate::validator::is_verdict;
use crate::validator::render_finding;

verus! {

/// Reports a record with more than one alternate allele.
#[derive(Debug)]
pub struct MultipleAlternateAlleles {
    /// Whether the rule is asked at all.
    pub enabled: bool,
    /// The level of what the rule reports.
    pub level: Level,
    /// The template of the rule's message.
    pub message: String,
}

impl Base for MultipleAlternateAlleles {
    /// The rule's code.
    open spec fn rule_id() -> Seq<char> {
        "JV_VR0038"@
    }

    /// The rule's name.
    open spec fn rule_name() -> Seq<char> {
        "Data/MultipleAlternateAlleles"@
    }

    /// The rule's code.
    fn id() -> (id: &'static str) {
        "JV_VR0038"
    }

    /// The rule's name.
    fn name() -> (name: &'static str) {
        "Data/MultipleAlternateAlleles"
    }
}

impl MultipleAlternateAlleles {
    /// The rule's default message in `lang`.
    pub open spec fn message_in(lang: Lang) -> Seq<char> {
        match lang {
            Lang::EN => "The alternate sequence contains multiple variants."@,
            Lang::JA => "ALTに複数の変異が含まれます。"@,
        }
    }

    /// The rule is as it is by default, with its message in `lang`.
    pub open spec fn is_default_in(&self, lang: Lang) -> bool {
        &&& self.enabled
        &&& self.level == Level::Warning
        &&& self.message@ == Self::message_in(lang)
    }

    /// The rule as it is by default, with its message in `lang`.
    pub fn localized(lang: Lang) -> (rule: Self)
        ensures
            rule.is_default_in(lang),
    {
        Self {
            enabled: true,
            level: Level::Warning,
            message: match lang {
                Lang::EN => String::from_str("The alternate sequence contains multiple variants."),
                Lang::JA => String::from_str("ALTに複数の変異が含まれます。"),
            },
        }
    }

    /// What the rule reports when it reports.
    pub open spec fn finding(&self) -> Finding {
        Finding { id: Self::rule_id(), name: Self::rule_name(), level: self.level }
    }

    /// The rule is enabled, and the record is absent, has no ALT, or has one
    /// with a comma, which separates alleles.
    pub open spec fn finds(&self, state: RecordState) -> bool {
        self.enabled && !(field(state.current, ALT as int) matches Some(alleles)
            && !alleles.contains(','))
    }

    /// The values that the rule's message may refer to: none.
    pub open spec fn values(&self) -> Named {
        Named::empty()
    }

    /// What the rule reports in `state`.
    pub open spec fn verdict(&self, state: RecordState) -> Verdict {
        Verdict {
            refused: false,
            found: self.finds(state),
            finding: self.finding(),
            template: self.message@,
            values: self.values(),
        }
    }

    /// Asks the rule about `item`: it hands back nothing where it has no
    /// finding, else the error with the rendered message.
    pub fn validate(&self, item: &Data) -> (r: Result<Option<ValidationError>, Fault>)
        ensures
            is_verdict(r, self.verdict(item.state())),
    {
        if !self.enabled {
            return Ok(None);
        }
        if let Some(alleles) = field_at(&item.current_record, ALT) {
            if !has_char(alleles.as_str(), ',') {
                return Ok(None);
            }
        }
        let context = Parameters::new();
        render_finding(Self::id(), Self::name(), self.level, self.message.as_str(), &context)
    }
}

impl Default for MultipleAlternateAlleles {
    /// The rule as it is by default, with its message in English.
    fn default() -> (rule: Self)
        ensures
            rule.is_default_in(Lang::EN),
    {
        Self::localized(Lang::EN)
    }
}

} // verus!
