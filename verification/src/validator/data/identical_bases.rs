//! The rule `IdenticalBases`.

use vstd::prelude::*;
use vstd::string::StringExecFns;

use crate::config::Base;
use crate::config::Lang;
use crate::errors::Fault;
use crate::template::Named;
use crate::template::Parameters;
use crate::validator::Finding;
use crate::validator::Level;
use crate::validator::ValidationError;
use crate::validator::Verdict;
use crate::validator::data::ALT;
use crate::validator::data::Data;
use crate::validator::data::REF;
use crate::validator::data::RecordState;
use crate::validator::data::field;
use crate::validator::data::field_at;
use crate::validator::data::same_field;
use crate::validator::is_verdict;
use crate::validator::render_finding;

verus! {

/// Reports a record whose reference and alternate alleles are the same text.
#[derive(Debug)]
pub struct IdenticalBases {
    /// Whether the rule is asked at all.
    pub enabled: bool,
    /// The level of what the rule reports.
    pub level: Level,
    /// The template of the rule's message.
    pub message: String,
}

impl Base for IdenticalBases {
    /// The rule's code.
    open spec fn rule_id() -> Seq<char> {
        "JV_VR0027"@
    }

    /// The rule's name.
    open spec fn rule_name() -> Seq<char> {
        "Record/IdenticalBases"@
    }

    /// The rule's code.
    fn id() -> (id: &'static str) {
        "JV_VR0027"
    }

    /// The rule's name.
    fn name() -> (name: &'static str) {
        "Record/IdenticalBases"
    }
}

impl IdenticalBases {
    /// The rule's default message in `lang`.
    pub open spec fn message_in(lang: Lang) -> Seq<char> {
        match lang {
            Lang::EN => "Reference base(s) and alternative base(s) are identical."@,
            Lang::JA => "REFとALTの塩基が同一です。"@,
        }
    }

    /// The rule is as it is by default, with its message in `lang`.
    pub open spec fn is_default_in(&self, lang: Lang) -> bool {
        &&& self.enabled
        &&& self.level == Level::Warning
        &&& self.message@ == Self::message_in(lang)
    }

    /// The rule as it is by default, with its message in `lang`.
    pub fn localized(lang: Lang) -> (rule: Self)
        ensures
            rule.is_default_in(lang),
    {
        Self {
            enabled: true,
            level: Level::Warning,
            message: match lang {
                Lang::EN => String::from_str("Reference base(s) and alternative base(s) are identical."),
                Lang::JA => String::from_str("REFとALTの塩基が同一です。"),
            },
        }
    }

    /// What the rule reports when it reports.
    pub open spec fn finding(&self) -> Finding {
        Finding { id: Self::rule_id(), name: Self::rule_name(), level: self.level }
    }

    /// The rule is enabled, and the record is absent or its REF and ALT are
    /// the same: both missing, or both there with one text.
    pub open spec fn finds(&self, state: RecordState) -> bool {
        self.enabled && !(state.current is Some && field(state.current, REF as int) != field(
            state.current,
            ALT as int,
        ))
    }

    /// The values that the rule's message may refer to: none.
    pub open spec fn values(&self) -> Named {
        Named::empty()
    }

    /// What the rule reports in `state`.
    pub open spec fn verdict(&self, state: RecordState) -> Verdict {
        Verdict {
            refused: false,
            found: self.finds(state),
            finding: self.finding(),
            template: self.message@,
            values: self.values(),
        }
    }

    /// Asks the rule about `item`: it hands back nothing where it has no
    /// finding, else the error with the rendered message.
    pub fn validate(&self, item: &Data) -> (r: Result<Option<ValidationError>, Fault>)
        ensures
            is_verdict(r, self.verdict(item.state())),
    {
        if !self.enabled {
            return Ok(None);
        }
        if item.current_record.is_some() {
            let reference = field_at(&item.current_record, REF);
            let alternate = field_at(&item.current_record, ALT);
            if !same_field(reference, alternate) {
                return Ok(None);
            }
        }
        let context = Parameters::new();
        render_finding(Self::id(), Self::name(), self.level, self.message.as_str(), &context)
    }
}

impl Default for IdenticalBases {
    /// The rule as it is by default, with its message in English.
    fn default() -> (rule: Self)
        ensures
            rule.is_default_in(Lang::EN),
    {
        Self::localized(Lang::EN)
    }
}

} // verus!
