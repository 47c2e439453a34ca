//! The rule `MissingAlternateBase`.

use vstd::prelude::*;
use vstd::string::StringExecFns;

use crate::config::Base;
use crate::config::Lang;
use crate::errors::Fault;
use crate::template::Named;
use crate::template::Parameters;
use crate::text::join;
use crate::text::join_strings;
use crate::text::texts;
use crate::validator::Finding;
use crate::validator::Level;
use crate::validator::ValidationError;
use crate::validator::Verdict;
use crate::validator::data::ALT;
use crate::validator::data::Data;
use crate::validator::data::RecordState;
use crate::validator::data::field;
use crate::validator::data::field_at;
use crate::validator::data::has_any;
use crate::validator::data::holds_any;
use crate::validator::is_verdict;
use crate::validator::render_finding;

verus! {

/// Reports alternate alleles that hold a placeholder for missing bases.
#[derive(Debug)]
pub struct MissingAlternateBase {
    /// Whether the rule is asked at all.
    pub enabled: bool,
    /// The level of what the rule reports.
    pub level: Level,
    /// The template of the rule's message.
    pub message: String,
    /// The texts that must not stand in the bases.
    pub disallowed: Vec<String>,
}

impl Base for MissingAlternateBase {
    /// The rule's code.
    open spec fn rule_id() -> Seq<char> {
        "JV_VR0035"@
    }

    /// The rule's name.
    open spec fn rule_name() -> Seq<char> {
        "Data/MissingAlternateBase"@
    }

    /// The rule's code.
    fn id() -> (id: &'static str) {
        "JV_VR0035"
    }

    /// The rule's name.
    fn name() -> (name: &'static str) {
        "Data/MissingAlternateBase"
    }
}

impl MissingAlternateBase {
    /// The rule's default message in `lang`.
    pub open spec fn message_in(lang: Lang) -> Seq<char> {
        match lang {
            Lang::EN => "The alternate sequence is missing. Refrain from using {{disallowed}}."@,
            Lang::JA => "ALTに塩基が指定されていません。{{disallowed}}は使用できません。"@,
        }
    }

    /// The rule is as it is by default, with its message in `lang`.
    pub open spec fn is_default_in(&self, lang: Lang) -> bool {
        &&& self.enabled
        &&& self.level == Level::Warning
        &&& self.message@ == Self::message_in(lang)
        &&& texts(self.disallowed@) == seq!["."@, "-"@]
    }

    /// The rule as it is by default, with its message in `lang`.
    pub fn localized(lang: Lang) -> (rule: Self)
        ensures
            rule.is_default_in(lang),
    {
        let mut disallowed: Vec<String> = Vec::new();
        disallowed.push(String::from_str("."));
        disallowed.push(String::from_str("-"));
        assert(texts(disallowed@) =~= seq!["."@, "-"@]);
        Self {
            enabled: true,
            level: Level::Warning,
            message: match lang {
                Lang::EN => String::from_str("The alternate sequence is missing. Refrain from using {{disallowed}}."),
                Lang::JA => String::from_str("ALTに塩基が指定されていません。{{disallowed}}は使用できません。"),
            },
            disallowed,
        }
    }

    /// What the rule reports when it reports.
    pub open spec fn finding(&self) -> Finding {
        Finding { id: Self::rule_id(), name: Self::rule_name(), level: self.level }
    }

    /// The rule is enabled, and the record is absent, has no ALT, or has one
    /// in which one of the disallowed placeholders stands.
    pub open spec fn finds(&self, state: RecordState) -> bool {
        self.enabled && !(field(state.current, ALT as int) matches Some(bases) && !holds_any(
            bases,
            texts(self.disallowed@),
        ))
    }

    /// The values that the rule's message may refer to: `disallowed`, the
    /// disallowed placeholders with `, ` between them.
    pub open spec fn values(&self) -> Named {
        Named::empty().text("disallowed"@, join(texts(self.disallowed@), ", "@))
    }

    /// What the rule reports in `state`.
    pub open spec fn verdict(&self, state: RecordState) -> Verdict {
        Verdict {
            refused: false,
            found: self.finds(state),
            finding: self.finding(),
            template: self.message@,
            values: self.values(),
        }
    }

    /// Asks the rule about `item`: it hands back nothing where it has no
    /// finding, else the error with the rendered message.
    pub fn validate(&self, item: &Data) -> (r: Result<Option<ValidationError>, Fault>)
        ensures
            is_verdict(r, self.verdict(item.state())),
    {
        if !self.enabled {
            return Ok(None);
        }
        if let Some(bases) = field_at(&item.current_record, ALT) {
            if !has_any(bases.as_str(), &self.disallowed) {
                return Ok(None);
            }
        }
        let mut context = Parameters::new();
        context.insert_text(String::from_str("disallowed"), join_strings(&self.disallowed, ", "));
        render_finding(Self::id(), Self::name(), self.level, self.message.as_str(), &context)
    }
}

impl Default for MissingAlternateBase {
    /// The rule as it is by default, with its message in English.
    fn default() -> (rule: Self)
        ensures
            rule.is_default_in(Lang::EN),
    {
        Self::localized(Lang::EN)
    }
}

} // verus!
