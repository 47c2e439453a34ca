//! The rule `AmbiguousReferenceBase`.

use vstd::prelude::*;
use vstd::string::StringExecFns;

use crate::config::Base;
use crate::config::Lang;
use crate::errors::Fault;
use crate::template::Named;
use crate::template::Parameters;
use crate::text::join;
use crate::text::join_strings;
use crate::text::texts;
use crate::validator::Finding;
use crate::validator::Level;
use crate::validator::ValidationError;
use crate::validator::Verdict;
use crate::validator::data::Data;
use crate::validator::data::REF;
use crate::validator::data::RecordState;
use crate::validator::data::field;
use crate::validator::data::field_at;
use crate::validator::data::has_any;
use crate::validator::data::holds_any;
use crate::validator::is_verdict;
use crate::validator::render_finding;

verus! {

/// Reports a reference that holds an ambiguity code.
#[derive(Debug)]
pub struct AmbiguousReferenceBase {
    /// Whether the rule is asked at all.
    pub enabled: bool,
    /// The level of what the rule reports.
    pub level: Level,
    /// The template of the rule's message.
    pub message: String,
    /// The texts that must not stand in the bases.
    pub disallowed: Vec<String>,
}

impl Base for AmbiguousReferenceBase {
    /// The rule's code.
    open spec fn rule_id() -> Seq<char> {
        "JV_VR0028"@
    }

    /// The rule's name.
    open spec fn rule_name() -> Seq<char> {
        "Data/AmbiguousReferenceBase"@
    }

    /// The rule's code.
    fn id() -> (id: &'static str) {
        "JV_VR0028"
    }

    /// The rule's name.
    fn name() -> (name: &'static str) {
        "Data/AmbiguousReferenceBase"
    }
}

impl AmbiguousReferenceBase {
    /// The rule's default message in `lang`.
    pub open spec fn message_in(lang: Lang) -> Seq<char> {
        match lang {
            Lang::EN => "The reference sequence contains IUPAC ambiguity codes. Refrain from using {{disallowed}}."@,
            Lang::JA => "REFに曖昧な塩基が含まれています。{{disallowed}}は使用できません。"@,
        }
    }

    /// The rule is as it is by default, with its message in `lang`.
    pub open spec fn is_default_in(&self, lang: Lang) -> bool {
        &&& self.enabled
        &&& self.level == Level::Warning
        &&& self.message@ == Self::message_in(lang)
        &&& texts(self.disallowed@) == seq![
            "R"@,
            "Y"@,
            "S"@,
            "W"@,
            "K"@,
            "M"@,
            "B"@,
            "D"@,
            "H"@,
            "V"@,
            "N"@,
        ]
    }

    /// The rule as it is by default, with its message in `lang`.
    pub fn localized(lang: Lang) -> (rule: Self)
        ensures
            rule.is_default_in(lang),
    {
        let mut disallowed: Vec<String> = Vec::new();
        disallowed.push(String::from_str("R"));
        disallowed.push(String::from_str("Y"));
        disallowed.push(String::from_str("S"));
        disallowed.push(String::from_str("W"));
        disallowed.push(String::from_str("K"));
        disallowed.push(String::from_str("M"));
        disallowed.push(String::from_str("B"));
        disallowed.push(String::from_str("D"));
        disallowed.push(String::from_str("H"));
        disallowed.push(String::from_str("V"));
        disallowed.push(String::from_str("N"));
        assert(texts(disallowed@) =~= seq![
            "R"@,
            "Y"@,
            "S"@,
            "W"@,
            "K"@,
            "M"@,
            "B"@,
            "D"@,
            "H"@,
            "V"@,
            "N"@,
        ]);
        Self {
            enabled: true,
            level: Level::Warning,
            message: match lang {
                Lang::EN => String::from_str("The reference sequence contains IUPAC ambiguity codes. Refrain from using {{disallowed}}."),
                Lang::JA => String::from_str("REFに曖昧な塩基が含まれています。{{disallowed}}は使用できません。"),
            },
            disallowed,
        }
    }

    /// What the rule reports when it reports.
    pub open spec fn finding(&self) -> Finding {
        Finding { id: Self::rule_id(), name: Self::rule_name(), level: self.level }
    }

    /// The rule is enabled, and the record is absent, has no REF, or has one
    /// in which one of the disallowed codes stands.
    pub open spec fn finds(&self, state: RecordState) -> bool {
        self.enabled && !(field(state.current, REF as int) matches Some(bases) && !holds_any(
            bases,
            texts(self.disallowed@),
        ))
    }

    /// The values that the rule's message may refer to: `disallowed`, the
    /// disallowed codes with `, ` between them.
    pub open spec fn values(&self) -> Named {
        Named::empty().text("disallowed"@, join(texts(self.disallowed@), ", "@))
    }

    /// What the rule reports in `state`.
    pub open spec fn verdict(&self, state: RecordState) -> Verdict {
        Verdict {
            refused: false,
            found: self.finds(state),
            finding: self.finding(),
            template: self.message@,
            values: self.values(),
        }
    }

    /// Asks the rule about `item`: it hands back nothing where it has no
    /// finding, else the error with the rendered message.
    pub fn validate(&self, item: &Data) -> (r: Result<Option<ValidationError>, Fault>)
        ensures
            is_verdict(r, self.verdict(item.state())),
    {
        if !self.enabled {
            return Ok(None);
        }
        if let Some(bases) = field_at(&item.current_record, REF) {
            if !has_any(bases.as_str(), &self.disallowed) {
                return Ok(None);
            }
        }
        let mut context = Parameters::new();
        context.insert_text(String::from_str("disallowed"), join_strings(&self.disallowed, ", "));
        render_finding(Self::id(), Self::name(), self.level, self.message.as_str(), &context)
    }
}

impl Default for AmbiguousReferenceBase {
    /// The rule as it is by default, with its message in English.
    fn default() -> (rule: Self)
        ensures
            rule.is_default_in(Lang::EN),
    {
        Self::localized(Lang::EN)
    }
}

} // verus!
