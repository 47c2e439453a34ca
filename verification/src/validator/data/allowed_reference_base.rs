//! The rule `AllowedReferenceBase`.

use vstd::prelude::*;
use vstd::string::StringExecFns;

use crate::config::Base;
use crate::config::Lang;
use crate::errors::Fault;
use crate::template::Named;
use crate::template::Parameters;
use crate::text::join;
use crate::text::join_strings;
use crate::text::texts;
use crate::validator::Finding;
use crate::validator::Level;
use crate::validator::ValidationError;
use crate::validator::Verdict;
use crate::validator::data::Data;
use crate::validator::data::REF;
use crate::validator::data::RecordState;
use crate::validator::data::bases_allowed;
use crate::validator::data::field;
use crate::validator::data::field_at;
use crate::validator::data::has_allowed_bases;
use crate::validator::is_verdict;
use crate::validator::render_finding;

verus! {

/// Reports a reference with a base outside the allowed ones.
#[derive(Debug)]
pub struct AllowedReferenceBase {
    /// Whether the rule is asked at all.
    pub enabled: bool,
    /// The level of what the rule reports.
    pub level: Level,
    /// The template of the rule's message.
    pub message: String,
    /// The bases that may occur, each a text of one character.
    pub allowed: Vec<String>,
}

impl Base for AllowedReferenceBase {
    /// The rule's code.
    open spec fn rule_id() -> Seq<char> {
        "JV_VR0030"@
    }

    /// The rule's name.
    open spec fn rule_name() -> Seq<char> {
        "Data/AllowedReferenceBase"@
    }

    /// The rule's code.
    fn id() -> (id: &'static str) {
        "JV_VR0030"
    }

    /// The rule's name.
    fn name() -> (name: &'static str) {
        "Data/AllowedReferenceBase"
    }
}

impl AllowedReferenceBase {
    /// The rule's default message in `lang`.
    pub open spec fn message_in(lang: Lang) -> Seq<char> {
        match lang {
            Lang::EN => "The reference sequence contains characters not allowed. Available characters are {{allowed}}."@,
            Lang::JA => "REFに使用できない文字が含まれます。使用できる文字は{{allowed}}です。"@,
        }
    }

    /// The rule is as it is by default, with its message in `lang`.
    pub open spec fn is_default_in(&self, lang: Lang) -> bool {
        &&& self.enabled
        &&& self.level == Level::Warning
        &&& self.message@ == Self::message_in(lang)
        &&& texts(self.allowed@) == seq!["A"@, "C"@, "G"@, "T"@, "U"@]
    }

    /// The rule as it is by default, with its message in `lang`.
    pub fn localized(lang: Lang) -> (rule: Self)
        ensures
            rule.is_default_in(lang),
    {
        let mut allowed: Vec<String> = Vec::new();
        allowed.push(String::from_str("A"));
        allowed.push(String::from_str("C"));
        allowed.push(String::from_str("G"));
        allowed.push(String::from_str("T"));
        allowed.push(String::from_str("U"));
        assert(texts(allowed@) =~= seq!["A"@, "C"@, "G"@, "T"@, "U"@]);
        Self {
            enabled: true,
            level: Level::Warning,
            message: match lang {
                Lang::EN => String::from_str("The reference sequence contains characters not allowed. Available characters are {{allowed}}."),
                Lang::JA => String::from_str("REFに使用できない文字が含まれます。使用できる文字は{{allowed}}です。"),
            },
            allowed,
        }
    }

    /// What the rule reports when it reports.
    pub open spec fn finding(&self) -> Finding {
        Finding { id: Self::rule_id(), name: Self::rule_name(), level: self.level }
    }

    /// The rule is enabled, and the record is absent, has no REF, or has one
    /// with a base that is not allowed.
    pub open spec fn finds(&self, state: RecordState) -> bool {
        self.enabled && !(field(state.current, REF as int) matches Some(bases) && bases_allowed(
            bases,
            texts(self.allowed@),
        ))
    }

    /// The values that the rule's message may refer to: `allowed`, the
    /// allowed bases with `, ` between them.
    pub open spec fn values(&self) -> Named {
        Named::empty().text("allowed"@, join(texts(self.allowed@), ", "@))
    }

    /// What the rule reports in `state`.
    pub open spec fn verdict(&self, state: RecordState) -> Verdict {
        Verdict {
            refused: false,
            found: self.finds(state),
            finding: self.finding(),
            template: self.message@,
            values: self.values(),
        }
    }

    /// Asks the rule about `item`: it hands back nothing where it has no
    /// finding, else the error with the rendered message.
    pub fn validate(&self, item: &Data) -> (r: Result<Option<ValidationError>, Fault>)
        ensures
            is_verdict(r, self.verdict(item.state())),
    {
        if !self.enabled {
            return Ok(None);
        }
        if let Some(bases) = field_at(&item.current_record, REF) {
            if has_allowed_bases(bases.as_str(), &self.allowed) {
                return Ok(None);
            }
        }
        let mut context = Parameters::new();
        context.insert_text(String::from_str("allowed"), join_strings(&self.allowed, ", "));
        render_finding(Self::id(), Self::name(), self.level, self.message.as_str(), &context)
    }
}

impl Default for AllowedReferenceBase {
    /// The rule as it is by default, with its message in English.
    fn default() -> (rule: Self)
        ensures
            rule.is_default_in(Lang::EN),
    {
        Self::localized(Lang::EN)
    }
}

} // verus!
