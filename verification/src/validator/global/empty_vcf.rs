//! The rule `EmptyVCF`.

use vstd::prelude::*;
use vstd::string::StringExecFns;

use crate::config::Base;
use crate::config::Lang;
use crate::errors::Fault;
use crate::template::Named;
use crate::template::Parameters;
use crate::validator::Finding;
use crate::validator::Level;
use crate::validator::ValidationError;
use crate::validator::Verdict;
use crate::validator::global::Global;
use crate::validator::global::GlobalState;
use crate::validator::is_verdict;
use crate::validator::render_finding;

verus! {

/// Reports a file without lines.
#[derive(Debug)]
pub struct EmptyVCF {
    /// Whether the rule is asked at all.
    pub enabled: bool,
    /// The level of what the rule reports.
    pub level: Level,
    /// The template of the rule's message.
    pub message: String,
}

impl Base for EmptyVCF {
    /// The rule's code.
    open spec fn rule_id() -> Seq<char> {
        "JV_VR0007"@
    }

    /// The rule's name.
    open spec fn rule_name() -> Seq<char> {
        "Global/EmptyVCF"@
    }

    /// The rule's code.
    fn id() -> (id: &'static str) {
        "JV_VR0007"
    }

    /// The rule's name.
    fn name() -> (name: &'static str) {
        "Global/EmptyVCF"
    }
}

impl EmptyVCF {
    /// The rule's default message in `lang`.
    pub open spec fn message_in(lang: Lang) -> Seq<char> {
        match lang {
            Lang::EN => "No records found in VCF."@,
            Lang::JA => "VCFにレコードが存在しません。"@,
        }
    }

    /// The rule is as it is by default, with its message in `lang`.
    pub open spec fn is_default_in(&self, lang: Lang) -> bool {
        &&& self.enabled
        &&& self.level == Level::Error
        &&& self.message@ == Self::message_in(lang)
    }

    /// The rule as it is by default, with its message in `lang`.
    pub fn localized(lang: Lang) -> (rule: Self)
        ensures
            rule.is_default_in(lang),
    {
        Self {
            enabled: true,
            level: Level::Error,
            message: match lang {
                Lang::EN => String::from_str("No records found in VCF."),
                Lang::JA => String::from_str("VCFにレコードが存在しません。"),
            },
        }
    }

    /// What the rule reports when it reports.
    pub open spec fn finding(&self) -> Finding {
        Finding { id: Self::rule_id(), name: Self::rule_name(), level: self.level }
    }

    /// The rule is enabled and no line has been counted.
    pub open spec fn finds(&self, state: GlobalState) -> bool {
        self.enabled && state.count <= 0
    }

    /// The values that the rule's message may refer to: none.
    pub open spec fn values(&self) -> Named {
        Named::empty()
    }

    /// What the rule reports in `state`.
    pub open spec fn verdict(&self, state: GlobalState) -> Verdict {
        Verdict {
            refused: false,
            found: self.finds(state),
            finding: self.finding(),
            template: self.message@,
            values: self.values(),
        }
    }

    /// Asks the rule about `item`: it hands back nothing where it has no
    /// finding, else the error with the rendered message.
    pub fn validate(&self, item: &Global) -> (r: Result<Option<ValidationError>, Fault>)
        ensures
            is_verdict(r, self.verdict(item.state())),
    {
        if !self.enabled {
            return Ok(None);
        }
        if item.count > 0 {
            return Ok(None);
        }
        let context = Parameters::new();
        render_finding(Self::id(), Self::name(), self.level, self.message.as_str(), &context)
    }
}

impl Default for EmptyVCF {
    /// The rule as it is by default, with its message in English.
    fn default() -> (rule: Self)
        ensures
            rule.is_default_in(Lang::EN),
    {
        Self::localized(Lang::EN)
    }
}

} // verus!
