//! The rule `BlankLine`.

use vstd::prelude::*;
use vstd::string::StringExecFns;

use crate::config::Base;
use crate::config::Lang;
use crate::errors::Fault;
use crate::template::Named;
use crate::template::Parameters;
use crate::validator::Finding;
use crate::validator::Level;
use crate::validator::ValidationError;
use crate::validator::Verdict;
use crate::validator::global::Global;
use crate::validator::global::GlobalState;
use crate::validator::is_verdict;
use crate::validator::render_finding;

verus! {

/// Reports a line without text.
#[derive(Debug)]
pub struct BlankLine {
    /// Whether the rule is asked at all.
    pub enabled: bool,
    /// The level of what the rule reports.
    pub level: Level,
    /// The template of the rule's message.
    pub message: String,
}

impl Base for BlankLine {
    /// The rule's code.
    open spec fn rule_id() -> Seq<char> {
        "JV_VR0006"@
    }

    /// The rule's name.
    open spec fn rule_name() -> Seq<char> {
        "Global/BlankLine"@
    }

    /// The rule's code.
    fn id() -> (id: &'static str) {
        "JV_VR0006"
    }

    /// The rule's name.
    fn name() -> (name: &'static str) {
        "Global/BlankLine"
    }
}

impl BlankLine {
    /// The rule's default message in `lang`.
    pub open spec fn message_in(lang: Lang) -> Seq<char> {
        match lang {
            Lang::EN => "Blank line found. This line will be ignored."@,
            Lang::JA => "VCFに空のデータ行が見つかりました、この行は無視されます。"@,
        }
    }

    /// The rule is as it is by default, with its message in `lang`.
    pub open spec fn is_default_in(&self, lang: Lang) -> bool {
        &&& self.enabled
        &&& self.level == Level::Error
        &&& self.message@ == Self::message_in(lang)
    }

    /// The rule as it is by default, with its message in `lang`.
    pub fn localized(lang: Lang) -> (rule: Self)
        ensures
            rule.is_default_in(lang),
    {
        Self {
            enabled: true,
            level: Level::Error,
            message: match lang {
                Lang::EN => String::from_str("Blank line found. This line will be ignored."),
                Lang::JA => String::from_str("VCFに空のデータ行が見つかりました、この行は無視されます。"),
            },
        }
    }

    /// What the rule reports when it reports.
    pub open spec fn finding(&self) -> Finding {
        Finding { id: Self::rule_id(), name: Self::rule_name(), level: self.level }
    }

    /// The rule is enabled and the current line is absent or has no text.
    pub open spec fn finds(&self, state: GlobalState) -> bool {
        self.enabled && !(state.current matches Some(line) && line.1.len() > 0)
    }

    /// The values that the rule's message may refer to: none.
    pub open spec fn values(&self) -> Named {
        Named::empty()
    }

    /// What the rule reports in `state`.
    pub open spec fn verdict(&self, state: GlobalState) -> Verdict {
        Verdict {
            refused: false,
            found: self.finds(state),
            finding: self.finding(),
            template: self.message@,
            values: self.values(),
        }
    }

    /// Asks the rule about `item`: it hands back nothing where it has no
    /// finding, else the error with the rendered message.
    pub fn validate(&self, item: &Global) -> (r: Result<Option<ValidationError>, Fault>)
        ensures
            is_verdict(r, self.verdict(item.state())),
    {
        if !self.enabled {
            return Ok(None);
        }
        if let Some(content) = &item.current_content {
            if !content.1.as_str().is_empty() {
                return Ok(None);
            }
        }
        let context = Parameters::new();
        render_finding(Self::id(), Self::name(), self.level, self.message.as_str(), &context)
    }
}

impl Default for BlankLine {
    /// The rule as it is by default, with its message in English.
    fn default() -> (rule: Self)
        ensures
            rule.is_default_in(Lang::EN),
    {
        Self::localized(Lang::EN)
    }
}

} // verus!
