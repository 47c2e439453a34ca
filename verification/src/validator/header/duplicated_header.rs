//! The rule `DuplicatedHeader`.

use vstd::prelude::*;
use vstd::string::StringExecFns;

use crate::config::Base;
use crate::config::Lang;
use crate::errors::Fault;
use crate::template::Named;
use crate::template::Parameters;
use crate::validator::Finding;
use crate::validator::Level;
use crate::validator::ValidationError;
use crate::validator::Verdict;
use crate::validator::header::Header;
use crate::validator::header::HeaderState;
use crate::validator::is_verdict;
use crate::validator::render_finding;

verus! {

/// Reports a file with more than one header line.
#[derive(Debug)]
pub struct DuplicatedHeader {
    /// Whether the rule is asked at all.
    pub enabled: bool,
    /// The level of what the rule reports.
    pub level: Level,
    /// The template of the rule's message.
    pub message: String,
}

impl Base for DuplicatedHeader {
    /// The rule's code.
    open spec fn rule_id() -> Seq<char> {
        "JV_VR0005"@
    }

    /// The rule's name.
    open spec fn rule_name() -> Seq<char> {
        "Header/DuplicatedHeader"@
    }

    /// The rule's code.
    fn id() -> (id: &'static str) {
        "JV_VR0005"
    }

    /// The rule's name.
    fn name() -> (name: &'static str) {
        "Header/DuplicatedHeader"
    }
}

impl DuplicatedHeader {
    /// The rule's default message in `lang`.
    pub open spec fn message_in(lang: Lang) -> Seq<char> {
        match lang {
            Lang::EN => "Multiple header lines starting with # were found. All but the first header will be ignored."@,
            Lang::JA => "#から始まるヘッダー行が複数見つかりました。最初のヘッダー以外は無視されます。"@,
        }
    }

    /// The rule is as it is by default, with its message in `lang`.
    pub open spec fn is_default_in(&self, lang: Lang) -> bool {
        &&& self.enabled
        &&& self.level == Level::Warning
        &&& self.message@ == Self::message_in(lang)
    }

    /// The rule as it is by default, with its message in `lang`.
    pub fn localized(lang: Lang) -> (rule: Self)
        ensures
            rule.is_default_in(lang),
    {
        Self {
            enabled: true,
            level: Level::Warning,
            message: match lang {
                Lang::EN => String::from_str("Multiple header lines starting with # were found. All but the first header will be ignored."),
                Lang::JA => String::from_str("#から始まるヘッダー行が複数見つかりました。最初のヘッダー以外は無視されます。"),
            },
        }
    }

    /// What the rule reports when it reports.
    pub open spec fn finding(&self) -> Finding {
        Finding { id: Self::rule_id(), name: Self::rule_name(), level: self.level }
    }

    /// The rule is enabled and more than one header line was seen.
    pub open spec fn finds(&self, state: HeaderState) -> bool {
        self.enabled && state.contents.len() > 1
    }

    /// The values that the rule's message may refer to: none.
    pub open spec fn values(&self) -> Named {
        Named::empty()
    }

    /// What the rule reports in `state`.
    pub open spec fn verdict(&self, state: HeaderState) -> Verdict {
        Verdict {
            refused: false,
            found: self.finds(state),
            finding: self.finding(),
            template: self.message@,
            values: self.values(),
        }
    }

    /// Asks the rule about `item`: it hands back nothing where it has no
    /// finding, else the error with the rendered message.
    pub fn validate(&self, item: &Header) -> (r: Result<Option<ValidationError>, Fault>)
        ensures
            is_verdict(r, self.verdict(item.state())),
    {
        if !self.enabled {
            return Ok(None);
        }
        if item.contents.len() <= 1 {
            return Ok(None);
        }
        let context = Parameters::new();
        render_finding(Self::id(), Self::name(), self.level, self.message.as_str(), &context)
    }
}

impl Default for DuplicatedHeader {
    /// The rule as it is by default, with its message in English.
    fn default() -> (rule: Self)
        ensures
            rule.is_default_in(Lang::EN),
    {
        Self::localized(Lang::EN)
    }
}

} // verus!
