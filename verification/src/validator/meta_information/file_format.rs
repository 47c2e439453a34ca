//! The rule `FileFormat`.

use vstd::prelude::*;
use vstd::string::StringExecFns;

use crate::config::Base;
use crate::config::Lang;
use crate::errors::Fault;
use crate::pattern::regex_compiles;
use crate::template::Named;
use crate::template::Parameters;
use crate::text::join;
use crate::text::join_strings;
use crate::text::texts;
use crate::validator::Finding;
use crate::validator::Level;
use crate::validator::ValidationError;
use crate::validator::Verdict;
use crate::validator::is_verdict;
use crate::validator::meta_information::MetaInformation;
use crate::validator::meta_information::MetaState;
use crate::validator::meta_information::declaration_pattern;
use crate::validator::meta_information::declarations;
use crate::validator::meta_information::declared;
use crate::validator::meta_information::is_declared;
use crate::validator::meta_information::which_declare;
use crate::validator::render_finding;

verus! {

/// Reports a file that does not declare its format exactly once, in its first
/// line, as one of the allowed versions.
#[derive(Debug)]
pub struct FileFormat {
    /// Whether the rule is asked at all.
    pub enabled: bool,
    /// The level of what the rule reports.
    pub level: Level,
    /// The template of the rule's message.
    pub message: String,
}

impl Base for FileFormat {
    /// The rule's code.
    open spec fn rule_id() -> Seq<char> {
        "JV_VR0001"@
    }

    /// The rule's name.
    open spec fn rule_name() -> Seq<char> {
        "MetaInformation/FileFormat"@
    }

    /// The rule's code.
    fn id() -> (id: &'static str) {
        "JV_VR0001"
    }

    /// The rule's name.
    fn name() -> (name: &'static str) {
        "MetaInformation/FileFormat"
    }
}

impl FileFormat {
    /// The rule's default message in `lang`.
    pub open spec fn message_in(lang: Lang) -> Seq<char> {
        match lang {
            Lang::EN => "A single `fileformat` line is always required, must be the first line in the file."@,
            Lang::JA => "ファイルの先頭に`fileformat`行が必ず1つ必要です。"@,
        }
    }

    /// The rule is as it is by default, with its message in `lang`.
    pub open spec fn is_default_in(&self, lang: Lang) -> bool {
        &&& self.enabled
        &&& self.level == Level::Error
        &&& self.message@ == Self::message_in(lang)
    }

    /// The rule as it is by default, with its message in `lang`.
    pub fn localized(lang: Lang) -> (rule: Self)
        ensures
            rule.is_default_in(lang),
    {
        Self {
            enabled: true,
            level: Level::Error,
            message: match lang {
                Lang::EN => String::from_str("A single `fileformat` line is always required, must be the first line in the file."),
                Lang::JA => String::from_str("ファイルの先頭に`fileformat`行が必ず1つ必要です。"),
            },
        }
    }

    /// What the rule reports when it reports.
    pub open spec fn finding(&self) -> Finding {
        Finding { id: Self::rule_id(), name: Self::rule_name(), level: self.level }
    }

    /// The rule is enabled, and it is not so that exactly one line declares a
    /// format, that it is line 1 and that it declares one of `allowed`, the
    /// versions that the rule on versions allows.
    pub open spec fn finds(&self, state: MetaState, allowed: Seq<Seq<char>>) -> bool {
        self.enabled && !declared(state.contents, declarations(state.contents), allowed)
    }

    /// The values that the rule's message may refer to: `allowed`, the
    /// allowed versions with `, ` between them.
    pub open spec fn values(&self, allowed: Seq<Seq<char>>) -> Named {
        Named::empty().text("allowed"@, join(allowed, ", "@))
    }

    /// The rule looks for declarations among the lines of `state`, for
    /// which it needs the declaration pattern: it is enabled and there are
    /// lines.
    pub open spec fn asks(&self, state: MetaState) -> bool {
        self.enabled && state.contents.len() > 0
    }

    /// What the rule reports in `state` while `allowed` are the versions
    /// that the rule on versions allows. It is refused where it looks for
    /// declarations and the declaration pattern does not compile.
    pub open spec fn verdict(&self, state: MetaState, allowed: Seq<Seq<char>>) -> Verdict {
        Verdict {
            refused: self.asks(state) && !regex_compiles(declaration_pattern()),
            found: self.finds(state, allowed),
            finding: self.finding(),
            template: self.message@,
            values: self.values(allowed),
        }
    }

    /// Asks the rule about `item`: it hands back nothing where it has no
    /// finding, else the error with the rendered message. Where the
    /// declaration pattern does not compile, that is the fault.
    pub fn validate(&self, item: &MetaInformation) -> (r: Result<Option<ValidationError>, Fault>)
        ensures
            is_verdict(r, self.verdict(item.state(), texts(item.config.version.allowed@))),
    {
        if !self.enabled {
            return Ok(None);
        }
        let allowed = &item.config.version.allowed;
        let declaring = match which_declare(&item.contents) {
            Ok(declaring) => declaring,
            Err(refusal) => {
                return Err(Fault::Pattern(refusal));
            },
        };
        if is_declared(&item.contents, &declaring, allowed) {
            return Ok(None);
        }
        let mut context = Parameters::new();
        context.insert_text(String::from_str("allowed"), join_strings(allowed, ", "));
        render_finding(Self::id(), Self::name(), self.level, self.message.as_str(), &context)
    }
}

impl Default for FileFormat {
    /// The rule as it is by default, with its message in English.
    fn default() -> (rule: Self)
        ensures
            rule.is_default_in(Lang::EN),
    {
        Self::localized(Lang::EN)
    }
}

} // verus!
