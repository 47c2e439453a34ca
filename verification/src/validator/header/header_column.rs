//! The rule `HeaderColumn`.

use vstd::prelude::*;
use vstd::string::StringExecFns;

use crate::config::Base;
use crate::config::Lang;
use crate::errors::Fault;
use crate::template::Named;
use crate::template::Parameters;
use crate::text::begins_with;
use crate::text::join;
use crate::text::join_strings;
use crate::text::split;
use crate::text::split_fields;
use crate::text::texts;
use crate::text::without_first;
use crate::validator::Finding;
use crate::validator::Level;
use crate::validator::ValidationError;
use crate::validator::Verdict;
use crate::validator::header::Header;
use crate::validator::header::HeaderState;
use crate::validator::is_verdict;
use crate::validator::render_finding;
use crate::vcf::is_marked;
use crate::vcf::starts_with_marker;

verus! {

/// Reports a header that does not begin with the eight mandatory columns in
/// their order.
#[derive(Debug)]
pub struct HeaderColumn {
    /// Whether the rule is asked at all.
    pub enabled: bool,
    /// The level of what the rule reports.
    pub level: Level,
    /// The template of the rule's message.
    pub message: String,
}

impl Base for HeaderColumn {
    /// The rule's code.
    open spec fn rule_id() -> Seq<char> {
        "JV_VR0003"@
    }

    /// The rule's name.
    open spec fn rule_name() -> Seq<char> {
        "Header/HeaderColumn"@
    }

    /// The rule's code.
    fn id() -> (id: &'static str) {
        "JV_VR0003"
    }

    /// The rule's name.
    fn name() -> (name: &'static str) {
        "Header/HeaderColumn"
    }
}

impl HeaderColumn {
    /// The rule's default message in `lang`.
    pub open spec fn message_in(lang: Lang) -> Seq<char> {
        match lang {
            Lang::EN => "The header line names the 8 fixed, mandatory columns. These columns are as follows: {{columns}}."@,
            Lang::JA => "ヘッダー行には8つの固定カラム{{columns}}が必須です。"@,
        }
    }

    /// The rule is as it is by default, with its message in `lang`.
    pub open spec fn is_default_in(&self, lang: Lang) -> bool {
        &&& self.enabled
        &&& self.level == Level::Error
        &&& self.message@ == Self::message_in(lang)
    }

    /// The rule as it is by default, with its message in `lang`.
    pub fn localized(lang: Lang) -> (rule: Self)
        ensures
            rule.is_default_in(lang),
    {
        Self {
            enabled: true,
            level: Level::Error,
            message: match lang {
                Lang::EN => String::from_str("The header line names the 8 fixed, mandatory columns. These columns are as follows: {{columns}}."),
                Lang::JA => String::from_str("ヘッダー行には8つの固定カラム{{columns}}が必須です。"),
            },
        }
    }

    /// What the rule reports when it reports.
    pub open spec fn finding(&self) -> Finding {
        Finding { id: Self::rule_id(), name: Self::rule_name(), level: self.level }
    }

    /// The eight columns that every header names first.
    pub open spec fn expected() -> Seq<Seq<char>> {
        seq!["CHROM"@, "POS"@, "ID"@, "REF"@, "ALT"@, "QUAL"@, "FILTER"@, "INFO"@]
    }

    /// `text` is the marker `#` followed by tab-separated columns of which
    /// the first eight are the expected ones.
    pub open spec fn names_columns(text: Seq<char>) -> bool {
        let columns = split(text.skip(1), '\t');
        is_marked(text) && columns.len() >= 8 && columns.take(8) == Self::expected()
    }

    /// The rule is enabled, and it is not so that exactly one header line was
    /// seen and names the expected columns.
    pub open spec fn finds(&self, state: HeaderState) -> bool {
        self.enabled && !(state.contents.len() == 1 && Self::names_columns(state.contents[0].1))
    }

    /// The values that the rule's message may refer to: `columns`, the
    /// expected columns with `, ` between them.
    pub open spec fn values(&self) -> Named {
        Named::empty().text("columns"@, join(Self::expected(), ", "@))
    }

    /// The eight columns that every header names first.
    pub fn expected_columns() -> (columns: Vec<String>)
        ensures
            texts(columns@) == Self::expected(),
    {
        let mut columns: Vec<String> = Vec::new();
        columns.push(String::from_str("CHROM"));
        columns.push(String::from_str("POS"));
        columns.push(String::from_str("ID"));
        columns.push(String::from_str("REF"));
        columns.push(String::from_str("ALT"));
        columns.push(String::from_str("QUAL"));
        columns.push(String::from_str("FILTER"));
        columns.push(String::from_str("INFO"));
        assert(texts(columns@) =~= Self::expected());
        columns
    }

    /// What the rule reports in `state`.
    pub open spec fn verdict(&self, state: HeaderState) -> Verdict {
        Verdict {
            refused: false,
            found: self.finds(state),
            finding: self.finding(),
            template: self.message@,
            values: self.values(),
        }
    }

    /// Asks the rule about `item`: it hands back nothing where it has no
    /// finding, else the error with the rendered message.
    pub fn validate(&self, item: &Header) -> (r: Result<Option<ValidationError>, Fault>)
        ensures
            is_verdict(r, self.verdict(item.state())),
    {
        if !self.enabled {
            return Ok(None);
        }
        let expected = Self::expected_columns();
        if item.contents.len() == 1 {
            let text = item.contents[0].1.as_str();
            if starts_with_marker(text) {
                let rest = without_first(text);
                let columns = split_fields(rest.as_str(), '\t');
                if begins_with(&columns, &expected) {
                    assert(item.state().contents[0].1 == text@);
                    assert(texts(expected@).len() == 8);
                    assert(texts(columns@).len() == columns@.len());
                    return Ok(None);
                }
                assert(texts(expected@).len() == 8);
                assert(texts(columns@).len() == columns@.len());
            }
        }
        let mut context = Parameters::new();
        context.insert_text(String::from_str("columns"), join_strings(&expected, ", "));
        render_finding(Self::id(), Self::name(), self.level, self.message.as_str(), &context)
    }
}

impl Default for HeaderColumn {
    /// The rule as it is by default, with its message in English.
    fn default() -> (rule: Self)
        ensures
            rule.is_default_in(Lang::EN),
    {
        Self::localized(Lang::EN)
    }
}

} // verus!
