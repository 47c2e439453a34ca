//! The rule `UnsortedPosition`.

use vstd::prelude::*;
use vstd::string::StringExecFns;

use crate::config::Base;
use crate::config::Lang;
use crate::errors::Fault;
use crate::template::Named;
use crate::template::Parameters;
use crate::text::parse_i64;
use crate::text::parse_signed;
use crate::validator::Finding;
use crate::validator::Level;
use crate::validator::ValidationError;
use crate::validator::Verdict;
use crate::validator::data::CHROM;
use crate::validator::data::Data;
use crate::validator::data::POS;
use crate::validator::data::RecordState;
use crate::validator::data::field;
use crate::validator::data::field_at;
use crate::validator::data::same_field;
use crate::validator::is_verdict;
use crate::validator::render_finding;

verus! {

/// Reports a record that stands before its predecessor on the same sequence.
#[derive(Debug)]
pub struct UnsortedPosition {
    /// Whether the rule is asked at all.
    pub enabled: bool,
    /// The level of what the rule reports.
    pub level: Level,
    /// The template of the rule's message.
    pub message: String,
}

impl Base for UnsortedPosition {
    /// The rule's code.
    open spec fn rule_id() -> Seq<char> {
        "JV_VR0026"@
    }

    /// The rule's name.
    open spec fn rule_name() -> Seq<char> {
        "Data/UnsortedPosition"@
    }

    /// The rule's code.
    fn id() -> (id: &'static str) {
        "JV_VR0026"
    }

    /// The rule's name.
    fn name() -> (name: &'static str) {
        "Data/UnsortedPosition"
    }
}

impl UnsortedPosition {
    /// The rule's default message in `lang`.
    pub open spec fn message_in(lang: Lang) -> Seq<char> {
        match lang {
            Lang::EN => "Positions must be sorted numerically, in increasing order, within each reference sequence CHROM."@,
            Lang::JA => "POSは各参照配列CHROMの中では昇順で数値ソートされている必要があります。"@,
        }
    }

    /// The rule is as it is by default, with its message in `lang`.
    pub open spec fn is_default_in(&self, lang: Lang) -> bool {
        &&& self.enabled
        &&& self.level == Level::Warning
        &&& self.message@ == Self::message_in(lang)
    }

    /// The rule as it is by default, with its message in `lang`.
    pub fn localized(lang: Lang) -> (rule: Self)
        ensures
            rule.is_default_in(lang),
    {
        Self {
            enabled: true,
            level: Level::Warning,
            message: match lang {
                Lang::EN => String::from_str("Positions must be sorted numerically, in increasing order, within each reference sequence CHROM."),
                Lang::JA => String::from_str("POSは各参照配列CHROMの中では昇順で数値ソートされている必要があります。"),
            },
        }
    }

    /// What the rule reports when it reports.
    pub open spec fn finding(&self) -> Finding {
        Finding { id: Self::rule_id(), name: Self::rule_name(), level: self.level }
    }

    /// The positions of two records are in order: both are there, both
    /// denote a signed number, and the first is at most the second.
    pub open spec fn in_order(first: Option<Seq<char>>, second: Option<Seq<char>>) -> bool {
        match (first, second) {
            (Some(a), Some(b)) => match (parse_signed(a), parse_signed(b)) {
                (Some(x), Some(y)) => x <= y,
                _ => false,
            },
            _ => false,
        }
    }

    /// The rule is enabled and there is a previous record, and the current
    /// record is absent, or has the same CHROM as the previous one while
    /// their positions are not in order.
    pub open spec fn finds(&self, state: RecordState) -> bool {
        &&& self.enabled
        &&& state.previous is Some
        &&& !(state.current is Some && (field(state.previous, CHROM as int) != field(
            state.current,
            CHROM as int,
        ) || Self::in_order(field(state.previous, POS as int), field(state.current, POS as int))))
    }

    /// The values that the rule's message may refer to: none.
    pub open spec fn values(&self) -> Named {
        Named::empty()
    }

    /// What the rule reports in `state`.
    pub open spec fn verdict(&self, state: RecordState) -> Verdict {
        Verdict {
            refused: false,
            found: self.finds(state),
            finding: self.finding(),
            template: self.message@,
            values: self.values(),
        }
    }

    /// Asks the rule about `item`: it hands back nothing where it has no
    /// finding, else the error with the rendered message.
    pub fn validate(&self, item: &Data) -> (r: Result<Option<ValidationError>, Fault>)
        ensures
            is_verdict(r, self.verdict(item.state())),
    {
        if !self.enabled {
            return Ok(None);
        }
        if item.previous_record.is_none() {
            return Ok(None);
        }
        if item.current_record.is_some() {
            let previous = field_at(&item.previous_record, CHROM);
            let current = field_at(&item.current_record, CHROM);
            if !same_field(previous, current) {
                return Ok(None);
            }
            let first = field_at(&item.previous_record, POS);
            let second = field_at(&item.current_record, POS);
            if let (Some(a), Some(b)) = (first, second) {
                if let (Some(x), Some(y)) = (parse_i64(a.as_str()), parse_i64(b.as_str())) {
                    if x <= y {
                        return Ok(None);
                    }
                }
            }
        }
        let context = Parameters::new();
        render_finding(Self::id(), Self::name(), self.level, self.message.as_str(), &context)
    }
}

impl Default for UnsortedPosition {
    /// The rule as it is by default, with its message in English.
    fn default() -> (rule: Self)
        ensures
            rule.is_default_in(Lang::EN),
    {
        Self::localized(Lang::EN)
    }
}

} // verus!
