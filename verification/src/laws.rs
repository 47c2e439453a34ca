//! What holds of the rule catalogue as a whole: each rule reports on its own,
//! and what is validated determines the report.

use vstd::prelude::*;
use vstd::utf8::decode_utf8;
use vstd::utf8::valid_utf8;

use crate::config::Base;
use crate::config::Config;
use crate::template::Named;
use crate::text::texts;
use crate::text::trim_end;
use crate::validator::Finding;
use crate::validator::ValidationError;
use crate::validator::ValidationReport;
use crate::validator::Verdict;
use crate::validator::are_continued;
use crate::validator::are_reports;
use crate::validator::data::Answer;
use crate::validator::data::RecordModel;
use crate::validator::data::RecordState;
use crate::validator::data::allowed_alternate_base::AllowedAlternateBase;
use crate::validator::data::allowed_reference_base::AllowedReferenceBase;
use crate::validator::data::ambiguous_alternate_base::AmbiguousAlternateBase;
use crate::validator::data::ambiguous_reference_base::AmbiguousReferenceBase;
use crate::validator::data::deletion_length::DeletionLength;
use crate::validator::data::discontiguous_chromosome::DiscontiguousChromosome;
use crate::validator::data::found_in_record;
use crate::validator::data::identical_bases::IdenticalBases;
use crate::validator::data::insertion_length::InsertionLength;
use crate::validator::data::lemma_record_verdicts;
use crate::validator::data::mismatch_reference_base::MismatchReferenceBase;
use crate::validator::data::missing_alternate_base::MissingAlternateBase;
use crate::validator::data::missing_reference_base::MissingReferenceBase;
use crate::validator::data::multiple_alternate_alleles::MultipleAlternateAlleles;
use crate::validator::data::opened;
use crate::validator::data::position_format::PositionFormat;
use crate::validator::data::record_verdicts;
use crate::validator::data::unsorted_position::UnsortedPosition;
use crate::validator::engine::PassModel;
use crate::validator::engine::Validator;
use crate::validator::engine::is_run;
use crate::validator::engine::is_validation;
use crate::validator::engine::validation_of;
use crate::validator::findings::ErrorMap;
use crate::validator::findings::Findings;
use crate::validator::findings::key_for;
use crate::validator::findings_of;
use crate::validator::global::GlobalModel;
use crate::validator::global::GlobalState;
use crate::validator::global::arrived;
use crate::validator::global::blank_line::BlankLine;
use crate::validator::global::data_before_header::DataBeforeHeader;
use crate::validator::global::empty_vcf::EmptyVCF;
use crate::validator::global::end_verdicts;
use crate::validator::global::found_at_end;
use crate::validator::global::found_in_line;
use crate::validator::global::line_verdicts;
use crate::validator::header::HeaderState;
use crate::validator::header::duplicated_header::DuplicatedHeader;
use crate::validator::header::found_in_header;
use crate::validator::header::header_column::HeaderColumn;
use crate::validator::header::header_line::HeaderLine;
use crate::validator::header::header_verdicts;
use crate::validator::is_rendering;
use crate::validator::meta_information::MetaState;
use crate::validator::meta_information::file_format::FileFormat;
use crate::validator::meta_information::found_in_preamble;
use crate::validator::meta_information::preamble_verdicts;
use crate::validator::meta_information::version::Version;
use crate::validator::one;
use crate::validator::reported;
use crate::vcf::is_marked;

verus! {

/// What two runs of rules report one after the other is what the two runs
/// report as one.
pub proof fn lemma_reported_in_parts(first: Seq<Verdict>, second: Seq<Verdict>)
    ensures
        reported(first + second) == reported(first) + reported(second),
    decreases second.len(),
{
    if second.len() == 0 {
        assert(first + second =~= first);
        assert(reported(first) + reported(second) =~= reported(first));
    } else {
        lemma_reported_in_parts(first, second.drop_last());
        assert((first + second).drop_last() =~= first + second.drop_last());
        assert((first + second).last() == second.last());
        assert(reported(first + second) =~= reported(first) + reported(second));
    }
}

/// Each rule reports at most once, so a run of rules reports at most as
/// often as there are rules.
pub proof fn lemma_reported_at_most_once(verdicts: Seq<Verdict>)
    ensures
        reported(verdicts).len() <= verdicts.len(),
    decreases verdicts.len(),
{
    if verdicts.len() > 0 {
        lemma_reported_at_most_once(verdicts.drop_last());
    }
}

/// A rule without a finding contributes nothing: where no rule of a run has
/// a finding, as where every rule is disabled, the run reports nothing.
pub proof fn lemma_reported_none(verdicts: Seq<Verdict>)
    requires
        forall|k: int| 0 <= k < verdicts.len() ==> !verdicts[k].found,
    ensures
        reported(verdicts) == Seq::<Finding>::empty(),
    decreases verdicts.len(),
{
    if verdicts.len() > 0 {
        lemma_reported_none(verdicts.drop_last());
        assert(reported(verdicts) =~= Seq::<Finding>::empty());
    }
}

/// What a run of rules reports is made of three parts that do not depend on
/// one another: what the rules before place `k` report, what the rule at
/// place `k` reports, and what the rules behind it report.
pub proof fn lemma_reported_around(verdicts: Seq<Verdict>, k: int)
    requires
        0 <= k < verdicts.len(),
    ensures
        reported(verdicts) == reported(verdicts.take(k)) + one(
            verdicts[k].found,
            verdicts[k].finding,
        ) + reported(verdicts.skip(k + 1)),
{
    let before = verdicts.take(k);
    let at = seq![verdicts[k]];
    let behind = verdicts.skip(k + 1);
    assert(verdicts =~= before + at + behind);
    lemma_reported_in_parts(before + at, behind);
    lemma_reported_in_parts(before, at);
    assert(at.drop_last() =~= Seq::<Verdict>::empty());
    assert(reported(at.drop_last()) =~= Seq::<Finding>::empty());
    assert(at.last() == verdicts[k]);
    assert(reported(at) =~= one(verdicts[k].found, verdicts[k].finding));
}

/// Disabling one rule never changes the outcome of another. Let two runs of
/// the same rules differ in the rule at place `k` alone, which has no finding
/// in the second run, as a disabled rule has none. Then the second run
/// reports what the first reports without the finding of that rule: one
/// error less where the rule had a finding, and the same errors where it had
/// none.
pub proof fn lemma_disabling_one_rule(verdicts: Seq<Verdict>, disabled: Seq<Verdict>, k: int)
    requires
        0 <= k < verdicts.len(),
        disabled.len() == verdicts.len(),
        forall|j: int| 0 <= j < verdicts.len() && j != k ==> disabled[j] == verdicts[j],
        !disabled[k].found,
    ensures
        reported(disabled) == reported(verdicts.take(k)) + reported(verdicts.skip(k + 1)),
        reported(verdicts) == reported(verdicts.take(k)) + one(
            verdicts[k].found,
            verdicts[k].finding,
        ) + reported(verdicts.skip(k + 1)),
        reported(disabled).len() + (if verdicts[k].found {
            1int
        } else {
            0int
        }) == reported(verdicts).len(),
{
    lemma_reported_around(verdicts, k);
    lemma_reported_around(disabled, k);
    assert(disabled.take(k) =~= verdicts.take(k));
    assert(disabled.skip(k + 1) =~= verdicts.skip(k + 1));
    assert(reported(disabled) =~= reported(verdicts.take(k)) + reported(verdicts.skip(k + 1)));
}

/// The findings of `found` that do not carry the code `id`, in their order.
pub open spec fn others(found: Seq<Finding>, id: Seq<char>) -> Seq<Finding>
    decreases found.len(),
{
    if found.len() == 0 {
        Seq::empty()
    } else if found.last().id == id {
        others(found.drop_last(), id)
    } else {
        others(found.drop_last(), id).push(found.last())
    }
}

/// The others of two runs of findings, one after the other, are the others
/// of the first and then those of the second.
pub proof fn lemma_others_in_parts(first: Seq<Finding>, second: Seq<Finding>, id: Seq<char>)
    ensures
        others(first + second, id) == others(first, id) + others(second, id),
    decreases second.len(),
{
    if second.len() == 0 {
        assert(first + second =~= first);
        assert(others(first, id) + others(second, id) =~= others(first, id));
    } else {
        lemma_others_in_parts(first, second.drop_last(), id);
        assert((first + second).drop_last() =~= first + second.drop_last());
        assert((first + second).last() == second.last());
        assert(others(first + second, id) =~= others(first, id) + others(second, id));
    }
}

/// Two runs of the same rules give the same verdicts but for the rules that
/// carry the code `id`.
pub open spec fn alike_but(first: Seq<Verdict>, second: Seq<Verdict>, id: Seq<char>) -> bool {
    &&& first.len() == second.len()
    &&& forall|k: int|
        0 <= k < first.len() ==> first[k] == second[k] || (first[k].finding.id == id
            && second[k].finding.id == id)
}

/// Two runs of rules whose verdicts are alike but for the rules with the
/// code `id` report the same findings of the other rules, in the same
/// order.
pub proof fn lemma_reported_alike(first: Seq<Verdict>, second: Seq<Verdict>, id: Seq<char>)
    requires
        alike_but(first, second, id),
    ensures
        others(reported(first), id) == others(reported(second), id),
    decreases first.len(),
{
    if first.len() > 0 {
        assert(alike_but(first.drop_last(), second.drop_last(), id)) by {
            assert forall|k: int| 0 <= k < first.drop_last().len() implies first.drop_last()[k]
                == second.drop_last()[k] || (first.drop_last()[k].finding.id == id
                && second.drop_last()[k].finding.id == id) by {
                assert(first.drop_last()[k] == first[k]);
                assert(second.drop_last()[k] == second[k]);
            }
        }
        lemma_reported_alike(first.drop_last(), second.drop_last(), id);
        let a = one(first.last().found, first.last().finding);
        let b = one(second.last().found, second.last().finding);
        lemma_others_in_parts(reported(first.drop_last()), a, id);
        lemma_others_in_parts(reported(second.drop_last()), b, id);
        assert(first[first.len() - 1] == first.last());
        assert(second[second.len() - 1] == second.last());
        assert(others(a, id) =~= others(b, id)) by {
            reveal_with_fuel(others, 2);
            assert(a.len() > 0 ==> a.drop_last() =~= Seq::<Finding>::empty());
            assert(b.len() > 0 ==> b.drop_last() =~= Seq::<Finding>::empty());
        }
    }
}

/// Two collections of findings hold, under every key, the same findings of
/// the rules that do not carry the code `id`, in the same order.
pub open spec fn same_but(first: Findings, second: Findings, id: Seq<char>) -> bool {
    forall|key: Option<usize>| others(#[trigger] first.at(key), id) == others(second.at(key), id)
}

/// Adding findings that agree in the other rules keeps two collections the
/// same in the other rules.
pub proof fn lemma_extend_alike(
    first: Findings,
    second: Findings,
    line: Option<(usize, Seq<char>)>,
    found_first: Seq<Finding>,
    found_second: Seq<Finding>,
    id: Seq<char>,
)
    requires
        same_but(first, second, id),
        others(found_first, id) == others(found_second, id),
    ensures
        same_but(first.extend(line, found_first), second.extend(line, found_second), id),
{
    let at = key_for(line);
    let a = first.extend(line, found_first);
    let b = second.extend(line, found_second);
    assert forall|key: Option<usize>| others(#[trigger] a.at(key), id) == others(
        b.at(key),
        id,
    ) by {
        assert(others(first.at(key), id) == others(second.at(key), id));
        if key == at {
            assert(a.at(key) =~= first.at(key) + found_first);
            assert(b.at(key) =~= second.at(key) + found_second);
            lemma_others_in_parts(first.at(key), found_first, id);
            lemma_others_in_parts(second.at(key), found_second, id);
        } else {
            assert(a.at(key) == first.at(key));
            assert(b.at(key) == second.at(key));
        }
    }
}

/// The rule on each line at place `k` of their order is configured in `a` as
/// it is in `b`.
pub open spec fn same_line_rule(a: Config, b: Config, k: int) -> bool {
    if k == 0 {
        a.data_before_header == b.data_before_header
    } else if k == 1 {
        a.blank_line == b.blank_line
    } else {
        true
    }
}

/// The rule on each line at place `k` of their order is enabled in `config`.
pub open spec fn line_rule_enabled(config: Config, k: int) -> bool {
    if k == 0 {
        config.data_before_header.enabled
    } else if k == 1 {
        config.blank_line.enabled
    } else {
        true
    }
}

/// What a rule on each line reports depends on the state and on the rule's own
/// configuration: two configurations in which the rule is configured alike
/// give the same verdict in every state, however they configure the other
/// rules.
pub proof fn lemma_line_rule_is_independent(a: Config, b: Config, state: GlobalState, k: int)
    requires
        0 <= k < 2,
        same_line_rule(a, b, k),
    ensures
        line_verdicts(a, state)[k] == line_verdicts(b, state)[k],
{
}

/// A disabled rule on each line has no finding, whatever the state.
pub proof fn lemma_disabled_line_rule_is_silent(config: Config, state: GlobalState, k: int)
    requires
        0 <= k < 2,
        !line_rule_enabled(config, k),
    ensures
        !line_verdicts(config, state)[k].found,
{
}

/// Disabling one rule on each line takes its finding away and changes no other.
/// Let `b` configure every rule but the one at place `k` as `a` does, and
/// let that rule be disabled in `b`. Then in every state the rules report
/// under `b` what they report under `a` without the finding of that rule:
/// one error less where the rule had a finding, and the same errors where
/// it had none.
pub proof fn lemma_line_rules_without_one(a: Config, b: Config, state: GlobalState, k: int)
    requires
        0 <= k < 2,
        forall|j: int| 0 <= j < 2 && j != k ==> same_line_rule(a, b, j),
        !line_rule_enabled(b, k),
    ensures
        found_in_line(b, state) == reported(line_verdicts(a, state).take(k)) + reported(
            line_verdicts(a, state).skip(k + 1),
        ),
        found_in_line(a, state) == reported(line_verdicts(a, state).take(k)) + one(
            line_verdicts(a, state)[k].found,
            line_verdicts(a, state)[k].finding,
        ) + reported(line_verdicts(a, state).skip(k + 1)),
        found_in_line(b, state).len() + (if line_verdicts(a, state)[k].found {
            1int
        } else {
            0int
        }) == found_in_line(a, state).len(),
{
    let with = line_verdicts(a, state);
    let without = line_verdicts(b, state);
    assert forall|j: int| 0 <= j < 2 && j != k implies without[j] == with[j] by {
        lemma_line_rule_is_independent(a, b, state, j);
    }
    lemma_disabled_line_rule_is_silent(b, state, k);
    lemma_disabling_one_rule(with, without, k);
}

/// The code of the rule on each line at place `k` of their order.
pub open spec fn line_rule_id(k: int) -> Seq<char> {
    if k == 0 {
        DataBeforeHeader::rule_id()
    } else if k == 1 {
        BlankLine::rule_id()
    } else {
        Seq::empty()
    }
}

/// Every rule on each line whose code is not `id` is configured in `a` as it is
/// in `b`.
pub open spec fn line_rules_alike_but(a: Config, b: Config, id: Seq<char>) -> bool {
    forall|k: int| 0 <= k < 2 ==> same_line_rule(a, b, k) || line_rule_id(k) == id
}

/// Where every rule on each line whose code is not `id` is configured alike,
/// the rules give the same verdicts in every state, but for the rules that
/// carry that code.
pub proof fn lemma_line_verdicts_alike(a: Config, b: Config, state: GlobalState, id: Seq<char>)
    requires
        line_rules_alike_but(a, b, id),
    ensures
        alike_but(line_verdicts(a, state), line_verdicts(b, state), id),
{
    let first = line_verdicts(a, state);
    let second = line_verdicts(b, state);
    assert forall|k: int| 0 <= k < first.len() implies first[k] == second[k] || (first[k].finding.id
        == id && second[k].finding.id == id) by {
        if same_line_rule(a, b, k) {
            lemma_line_rule_is_independent(a, b, state, k);
        } else {
            assert(line_rule_id(k) == id);
            assert(first[k].finding.id == line_rule_id(k));
            assert(second[k].finding.id == line_rule_id(k));
        }
    }
}

/// The rule on the end of the file at place `k` of their order is configured in `a` as
/// it is in `b`.
pub open spec fn same_end_rule(a: Config, b: Config, k: int) -> bool {
    if k == 0 {
        a.empty_vcf == b.empty_vcf
    } else {
        true
    }
}

/// The rule on the end of the file at place `k` of their order is enabled in `config`.
pub open spec fn end_rule_enabled(config: Config, k: int) -> bool {
    if k == 0 {
        config.empty_vcf.enabled
    } else {
        true
    }
}

/// What a rule on the end of the file reports depends on the state and on the rule's own
/// configuration: two configurations in which the rule is configured alike
/// give the same verdict in every state, however they configure the other
/// rules.
pub proof fn lemma_end_rule_is_independent(a: Config, b: Config, state: GlobalState, k: int)
    requires
        0 <= k < 1,
        same_end_rule(a, b, k),
    ensures
        end_verdicts(a, state)[k] == end_verdicts(b, state)[k],
{
}

/// A disabled rule on the end of the file has no finding, whatever the state.
pub proof fn lemma_disabled_end_rule_is_silent(config: Config, state: GlobalState, k: int)
    requires
        0 <= k < 1,
        !end_rule_enabled(config, k),
    ensures
        !end_verdicts(config, state)[k].found,
{
}

/// Disabling one rule on the end of the file takes its finding away and changes no other.
/// Let `b` configure every rule but the one at place `k` as `a` does, and
/// let that rule be disabled in `b`. Then in every state the rules report
/// under `b` what they report under `a` without the finding of that rule:
/// one error less where the rule had a finding, and the same errors where
/// it had none.
pub proof fn lemma_end_rules_without_one(a: Config, b: Config, state: GlobalState, k: int)
    requires
        0 <= k < 1,
        forall|j: int| 0 <= j < 1 && j != k ==> same_end_rule(a, b, j),
        !end_rule_enabled(b, k),
    ensures
        found_at_end(b, state) == reported(end_verdicts(a, state).take(k)) + reported(
            end_verdicts(a, state).skip(k + 1),
        ),
        found_at_end(a, state) == reported(end_verdicts(a, state).take(k)) + one(
            end_verdicts(a, state)[k].found,
            end_verdicts(a, state)[k].finding,
        ) + reported(end_verdicts(a, state).skip(k + 1)),
        found_at_end(b, state).len() + (if end_verdicts(a, state)[k].found {
            1int
        } else {
            0int
        }) == found_at_end(a, state).len(),
{
    let with = end_verdicts(a, state);
    let without = end_verdicts(b, state);
    assert forall|j: int| 0 <= j < 1 && j != k implies without[j] == with[j] by {
        lemma_end_rule_is_independent(a, b, state, j);
    }
    lemma_disabled_end_rule_is_silent(b, state, k);
    lemma_disabling_one_rule(with, without, k);
}

/// The code of the rule on the end of the file at place `k` of their order.
pub open spec fn end_rule_id(k: int) -> Seq<char> {
    if k == 0 {
        EmptyVCF::rule_id()
    } else {
        Seq::empty()
    }
}

/// Every rule on the end of the file whose code is not `id` is configured in `a` as it is
/// in `b`.
pub open spec fn end_rules_alike_but(a: Config, b: Config, id: Seq<char>) -> bool {
    forall|k: int| 0 <= k < 1 ==> same_end_rule(a, b, k) || end_rule_id(k) == id
}

/// Where every rule on the end of the file whose code is not `id` is configured alike,
/// the rules give the same verdicts in every state, but for the rules that
/// carry that code.
pub proof fn lemma_end_verdicts_alike(a: Config, b: Config, state: GlobalState, id: Seq<char>)
    requires
        end_rules_alike_but(a, b, id),
    ensures
        alike_but(end_verdicts(a, state), end_verdicts(b, state), id),
{
    let first = end_verdicts(a, state);
    let second = end_verdicts(b, state);
    assert forall|k: int| 0 <= k < first.len() implies first[k] == second[k] || (first[k].finding.id
        == id && second[k].finding.id == id) by {
        if same_end_rule(a, b, k) {
            lemma_end_rule_is_independent(a, b, state, k);
        } else {
            assert(end_rule_id(k) == id);
            assert(first[k].finding.id == end_rule_id(k));
            assert(second[k].finding.id == end_rule_id(k));
        }
    }
}

/// The rule on the header at place `k` of their order is configured in `a` as
/// it is in `b`.
pub open spec fn same_header_rule(a: Config, b: Config, k: int) -> bool {
    if k == 0 {
        a.duplicated_header == b.duplicated_header
    } else if k == 1 {
        a.header_column == b.header_column
    } else if k == 2 {
        a.header_line == b.header_line
    } else {
        true
    }
}

/// The rule on the header at place `k` of their order is enabled in `config`.
pub open spec fn header_rule_enabled(config: Config, k: int) -> bool {
    if k == 0 {
        config.duplicated_header.enabled
    } else if k == 1 {
        config.header_column.enabled
    } else if k == 2 {
        config.header_line.enabled
    } else {
        true
    }
}

/// What a rule on the header reports depends on the state and on the rule's own
/// configuration: two configurations in which the rule is configured alike
/// give the same verdict in every state, however they configure the other
/// rules.
pub proof fn lemma_header_rule_is_independent(a: Config, b: Config, state: HeaderState, k: int)
    requires
        0 <= k < 3,
        same_header_rule(a, b, k),
    ensures
        header_verdicts(a, state)[k] == header_verdicts(b, state)[k],
{
}

/// A disabled rule on the header has no finding, whatever the state.
pub proof fn lemma_disabled_header_rule_is_silent(config: Config, state: HeaderState, k: int)
    requires
        0 <= k < 3,
        !header_rule_enabled(config, k),
    ensures
        !header_verdicts(config, state)[k].found,
{
}

/// Disabling one rule on the header takes its finding away and changes no other.
/// Let `b` configure every rule but the one at place `k` as `a` does, and
/// let that rule be disabled in `b`. Then in every state the rules report
/// under `b` what they report under `a` without the finding of that rule:
/// one error less where the rule had a finding, and the same errors where
/// it had none.
pub proof fn lemma_header_rules_without_one(a: Config, b: Config, state: HeaderState, k: int)
    requires
        0 <= k < 3,
        forall|j: int| 0 <= j < 3 && j != k ==> same_header_rule(a, b, j),
        !header_rule_enabled(b, k),
    ensures
        found_in_header(b, state) == reported(header_verdicts(a, state).take(k)) + reported(
            header_verdicts(a, state).skip(k + 1),
        ),
        found_in_header(a, state) == reported(header_verdicts(a, state).take(k)) + one(
            header_verdicts(a, state)[k].found,
            header_verdicts(a, state)[k].finding,
        ) + reported(header_verdicts(a, state).skip(k + 1)),
        found_in_header(b, state).len() + (if header_verdicts(a, state)[k].found {
            1int
        } else {
            0int
        }) == found_in_header(a, state).len(),
{
    let with = header_verdicts(a, state);
    let without = header_verdicts(b, state);
    assert forall|j: int| 0 <= j < 3 && j != k implies without[j] == with[j] by {
        lemma_header_rule_is_independent(a, b, state, j);
    }
    lemma_disabled_header_rule_is_silent(b, state, k);
    lemma_disabling_one_rule(with, without, k);
}

/// The code of the rule on the header at place `k` of their order.
pub open spec fn header_rule_id(k: int) -> Seq<char> {
    if k == 0 {
        DuplicatedHeader::rule_id()
    } else if k == 1 {
        HeaderColumn::rule_id()
    } else if k == 2 {
        HeaderLine::rule_id()
    } else {
        Seq::empty()
    }
}

/// Every rule on the header whose code is not `id` is configured in `a` as it is
/// in `b`.
pub open spec fn header_rules_alike_but(a: Config, b: Config, id: Seq<char>) -> bool {
    forall|k: int| 0 <= k < 3 ==> same_header_rule(a, b, k) || header_rule_id(k) == id
}

/// Where every rule on the header whose code is not `id` is configured alike,
/// the rules give the same verdicts in every state, but for the rules that
/// carry that code.
pub proof fn lemma_header_verdicts_alike(a: Config, b: Config, state: HeaderState, id: Seq<char>)
    requires
        header_rules_alike_but(a, b, id),
    ensures
        alike_but(header_verdicts(a, state), header_verdicts(b, state), id),
{
    let first = header_verdicts(a, state);
    let second = header_verdicts(b, state);
    assert forall|k: int| 0 <= k < first.len() implies first[k] == second[k] || (first[k].finding.id
        == id && second[k].finding.id == id) by {
        if same_header_rule(a, b, k) {
            lemma_header_rule_is_independent(a, b, state, k);
        } else {
            assert(header_rule_id(k) == id);
            assert(first[k].finding.id == header_rule_id(k));
            assert(second[k].finding.id == header_rule_id(k));
        }
    }
}

/// The rule on the preamble at place `k` of their order is configured in `a` as
/// it is in `b`, the versions that it goes by included.
pub open spec fn same_preamble_rule(a: Config, b: Config, k: int) -> bool {
    if k == 0 {
        a.file_format == b.file_format && texts(a.version.allowed@) == texts(b.version.allowed@)
    } else if k == 1 {
        a.version == b.version
    } else {
        true
    }
}

/// The rule on the preamble at place `k` of their order is enabled in `config`.
pub open spec fn preamble_rule_enabled(config: Config, k: int) -> bool {
    if k == 0 {
        config.file_format.enabled
    } else if k == 1 {
        config.version.enabled
    } else {
        true
    }
}

/// What a rule on the preamble reports depends on the state and on the rule's own
/// configuration: two configurations in which the rule is configured alike
/// give the same verdict in every state, however they configure the other
/// rules.
pub proof fn lemma_preamble_rule_is_independent(a: Config, b: Config, state: MetaState, k: int)
    requires
        0 <= k < 2,
        same_preamble_rule(a, b, k),
    ensures
        preamble_verdicts(a, state)[k] == preamble_verdicts(b, state)[k],
{
}

/// A disabled rule on the preamble has no finding, whatever the state.
pub proof fn lemma_disabled_preamble_rule_is_silent(config: Config, state: MetaState, k: int)
    requires
        0 <= k < 2,
        !preamble_rule_enabled(config, k),
    ensures
        !preamble_verdicts(config, state)[k].found,
{
}

/// Disabling one rule on the preamble takes its finding away and changes no other.
/// Let `b` configure every rule but the one at place `k` as `a` does, and
/// let that rule be disabled in `b`. Then in every state the rules report
/// under `b` what they report under `a` without the finding of that rule:
/// one error less where the rule had a finding, and the same errors where
/// it had none.
pub proof fn lemma_preamble_rules_without_one(a: Config, b: Config, state: MetaState, k: int)
    requires
        0 <= k < 2,
        forall|j: int| 0 <= j < 2 && j != k ==> same_preamble_rule(a, b, j),
        !preamble_rule_enabled(b, k),
    ensures
        found_in_preamble(b, state) == reported(preamble_verdicts(a, state).take(k)) + reported(
            preamble_verdicts(a, state).skip(k + 1),
        ),
        found_in_preamble(a, state) == reported(preamble_verdicts(a, state).take(k)) + one(
            preamble_verdicts(a, state)[k].found,
            preamble_verdicts(a, state)[k].finding,
        ) + reported(preamble_verdicts(a, state).skip(k + 1)),
        found_in_preamble(b, state).len() + (if preamble_verdicts(a, state)[k].found {
            1int
        } else {
            0int
        }) == found_in_preamble(a, state).len(),
{
    let with = preamble_verdicts(a, state);
    let without = preamble_verdicts(b, state);
    assert forall|j: int| 0 <= j < 2 && j != k implies without[j] == with[j] by {
        lemma_preamble_rule_is_independent(a, b, state, j);
    }
    lemma_disabled_preamble_rule_is_silent(b, state, k);
    lemma_disabling_one_rule(with, without, k);
}

/// The code of the rule on the preamble at place `k` of their order.
pub open spec fn preamble_rule_id(k: int) -> Seq<char> {
    if k == 0 {
        FileFormat::rule_id()
    } else if k == 1 {
        Version::rule_id()
    } else {
        Seq::empty()
    }
}

/// Every rule on the preamble whose code is not `id` is configured in `a` as it is
/// in `b`.
pub open spec fn preamble_rules_alike_but(a: Config, b: Config, id: Seq<char>) -> bool {
    forall|k: int| 0 <= k < 2 ==> same_preamble_rule(a, b, k) || preamble_rule_id(k) == id
}

/// Where every rule on the preamble whose code is not `id` is configured alike,
/// the rules give the same verdicts in every state, but for the rules that
/// carry that code.
pub proof fn lemma_preamble_verdicts_alike(a: Config, b: Config, state: MetaState, id: Seq<char>)
    requires
        preamble_rules_alike_but(a, b, id),
    ensures
        alike_but(preamble_verdicts(a, state), preamble_verdicts(b, state), id),
{
    let first = preamble_verdicts(a, state);
    let second = preamble_verdicts(b, state);
    assert forall|k: int| 0 <= k < first.len() implies first[k] == second[k] || (first[k].finding.id
        == id && second[k].finding.id == id) by {
        if same_preamble_rule(a, b, k) {
            lemma_preamble_rule_is_independent(a, b, state, k);
        } else {
            assert(preamble_rule_id(k) == id);
            assert(first[k].finding.id == preamble_rule_id(k));
            assert(second[k].finding.id == preamble_rule_id(k));
        }
    }
}

/// The rule on records at place `k` of their order is configured in `a` as
/// it is in `b`.
pub open spec fn same_record_rule(a: Config, b: Config, k: int) -> bool {
    if k == 0 {
        a.allowed_alternate_base == b.allowed_alternate_base
    } else if k == 1 {
        a.allowed_reference_base == b.allowed_reference_base
    } else if k == 2 {
        a.ambiguous_alternate_base == b.ambiguous_alternate_base
    } else if k == 3 {
        a.ambiguous_reference_base == b.ambiguous_reference_base
    } else if k == 4 {
        a.deletion_length == b.deletion_length
    } else if k == 5 {
        a.discontiguous_chromosome == b.discontiguous_chromosome
    } else if k == 6 {
        a.identical_bases == b.identical_bases
    } else if k == 7 {
        a.insertion_length == b.insertion_length
    } else if k == 8 {
        a.mismatch_reference_base == b.mismatch_reference_base
    } else if k == 9 {
        a.missing_alternate_base == b.missing_alternate_base
    } else if k == 10 {
        a.missing_reference_base == b.missing_reference_base
    } else if k == 11 {
        a.multiple_alternate_alleles == b.multiple_alternate_alleles
    } else if k == 12 {
        a.position_format == b.position_format
    } else if k == 13 {
        a.unsorted_position == b.unsorted_position
    } else {
        true
    }
}

/// The rule on records at place `k` of their order is enabled in `config`.
pub open spec fn record_rule_enabled(config: Config, k: int) -> bool {
    if k == 0 {
        config.allowed_alternate_base.enabled
    } else if k == 1 {
        config.allowed_reference_base.enabled
    } else if k == 2 {
        config.ambiguous_alternate_base.enabled
    } else if k == 3 {
        config.ambiguous_reference_base.enabled
    } else if k == 4 {
        config.deletion_length.enabled
    } else if k == 5 {
        config.discontiguous_chromosome.enabled
    } else if k == 6 {
        config.identical_bases.enabled
    } else if k == 7 {
        config.insertion_length.enabled
    } else if k == 8 {
        config.mismatch_reference_base.enabled
    } else if k == 9 {
        config.missing_alternate_base.enabled
    } else if k == 10 {
        config.missing_reference_base.enabled
    } else if k == 11 {
        config.multiple_alternate_alleles.enabled
    } else if k == 12 {
        config.position_format.enabled
    } else if k == 13 {
        config.unsorted_position.enabled
    } else {
        true
    }
}

/// What a rule on records reports depends on the state and on the rule's own
/// configuration: two configurations in which the rule is configured alike
/// give the same verdict in every state, however they configure the other
/// rules.
pub proof fn lemma_record_rule_is_independent(a: Config, b: Config, state: RecordState, k: int)
    requires
        0 <= k < 14,
        same_record_rule(a, b, k),
    ensures
        record_verdicts(a, state)[k] == record_verdicts(b, state)[k],
{
    lemma_record_verdicts(a, state);
        lemma_record_verdicts(b, state);
}

/// A disabled rule on records has no finding, whatever the state.
pub proof fn lemma_disabled_record_rule_is_silent(config: Config, state: RecordState, k: int)
    requires
        0 <= k < 14,
        !record_rule_enabled(config, k),
    ensures
        !record_verdicts(config, state)[k].found,
{
    lemma_record_verdicts(config, state);
}

/// Disabling one rule on records takes its finding away and changes no other.
/// Let `b` configure every rule but the one at place `k` as `a` does, and
/// let that rule be disabled in `b`. Then in every state the rules report
/// under `b` what they report under `a` without the finding of that rule:
/// one error less where the rule had a finding, and the same errors where
/// it had none.
pub proof fn lemma_record_rules_without_one(a: Config, b: Config, state: RecordState, k: int)
    requires
        0 <= k < 14,
        forall|j: int| 0 <= j < 14 && j != k ==> same_record_rule(a, b, j),
        !record_rule_enabled(b, k),
    ensures
        found_in_record(b, state) == reported(record_verdicts(a, state).take(k)) + reported(
            record_verdicts(a, state).skip(k + 1),
        ),
        found_in_record(a, state) == reported(record_verdicts(a, state).take(k)) + one(
            record_verdicts(a, state)[k].found,
            record_verdicts(a, state)[k].finding,
        ) + reported(record_verdicts(a, state).skip(k + 1)),
        found_in_record(b, state).len() + (if record_verdicts(a, state)[k].found {
            1int
        } else {
            0int
        }) == found_in_record(a, state).len(),
{
    let with = record_verdicts(a, state);
    let without = record_verdicts(b, state);
    lemma_record_verdicts(a, state);
        lemma_record_verdicts(b, state);
    assert forall|j: int| 0 <= j < 14 && j != k implies without[j] == with[j] by {
        lemma_record_rule_is_independent(a, b, state, j);
    }
    lemma_disabled_record_rule_is_silent(b, state, k);
    lemma_disabling_one_rule(with, without, k);
}

/// The code of the rule on records at place `k` of their order.
pub open spec fn record_rule_id(k: int) -> Seq<char> {
    if k == 0 {
        AllowedAlternateBase::rule_id()
    } else if k == 1 {
        AllowedReferenceBase::rule_id()
    } else if k == 2 {
        AmbiguousAlternateBase::rule_id()
    } else if k == 3 {
        AmbiguousReferenceBase::rule_id()
    } else if k == 4 {
        DeletionLength::rule_id()
    } else if k == 5 {
        DiscontiguousChromosome::rule_id()
    } else if k == 6 {
        IdenticalBases::rule_id()
    } else if k == 7 {
        InsertionLength::rule_id()
    } else if k == 8 {
        MismatchReferenceBase::rule_id()
    } else if k == 9 {
        MissingAlternateBase::rule_id()
    } else if k == 10 {
        MissingReferenceBase::rule_id()
    } else if k == 11 {
        MultipleAlternateAlleles::rule_id()
    } else if k == 12 {
        PositionFormat::rule_id()
    } else if k == 13 {
        UnsortedPosition::rule_id()
    } else {
        Seq::empty()
    }
}

/// Every rule on records whose code is not `id` is configured in `a` as it is
/// in `b`.
pub open spec fn record_rules_alike_but(a: Config, b: Config, id: Seq<char>) -> bool {
    forall|k: int| 0 <= k < 14 ==> same_record_rule(a, b, k) || record_rule_id(k) == id
}

/// Where every rule on records whose code is not `id` is configured alike,
/// the rules give the same verdicts in every state, but for the rules that
/// carry that code.
pub proof fn lemma_record_verdicts_alike(a: Config, b: Config, state: RecordState, id: Seq<char>)
    requires
        record_rules_alike_but(a, b, id),
    ensures
        alike_but(record_verdicts(a, state), record_verdicts(b, state), id),
{
    let first = record_verdicts(a, state);
    let second = record_verdicts(b, state);
    lemma_record_verdicts(a, state);
        lemma_record_verdicts(b, state);
    assert forall|k: int| 0 <= k < first.len() implies first[k] == second[k] || (first[k].finding.id
        == id && second[k].finding.id == id) by {
        if same_record_rule(a, b, k) {
            lemma_record_rule_is_independent(a, b, state, k);
        } else {
            assert(record_rule_id(k) == id);
            assert(first[k].finding.id == record_rule_id(k));
            assert(second[k].finding.id == record_rule_id(k));
        }
    }
}

/// Every rule whose code is not `id` is configured in `a` as it is in `b`:
/// the two configurations differ at most in the rules that carry the code.
pub open spec fn configured_alike_but(a: Config, b: Config, id: Seq<char>) -> bool {
    &&& line_rules_alike_but(a, b, id)
    &&& end_rules_alike_but(a, b, id)
    &&& header_rules_alike_but(a, b, id)
    &&& preamble_rules_alike_but(a, b, id)
    &&& record_rules_alike_but(a, b, id)
}

/// Two validators of the file as a whole are at the same point and have
/// found the same but for the rules with the code `id`.
pub open spec fn global_same_but(first: GlobalModel, second: GlobalModel, id: Seq<char>) -> bool {
    &&& first.validated == second.validated
    &&& first.state == second.state
    &&& same_but(first.findings, second.findings, id)
}

/// Two validators of the records are at the same point and have found the
/// same but for the rules with the code `id`.
pub open spec fn record_same_but(first: RecordModel, second: RecordModel, id: Seq<char>) -> bool {
    &&& first.validated == second.validated
    &&& first.content == second.content
    &&& first.state == second.state
    &&& same_but(first.findings, second.findings, id)
}

/// Switching a rule off or on never changes what another rule on each line
/// reports: two validators that agree but for the rules with the code `id`
/// still do so after the same line, under two configurations that differ at
/// most in those rules. So they do after any number of lines.
pub proof fn lemma_global_push_undisturbed(
    a: Config,
    b: Config,
    first: GlobalModel,
    second: GlobalModel,
    line: (usize, Seq<char>),
    id: Seq<char>,
)
    requires
        line_rules_alike_but(a, b, id),
        global_same_but(first, second, id),
    ensures
        global_same_but(first.push(a, line), second.push(b, line), id),
{
    if !first.validated {
        let state = arrived(first.state, line);
        lemma_line_verdicts_alike(a, b, state, id);
        lemma_reported_alike(line_verdicts(a, state), line_verdicts(b, state), id);
        lemma_extend_alike(
            first.findings,
            second.findings,
            Some(line),
            found_in_line(a, state),
            found_in_line(b, state),
            id,
        );
    }
}

/// Switching a rule off or on never changes what another rule reports at
/// the end of the file.
pub proof fn lemma_global_validate_undisturbed(
    a: Config,
    b: Config,
    first: GlobalModel,
    second: GlobalModel,
    id: Seq<char>,
)
    requires
        end_rules_alike_but(a, b, id),
        global_same_but(first, second, id),
    ensures
        global_same_but(first.validate(a), second.validate(b), id),
{
    if !first.validated {
        lemma_end_verdicts_alike(a, b, first.state, id);
        lemma_reported_alike(end_verdicts(a, first.state), end_verdicts(b, first.state), id);
        lemma_extend_alike(
            first.findings,
            second.findings,
            None,
            found_at_end(a, first.state),
            found_at_end(b, first.state),
            id,
        );
    }
}

/// Switching a rule off or on never changes what another rule on records
/// reports: two validators that agree but for the rules with the code `id`
/// still do so after the same line, under two configurations that differ at
/// most in those rules. So they do after any number of lines: under every
/// key, the errors of the other rules are the same, in the same order.
pub proof fn lemma_record_push_undisturbed(
    a: Config,
    b: Config,
    first: RecordModel,
    second: RecordModel,
    line: (usize, Seq<char>),
    id: Seq<char>,
)
    requires
        record_rules_alike_but(a, b, id),
        record_same_but(first, second, id),
    ensures
        record_same_but(first.push(a, line), second.push(b, line), id),
{
    if !first.validated && !is_marked(line.1) {
        let state = opened(first.state, line);
        lemma_record_verdicts_alike(a, b, state, id);
        lemma_reported_alike(record_verdicts(a, state), record_verdicts(b, state), id);
        lemma_extend_alike(
            first.findings,
            second.findings,
            Some(line),
            found_in_record(a, state),
            found_in_record(b, state),
            id,
        );
    }
}

/// Two passes are at the same point and have found the same but for the
/// rules with the code `id`.
pub open spec fn pass_same_but(first: PassModel, second: PassModel, id: Seq<char>) -> bool {
    &&& first.line == second.line
    &&& first.unread == second.unread
    &&& global_same_but(first.global, second.global, id)
    &&& record_same_but(first.record, second.record, id)
    &&& first.meta_information.validated == second.meta_information.validated
    &&& first.meta_information.state == second.meta_information.state
    &&& others(first.meta_information.findings, id) == others(second.meta_information.findings, id)
    &&& first.header.validated == second.header.validated
    &&& first.header.state == second.header.state
    &&& others(first.header.findings, id) == others(second.header.findings, id)
}

/// Switching a rule off or on never changes what another rule reports of a
/// line: two passes that agree but for the rules with the code `id` still do
/// so after the same line, under two configurations that differ at most in
/// those rules.
pub proof fn lemma_pass_push_undisturbed(
    a: Config,
    b: Config,
    first: PassModel,
    second: PassModel,
    raw: Seq<u8>,
    reference: Option<Answer>,
    id: Seq<char>,
)
    requires
        configured_alike_but(a, b, id),
        pass_same_but(first, second, id),
    ensures
        pass_same_but(first.push(a, raw, reference), second.push(b, raw, reference), id),
{
    if valid_utf8(raw) {
        let line = first.arriving(raw);
        assert(line == second.arriving(raw));
        lemma_global_push_undisturbed(a, b, first.global, second.global, line, id);
        let record_first = RecordModel {
            state: RecordState { reference, ..first.record.state },
            ..first.record
        };
        let record_second = RecordModel {
            state: RecordState { reference, ..second.record.state },
            ..second.record
        };
        lemma_record_push_undisturbed(a, b, record_first, record_second, line, id);
    }
}

/// Switching a rule off or on never changes what another rule reports while
/// a file is read. After the same lines, two passes under configurations
/// that differ at most in the rules with the code `id` agree in what the
/// other rules have found: under every key, the same findings in the same
/// order.
pub proof fn lemma_pass_undisturbed(a: Config, b: Config, lines: Seq<Seq<u8>>, id: Seq<char>)
    requires
        configured_alike_but(a, b, id),
    ensures
        pass_same_but(PassModel::after(a, lines), PassModel::after(b, lines), id),
    decreases lines.len(),
{
    if lines.len() > 0 {
        lemma_pass_undisturbed(a, b, lines.drop_last(), id);
        lemma_pass_push_undisturbed(
            a,
            b,
            PassModel::after(a, lines.drop_last()),
            PassModel::after(b, lines.drop_last()),
            lines.last(),
            None,
            id,
        );
    }
}

/// Switching a rule off or on never changes the outcome of another rule.
/// Let two configurations differ at most in the rules that carry the code
/// `id`: in whether such a rule is enabled, or in anything else of it. Then
/// the reports of the same lines under the two agree in everything that the
/// other rules report: the same unread lines, and in every part and under
/// every key the same findings of the other rules, in the same order.
pub proof fn lemma_other_rules_undisturbed(
    a: Config,
    b: Config,
    lines: Seq<Seq<u8>>,
    id: Seq<char>,
)
    requires
        configured_alike_but(a, b, id),
    ensures
        validation_of(a, lines).unread == validation_of(b, lines).unread,
        same_but(validation_of(a, lines).global, validation_of(b, lines).global, id),
        same_but(validation_of(a, lines).record, validation_of(b, lines).record, id),
        others(validation_of(a, lines).meta_information, id) == others(
            validation_of(b, lines).meta_information,
            id,
        ),
        others(validation_of(a, lines).header, id) == others(
            validation_of(b, lines).header,
            id,
        ),
{
    let pass_a = PassModel::after(a, lines);
    let pass_b = PassModel::after(b, lines);
    lemma_pass_undisturbed(a, b, lines, id);
    lemma_global_validate_undisturbed(a, b, pass_a.global, pass_b.global, id);
    if !pass_a.meta_information.validated {
        let state = pass_a.meta_information.state;
        lemma_preamble_verdicts_alike(a, b, state, id);
        lemma_reported_alike(preamble_verdicts(a, state), preamble_verdicts(b, state), id);
        lemma_others_in_parts(pass_a.meta_information.findings, found_in_preamble(a, state), id);
        lemma_others_in_parts(pass_b.meta_information.findings, found_in_preamble(b, state), id);
    }
    if !pass_a.header.validated {
        let state = pass_a.header.state;
        lemma_header_verdicts_alike(a, b, state, id);
        lemma_reported_alike(header_verdicts(a, state), header_verdicts(b, state), id);
        lemma_others_in_parts(pass_a.header.findings, found_in_header(a, state), id);
        lemma_others_in_parts(pass_b.header.findings, found_in_header(b, state), id);
    }
}

/// What the rules see does not depend on how they are configured: after the
/// same lines, two passes under any two configurations have counted the same
/// lines, failed to read the same lines, and hold validators in the same
/// states, finalized or not alike.
pub proof fn lemma_states_are_independent(a: Config, b: Config, lines: Seq<Seq<u8>>)
    ensures
        PassModel::after(a, lines).line == PassModel::after(b, lines).line,
        PassModel::after(a, lines).unread == PassModel::after(b, lines).unread,
        PassModel::after(a, lines).global.state == PassModel::after(b, lines).global.state,
        PassModel::after(a, lines).global.validated == PassModel::after(b, lines).global.validated,
        PassModel::after(a, lines).meta_information.state == PassModel::after(
            b,
            lines,
        ).meta_information.state,
        PassModel::after(a, lines).meta_information.validated == PassModel::after(
            b,
            lines,
        ).meta_information.validated,
        PassModel::after(a, lines).header.state == PassModel::after(b, lines).header.state,
        PassModel::after(a, lines).header.validated == PassModel::after(b, lines).header.validated,
        PassModel::after(a, lines).record.state == PassModel::after(b, lines).record.state,
        PassModel::after(a, lines).record.content == PassModel::after(b, lines).record.content,
        PassModel::after(a, lines).record.validated == PassModel::after(b, lines).record.validated,
    decreases lines.len(),
{
    if lines.len() > 0 {
        lemma_states_are_independent(a, b, lines.drop_last());
    }
}

/// Two errors report the same finding, each with a rendering of the same
/// template with the same values as its message.
pub open spec fn same_report(first: ValidationError, second: ValidationError) -> bool {
    &&& first.finding() == second.finding()
    &&& exists|template: Seq<char>, values: Named|
        #![trigger is_rendering(template, values, first.message@)]
        is_rendering(template, values, first.message@) && is_rendering(
            template,
            values,
            second.message@,
        )
}

/// Two runs of errors are as long as one another, and the errors at each
/// place report the same.
pub open spec fn same_reports(first: Seq<ValidationError>, second: Seq<ValidationError>) -> bool {
    &&& first.len() == second.len()
    &&& forall|i: int| 0 <= i < first.len() ==> same_report(#[trigger] first[i], second[i])
}

/// Two collections of errors hold errors that report the same under every
/// key, and the same lines stand for their keys.
pub open spec fn same_errors(first: ErrorMap, second: ErrorMap) -> bool {
    &&& first.model().lines == second.model().lines
    &&& forall|key: Option<usize>| same_reports(#[trigger] first.at(key), second.at(key))
}

/// What the same rules report twice of one state reports the same.
pub proof fn lemma_same_verdicts_same_reports(
    first: Seq<ValidationError>,
    second: Seq<ValidationError>,
    verdicts: Seq<Verdict>,
)
    requires
        are_reports(first, verdicts),
        are_reports(second, verdicts),
    ensures
        same_reports(first, second),
    decreases verdicts.len(),
{
    if verdicts.len() > 0 {
        if verdicts.last().found {
            lemma_same_verdicts_same_reports(
                first.drop_last(),
                second.drop_last(),
                verdicts.drop_last(),
            );
            assert(is_rendering(
                verdicts.last().template,
                verdicts.last().values,
                first.last().message@,
            ));
            assert(same_report(first.last(), second.last()));
            assert forall|i: int| 0 <= i < first.len() implies same_report(
                #[trigger] first[i],
                second[i],
            ) by {
                if i < first.len() - 1 {
                    assert(first.drop_last()[i] == first[i]);
                    assert(second.drop_last()[i] == second[i]);
                }
            }
        } else {
            lemma_same_verdicts_same_reports(first, second, verdicts.drop_last());
        }
    }
}

/// Runs of errors that report the same, continued by what the same rules
/// report of one state, report the same.
pub proof fn lemma_continued_alike(
    first: Seq<ValidationError>,
    second: Seq<ValidationError>,
    before_first: Seq<ValidationError>,
    before_second: Seq<ValidationError>,
    verdicts: Seq<Verdict>,
)
    requires
        same_reports(before_first, before_second),
        are_continued(first, before_first, verdicts),
        are_continued(second, before_second, verdicts),
    ensures
        same_reports(first, second),
{
    let n = before_first.len() as int;
    lemma_same_verdicts_same_reports(first.skip(n), second.skip(n), verdicts);
    assert forall|i: int| 0 <= i < first.len() implies same_report(
        #[trigger] first[i],
        second[i],
    ) by {
        if i < n {
            assert(first[i] == before_first[i]);
            assert(second[i] == before_second[i]);
        } else {
            assert(first.skip(n)[i - n] == first[i]);
            assert(second.skip(n)[i - n] == second[i]);
        }
    }
}

/// Collections of errors that report the same, each with what the same
/// rules report of one state added under one key, report the same.
pub proof fn lemma_added_alike(
    first: ErrorMap,
    second: ErrorMap,
    before_first: ErrorMap,
    before_second: ErrorMap,
    key: Option<usize>,
    verdicts: Seq<Verdict>,
)
    requires
        same_errors(before_first, before_second),
        first.model() == second.model(),
        first.has_reports(before_first, key, verdicts),
        second.has_reports(before_second, key, verdicts),
    ensures
        same_errors(first, second),
{
    assert forall|other: Option<usize>| same_reports(
        #[trigger] first.at(other),
        second.at(other),
    ) by {
        assert(same_reports(before_first.at(other), before_second.at(other)));
        if other == key {
            lemma_continued_alike(
                first.at(key),
                second.at(key),
                before_first.at(key),
                before_second.at(key),
                verdicts,
            );
        }
    }
}

/// Two passes are at the same point and hold errors that report the same.
pub open spec fn same_pass<'a>(first: Validator<'a>, second: Validator<'a>) -> bool {
    &&& first.config() == second.config()
    &&& first.model() == second.model()
    &&& same_errors(first.global().errors, second.global().errors)
    &&& same_errors(first.record().errors, second.record().errors)
    &&& same_reports(first.meta_information().errors@, second.meta_information().errors@)
    &&& same_reports(first.header().errors@, second.header().errors@)
}

/// Two passes that are at the same point and hold errors that report the
/// same still do so after the same line.
pub proof fn lemma_step_alike<'a>(
    first: Validator<'a>,
    second: Validator<'a>,
    before_first: Validator<'a>,
    before_second: Validator<'a>,
    raw: Seq<u8>,
    reference: Option<Answer>,
)
    requires
        same_pass(before_first, before_second),
        first.follows(before_first, raw, reference),
        second.follows(before_second, raw, reference),
    ensures
        same_pass(first, second),
{
    let config = before_first.config();
    if valid_utf8(raw) {
        let line = (PassModel::next_line(before_first.taken()), trim_end(decode_utf8(raw)));
        assert(before_first.taken() == before_second.taken()) by {
            assert(before_first.model().line == before_second.model().line);
        }
        assert(before_first.global().model() == before_second.global().model());
        assert(before_first.record().model() == before_second.record().model());
        assert(first.global().model() == second.global().model());
        assert(first.record().model() == second.record().model());
        if !before_first.global().validated {
            lemma_added_alike(
                first.global().errors,
                second.global().errors,
                before_first.global().errors,
                before_second.global().errors,
                Some(line.0),
                line_verdicts(config, arrived(before_first.global().state(), line)),
            );
        }
        if !(before_first.record().validated || is_marked(line.1)) {
            lemma_added_alike(
                first.record().errors,
                second.record().errors,
                before_first.record().errors,
                before_second.record().errors,
                Some(line.0),
                record_verdicts(config, before_first.record_state(line, reference)),
            );
        }
    }
}

/// Two passes over the same lines under one configuration are, after every
/// line, at the same point and hold errors that report the same.
pub proof fn lemma_runs_alike<'a>(
    first: Seq<Validator<'a>>,
    second: Seq<Validator<'a>>,
    config: Config,
    lines: Seq<Seq<u8>>,
    i: int,
)
    requires
        is_run(first, config, lines),
        is_run(second, config, lines),
        0 <= i <= lines.len(),
    ensures
        same_pass(first[i], second[i]),
        first[i].config() == config,
        second[i].config() == config,
    decreases i,
{
    if i == 0 {
        let a = first[0];
        let b = second[0];
        assert(a.global().model() == b.global().model());
        assert(a.record().model() == b.record().model());
        assert forall|key: Option<usize>| same_reports(
            #[trigger] a.global().errors.at(key),
            b.global().errors.at(key),
        ) by {
            assert(!a.global().errors.model().by_key.contains_key(key));
            assert(!b.global().errors.model().by_key.contains_key(key));
        }
        assert forall|key: Option<usize>| same_reports(
            #[trigger] a.record().errors.at(key),
            b.record().errors.at(key),
        ) by {
            assert(!a.record().errors.model().by_key.contains_key(key));
            assert(!b.record().errors.model().by_key.contains_key(key));
        }
        assert(findings_of(a.meta_information().errors@).len() == 0);
        assert(findings_of(b.meta_information().errors@).len() == 0);
        assert(findings_of(a.header().errors@).len() == 0);
        assert(findings_of(b.header().errors@).len() == 0);
    } else {
        lemma_runs_alike(first, second, config, lines, i - 1);
        assert(first[i - 1 + 1].follows(first[i - 1], lines[i - 1], None));
        assert(second[i - 1 + 1].follows(second[i - 1], lines[i - 1], None));
        lemma_step_alike(first[i], second[i], first[i - 1], second[i - 1], lines[i - 1], None);
    }
}

/// Validation is repeatable. Two reports of the same lines under the same
/// configuration hold the same unread lines and, in every part and under
/// every key, errors that report the same in the same order: the same rule
/// and level, and as message a rendering of the same template with the same
/// values. Whether two renderings are the same text is the template
/// engine's matter.
pub proof fn lemma_reports_alike<'a>(
    config: &'a Config,
    lines: Seq<Seq<u8>>,
    first: ValidationReport,
    second: ValidationReport,
)
    requires
        is_validation(first, config, lines),
        is_validation(second, config, lines),
    ensures
        first.model() == second.model(),
        same_errors(first.global, second.global),
        same_errors(first.record, second.record),
        same_reports(first.meta_information@, second.meta_information@),
        same_reports(first.header@, second.header@),
{
    let runs_first = choose|passes: Seq<Validator<'a>>|
        is_run(passes, *config, lines) && (#[trigger] passes.last()).finishes_with(first);
    let runs_second = choose|passes: Seq<Validator<'a>>|
        is_run(passes, *config, lines) && (#[trigger] passes.last()).finishes_with(second);
    lemma_runs_alike(runs_first, runs_second, *config, lines, lines.len() as int);
    let a = runs_first.last();
    let b = runs_second.last();
    assert(same_pass(a, b));
    assert(a.global().model() == b.global().model());
    assert(a.meta_information().model() == b.meta_information().model());
    assert(a.header().model() == b.header().model());
    assert(a.record().model() == b.record().model());
    if !a.global().validated {
        lemma_added_alike(
            first.global,
            second.global,
            a.global().errors,
            b.global().errors,
            None,
            end_verdicts(*config, a.global().state()),
        );
    }
    if !a.meta_information().validated {
        lemma_continued_alike(
            first.meta_information@,
            second.meta_information@,
            a.meta_information().errors@,
            b.meta_information().errors@,
            preamble_verdicts(*config, a.meta_information().state()),
        );
    }
    if !a.header().validated {
        lemma_continued_alike(
            first.header@,
            second.header@,
            a.header().errors@,
            b.header().errors@,
            header_verdicts(*config, a.header().state()),
        );
    }
}

/// The errors of `errors` that do not carry the code `id`, in their order.
pub open spec fn other_errors(errors: Seq<ValidationError>, id: Seq<char>) -> Seq<ValidationError>
    decreases errors.len(),
{
    if errors.len() == 0 {
        Seq::empty()
    } else if errors.last().id@ == id {
        other_errors(errors.drop_last(), id)
    } else {
        other_errors(errors.drop_last(), id).push(errors.last())
    }
}

/// The other errors of two runs of errors, one after the other, are the
/// other errors of the first and then those of the second.
pub proof fn lemma_other_errors_in_parts(
    first: Seq<ValidationError>,
    second: Seq<ValidationError>,
    id: Seq<char>,
)
    ensures
        other_errors(first + second, id) == other_errors(first, id) + other_errors(second, id),
    decreases second.len(),
{
    if second.len() == 0 {
        assert(first + second =~= first);
        assert(other_errors(first, id) + other_errors(second, id) =~= other_errors(first, id));
    } else {
        lemma_other_errors_in_parts(first, second.drop_last(), id);
        assert((first + second).drop_last() =~= first + second.drop_last());
        assert((first + second).last() == second.last());
        assert(other_errors(first + second, id) =~= other_errors(first, id) + other_errors(
            second,
            id,
        ));
    }
}

/// Runs of errors that report the same, one pair after another, report the
/// same.
pub proof fn lemma_same_reports_in_parts(
    first: Seq<ValidationError>,
    second: Seq<ValidationError>,
    more_first: Seq<ValidationError>,
    more_second: Seq<ValidationError>,
)
    requires
        same_reports(first, second),
        same_reports(more_first, more_second),
    ensures
        same_reports(first + more_first, second + more_second),
{
    let n = first.len() as int;
    assert forall|i: int| 0 <= i < (first + more_first).len() implies same_report(
        #[trigger] (first + more_first)[i],
        (second + more_second)[i],
    ) by {
        if i < n {
            assert(same_report(first[i], second[i]));
        } else {
            assert(same_report(more_first[i - n], more_second[i - n]));
        }
    }
}

/// What rules report whose verdicts are alike but for the rules with the
/// code `id` reports the same in the other rules.
pub proof fn lemma_alike_verdicts_same_reports(
    first: Seq<ValidationError>,
    second: Seq<ValidationError>,
    verdicts_first: Seq<Verdict>,
    verdicts_second: Seq<Verdict>,
    id: Seq<char>,
)
    requires
        are_reports(first, verdicts_first),
        are_reports(second, verdicts_second),
        alike_but(verdicts_first, verdicts_second, id),
    ensures
        same_reports(other_errors(first, id), other_errors(second, id)),
    decreases verdicts_first.len(),
{
    if verdicts_first.len() > 0 {
        let v = verdicts_first.last();
        let w = verdicts_second.last();
        assert(verdicts_first[verdicts_first.len() - 1] == v);
        assert(verdicts_second[verdicts_second.len() - 1] == w);
        assert(alike_but(verdicts_first.drop_last(), verdicts_second.drop_last(), id)) by {
            assert forall|k: int| 0 <= k < verdicts_first.drop_last().len() implies {
                ||| verdicts_first.drop_last()[k] == verdicts_second.drop_last()[k]
                ||| (verdicts_first.drop_last()[k].finding.id == id
                    && verdicts_second.drop_last()[k].finding.id == id)
            } by {
                assert(verdicts_first.drop_last()[k] == verdicts_first[k]);
                assert(verdicts_second.drop_last()[k] == verdicts_second[k]);
            }
        }
        let rest_first = if v.found {
            first.drop_last()
        } else {
            first
        };
        let rest_second = if w.found {
            second.drop_last()
        } else {
            second
        };
        lemma_alike_verdicts_same_reports(
            rest_first,
            rest_second,
            verdicts_first.drop_last(),
            verdicts_second.drop_last(),
            id,
        );
        let a = other_errors(rest_first, id);
        let b = other_errors(rest_second, id);
        if v.finding.id == id && w.finding.id == id {
            assert(other_errors(first, id) == a);
            assert(other_errors(second, id) == b);
        } else {
            assert(v == w);
            if v.found {
                assert(is_rendering(v.template, v.values, first.last().message@));
                assert(same_report(first.last(), second.last()));
                if v.finding.id == id {
                    assert(other_errors(first, id) == a);
                    assert(other_errors(second, id) == b);
                } else {
                    assert(other_errors(first, id) == a.push(first.last()));
                    assert(other_errors(second, id) == b.push(second.last()));
                    assert forall|i: int| 0 <= i < a.len() + 1 implies same_report(
                        #[trigger] a.push(first.last())[i],
                        b.push(second.last())[i],
                    ) by {
                        if i < a.len() {
                            assert(same_report(a[i], b[i]));
                        }
                    }
                }
            }
        }
    }
}

/// Two collections of errors hold, under every key, errors of the rules
/// without the code `id` that report the same, in the same order.
pub open spec fn same_errors_but(first: ErrorMap, second: ErrorMap, id: Seq<char>) -> bool {
    forall|key: Option<usize>|
        same_reports(other_errors(#[trigger] first.at(key), id), other_errors(second.at(key), id))
}

/// Two runs of errors that report the same in the rules without the code
/// `id`, each continued by what rules report whose verdicts are alike but
/// for the rules with the code, still report the same in the other rules.
pub proof fn lemma_continued_alike_but(
    first: Seq<ValidationError>,
    second: Seq<ValidationError>,
    before_first: Seq<ValidationError>,
    before_second: Seq<ValidationError>,
    verdicts_first: Seq<Verdict>,
    verdicts_second: Seq<Verdict>,
    id: Seq<char>,
)
    requires
        same_reports(other_errors(before_first, id), other_errors(before_second, id)),
        are_continued(first, before_first, verdicts_first),
        are_continued(second, before_second, verdicts_second),
        alike_but(verdicts_first, verdicts_second, id),
    ensures
        same_reports(other_errors(first, id), other_errors(second, id)),
{
    let added_first = first.skip(before_first.len() as int);
    let added_second = second.skip(before_second.len() as int);
    assert(first =~= before_first + added_first);
    assert(second =~= before_second + added_second);
    lemma_alike_verdicts_same_reports(
        added_first,
        added_second,
        verdicts_first,
        verdicts_second,
        id,
    );
    lemma_other_errors_in_parts(before_first, added_first, id);
    lemma_other_errors_in_parts(before_second, added_second, id);
    lemma_same_reports_in_parts(
        other_errors(before_first, id),
        other_errors(before_second, id),
        other_errors(added_first, id),
        other_errors(added_second, id),
    );
}

/// Two collections of errors that report the same in the rules without the
/// code `id`, each with what such rules report added under one key, still
/// report the same in the other rules.
pub proof fn lemma_added_alike_but(
    first: ErrorMap,
    second: ErrorMap,
    before_first: ErrorMap,
    before_second: ErrorMap,
    key: Option<usize>,
    verdicts_first: Seq<Verdict>,
    verdicts_second: Seq<Verdict>,
    id: Seq<char>,
)
    requires
        same_errors_but(before_first, before_second, id),
        first.has_reports(before_first, key, verdicts_first),
        second.has_reports(before_second, key, verdicts_second),
        alike_but(verdicts_first, verdicts_second, id),
    ensures
        same_errors_but(first, second, id),
{
    assert forall|other: Option<usize>|
        same_reports(
            other_errors(#[trigger] first.at(other), id),
            other_errors(second.at(other), id),
        ) by {
        assert(same_reports(
            other_errors(before_first.at(other), id),
            other_errors(before_second.at(other), id),
        ));
        if other == key {
            lemma_continued_alike_but(
                first.at(key),
                second.at(key),
                before_first.at(key),
                before_second.at(key),
                verdicts_first,
                verdicts_second,
                id,
            );
        }
    }
}

/// Two passes are at the same point, and the errors that they hold report
/// the same but for the rules with the code `id`.
pub open spec fn same_pass_but<'a>(
    first: Validator<'a>,
    second: Validator<'a>,
    id: Seq<char>,
) -> bool {
    &&& pass_same_but(first.model(), second.model(), id)
    &&& same_errors_but(first.global().errors, second.global().errors, id)
    &&& same_errors_but(first.record().errors, second.record().errors, id)
    &&& same_reports(
        other_errors(first.meta_information().errors@, id),
        other_errors(second.meta_information().errors@, id),
    )
    &&& same_reports(
        other_errors(first.header().errors@, id),
        other_errors(second.header().errors@, id),
    )
}

/// Switching a rule off or on never changes what another rule reports of a
/// line. Two passes under configurations that differ at most in the rules
/// with the code `id`, which agree but for those rules, still do so after
/// the same line: under every key the errors of the other rules report the
/// same, in the same order.
pub proof fn lemma_step_alike_but<'a>(
    first: Validator<'a>,
    second: Validator<'a>,
    before_first: Validator<'a>,
    before_second: Validator<'a>,
    raw: Seq<u8>,
    reference: Option<Answer>,
    id: Seq<char>,
)
    requires
        configured_alike_but(before_first.config(), before_second.config(), id),
        same_pass_but(before_first, before_second, id),
        first.follows(before_first, raw, reference),
        second.follows(before_second, raw, reference),
    ensures
        same_pass_but(first, second, id),
{
    let a = before_first.config();
    let b = before_second.config();
    lemma_pass_push_undisturbed(
        a,
        b,
        before_first.model(),
        before_second.model(),
        raw,
        reference,
        id,
    );
    if valid_utf8(raw) {
        let line = (PassModel::next_line(before_first.taken()), trim_end(decode_utf8(raw)));
        assert(before_first.taken() == before_second.taken()) by {
            assert(before_first.model().line == before_second.model().line);
        }
        assert(before_first.global().model().validated == before_second.global().model().validated);
        assert(before_first.global().state() == before_second.global().state()) by {
            assert(before_first.model().global.state == before_second.model().global.state);
        }
        assert(before_first.record().model().validated == before_second.record().model().validated);
        assert(before_first.record().state() == before_second.record().state()) by {
            assert(before_first.model().record.state == before_second.model().record.state);
        }
        if !before_first.global().validated {
            let state = arrived(before_first.global().state(), line);
            lemma_line_verdicts_alike(a, b, state, id);
            lemma_added_alike_but(
                first.global().errors,
                second.global().errors,
                before_first.global().errors,
                before_second.global().errors,
                Some(line.0),
                line_verdicts(a, state),
                line_verdicts(b, state),
                id,
            );
        }
        if !(before_first.record().validated || is_marked(line.1)) {
            let state = before_first.record_state(line, reference);
            assert(state == before_second.record_state(line, reference));
            lemma_record_verdicts_alike(a, b, state, id);
            lemma_added_alike_but(
                first.record().errors,
                second.record().errors,
                before_first.record().errors,
                before_second.record().errors,
                Some(line.0),
                record_verdicts(a, state),
                record_verdicts(b, state),
                id,
            );
        }
    }
}

/// Two passes over the same lines, under configurations that differ at most
/// in the rules with the code `id`, agree after every line but for those
/// rules.
pub proof fn lemma_runs_alike_but<'a>(
    first: Seq<Validator<'a>>,
    second: Seq<Validator<'a>>,
    a: Config,
    b: Config,
    lines: Seq<Seq<u8>>,
    i: int,
    id: Seq<char>,
)
    requires
        configured_alike_but(a, b, id),
        is_run(first, a, lines),
        is_run(second, b, lines),
        0 <= i <= lines.len(),
    ensures
        same_pass_but(first[i], second[i], id),
        first[i].config() == a,
        second[i].config() == b,
    decreases i,
{
    if i == 0 {
        let p = first[0];
        let q = second[0];
        assert(p.global().model() == q.global().model());
        assert(p.record().model() == q.record().model());
        assert forall|key: Option<usize>|
            same_reports(
                other_errors(#[trigger] p.global().errors.at(key), id),
                other_errors(q.global().errors.at(key), id),
            ) by {
            assert(!p.global().errors.model().by_key.contains_key(key));
            assert(!q.global().errors.model().by_key.contains_key(key));
        }
        assert forall|key: Option<usize>|
            same_reports(
                other_errors(#[trigger] p.record().errors.at(key), id),
                other_errors(q.record().errors.at(key), id),
            ) by {
            assert(!p.record().errors.model().by_key.contains_key(key));
            assert(!q.record().errors.model().by_key.contains_key(key));
        }
        assert(findings_of(p.meta_information().errors@).len() == 0);
        assert(findings_of(q.meta_information().errors@).len() == 0);
        assert(findings_of(p.header().errors@).len() == 0);
        assert(findings_of(q.header().errors@).len() == 0);
        assert(p.meta_information().errors@ =~= Seq::<ValidationError>::empty());
        assert(q.meta_information().errors@ =~= Seq::<ValidationError>::empty());
        assert(p.header().errors@ =~= Seq::<ValidationError>::empty());
        assert(q.header().errors@ =~= Seq::<ValidationError>::empty());
    } else {
        lemma_runs_alike_but(first, second, a, b, lines, i - 1, id);
        assert(first[i - 1 + 1].follows(first[i - 1], lines[i - 1], None));
        assert(second[i - 1 + 1].follows(second[i - 1], lines[i - 1], None));
        lemma_step_alike_but(
            first[i],
            second[i],
            first[i - 1],
            second[i - 1],
            lines[i - 1],
            None,
            id,
        );
    }
}

/// Switching a rule off or on never changes the outcome of another rule.
/// Let two configurations differ at most in the rules that carry the code
/// `id`. Then two reports of the same lines, one under each, agree in the
/// errors of the other rules: in every part and under every key they are as
/// many, in the same order, and each pair reports the same rule and level
/// with a rendering of the same template with the same values as message.
pub proof fn lemma_other_errors_undisturbed<'a>(
    a: &'a Config,
    b: &'a Config,
    lines: Seq<Seq<u8>>,
    first: ValidationReport,
    second: ValidationReport,
    id: Seq<char>,
)
    requires
        configured_alike_but(*a, *b, id),
        is_validation(first, a, lines),
        is_validation(second, b, lines),
    ensures
        first.model().unread == second.model().unread,
        same_errors_but(first.global, second.global, id),
        same_errors_but(first.record, second.record, id),
        same_reports(
            other_errors(first.meta_information@, id),
            other_errors(second.meta_information@, id),
        ),
        same_reports(other_errors(first.header@, id), other_errors(second.header@, id)),
{
    let run_first = choose|passes: Seq<Validator<'a>>|
        is_run(passes, *a, lines) && (#[trigger] passes.last()).finishes_with(first);
    let run_second = choose|passes: Seq<Validator<'a>>|
        is_run(passes, *b, lines) && (#[trigger] passes.last()).finishes_with(second);
    lemma_runs_alike_but(run_first, run_second, *a, *b, lines, lines.len() as int, id);
    let p = run_first.last();
    let q = run_second.last();
    assert(same_pass_but(p, q, id));
    assert(p.global().model().validated == q.global().model().validated);
    assert(p.global().state() == q.global().state()) by {
        assert(p.model().global.state == q.model().global.state);
    }
    assert(p.meta_information().model().validated == q.meta_information().model().validated);
    assert(p.meta_information().state() == q.meta_information().state()) by {
        assert(p.model().meta_information.state == q.model().meta_information.state);
    }
    assert(p.header().model().validated == q.header().model().validated);
    assert(p.header().state() == q.header().state()) by {
        assert(p.model().header.state == q.model().header.state);
    }
    if !p.global().validated {
        lemma_end_verdicts_alike(*a, *b, p.global().state(), id);
        lemma_added_alike_but(
            first.global,
            second.global,
            p.global().errors,
            q.global().errors,
            None,
            end_verdicts(*a, p.global().state()),
            end_verdicts(*b, p.global().state()),
            id,
        );
    }
    if !p.meta_information().validated {
        let state = p.meta_information().state();
        lemma_preamble_verdicts_alike(*a, *b, state, id);
        lemma_continued_alike_but(
            first.meta_information@,
            second.meta_information@,
            p.meta_information().errors@,
            q.meta_information().errors@,
            preamble_verdicts(*a, state),
            preamble_verdicts(*b, state),
            id,
        );
    }
    if !p.header().validated {
        let state = p.header().state();
        lemma_header_verdicts_alike(*a, *b, state, id);
        lemma_continued_alike_but(
            first.header@,
            second.header@,
            p.header().errors@,
            q.header().errors@,
            header_verdicts(*a, state),
            header_verdicts(*b, state),
            id,
        );
    }
}

} // verus!
