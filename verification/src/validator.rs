//! The rule catalogue's common vocabulary: severities, findings and the
//! collections that hold them.

use vstd::prelude::*;

use crate::errors::Fault;
use crate::template::Named;
use crate::template::Parameters;
use crate::template::render;
use crate::template::renders;
use crate::validator::findings::ErrorMap;
use crate::validator::findings::Findings;

pub mod data;
pub mod engine;
pub mod findings;
pub mod global;
pub mod header;
pub mod meta_information;

verus! {

/// Failure level of a rule and of what it reports.
#[derive(Debug, Copy, Clone, PartialEq, Eq, Structural)]
pub enum Level {
    /// The level of a rule that has been given none.
    Unset,
    /// Validation goes on after a finding.
    Warning,
    /// Validation is to stop after a finding.
    Error,
}

impl Default for Level {
    /// The level of a rule that has been given none.
    fn default() -> (level: Self)
        ensures
            level == Level::Unset,
    {
        Level::Unset
    }
}

/// What one rule reports of one state: the rule's code and name, the level
/// that it is configured with, and the rendered message.
#[derive(Debug)]
pub struct ValidationError {
    /// The code of the rule.
    pub id: &'static str,
    /// The name of the rule.
    pub name: &'static str,
    /// The level that the rule was configured with.
    pub level: Level,
    /// The rule's message, rendered.
    pub message: String,
}

/// A finding without its message: the part that the input and the
/// configuration alone determine.
pub ghost struct Finding {
    /// The code of the rule.
    pub id: Seq<char>,
    /// The name of the rule.
    pub name: Seq<char>,
    /// The level that the rule was configured with.
    pub level: Level,
}

impl ValidationError {
    /// The finding that this error reports.
    pub open spec fn finding(&self) -> Finding {
        Finding { id: self.id@, name: self.name@, level: self.level }
    }
}

impl Clone for ValidationError {
    /// An error with the same rule, level and message.
    fn clone(&self) -> (e: Self)
        ensures
            e == *self,
    {
        ValidationError {
            id: self.id,
            name: self.name,
            level: self.level,
            message: self.message.clone(),
        }
    }
}

/// The findings that a sequence of errors reports, in the same order.
pub open spec fn findings_of(errors: Seq<ValidationError>) -> Seq<Finding> {
    Seq::new(errors.len(), |i: int| errors[i].finding())
}

/// `message` is a text that the template engine gives for `template` with
/// the values `values`.
pub open spec fn is_rendering(template: Seq<char>, values: Named, message: Seq<char>) -> bool {
    renders(
        template,
        values.text_names,
        values.text_values,
        values.number_names,
        values.number_values,
        message,
    )
}

/// What a rule reports in some state: whether it has a finding, the finding,
/// and the template and the values that its message is rendered from.
pub ghost struct Verdict {
    /// Whether the rule cannot be asked at all: it needs a pattern, and the
    /// pattern does not compile.
    pub refused: bool,
    /// Whether the rule has a finding.
    pub found: bool,
    /// What the rule reports when it has one.
    pub finding: Finding,
    /// The template of the rule's message.
    pub template: Seq<char>,
    /// The values that the template may refer to.
    pub values: Named,
}

/// `r` is what a rule with the verdict `verdict` hands back. Where the rule
/// is refused, it is the pattern fault. Else it is nothing where the rule
/// has no finding, and where it has one, the error that reports the finding
/// with a rendering of the template as its message, or the refusal of the
/// template engine to render it.
pub open spec fn is_verdict(r: Result<Option<ValidationError>, Fault>, verdict: Verdict) -> bool {
    if verdict.refused {
        r matches Err(fault) && fault is Pattern
    } else {
        match r {
            Ok(None) => !verdict.found,
            Ok(Some(e)) => {
                &&& verdict.found
                &&& e.finding() == verdict.finding
                &&& is_rendering(verdict.template, verdict.values, e.message@)
            },
            Err(fault) => verdict.found && fault is Template,
        }
    }
}

/// Some rule of `verdicts` is refused.
pub open spec fn is_refused(verdicts: Seq<Verdict>) -> bool {
    exists|k: int| 0 <= k < verdicts.len() && (#[trigger] verdicts[k]).refused
}

/// Makes the error of a rule from what the template engine answered: the
/// error with the rendered message, or the engine's refusal as a fault.
pub fn report(
    id: &'static str,
    name: &'static str,
    level: Level,
    rendered: Result<String, tera::Error>,
) -> (r: Result<Option<ValidationError>, Fault>)
    ensures
        match rendered {
            Ok(message) => r == Ok::<Option<ValidationError>, Fault>(
                Some(ValidationError { id, name, level, message }),
            ),
            Err(refusal) => r == Err::<Option<ValidationError>, Fault>(Fault::Template(refusal)),
        },
{
    match rendered {
        Ok(message) => Ok(Some(ValidationError { id, name, level, message })),
        Err(refusal) => Err(Fault::Template(refusal)),
    }
}

/// What a pass over a file found.
#[derive(Debug)]
pub struct ValidationReport {
    /// The lines that could not be read as text.
    pub errors: Vec<Fault>,
    /// The errors of the file as a whole and of its lines whatever their
    /// kind.
    pub global: ErrorMap,
    /// The errors of the preamble.
    pub meta_information: Vec<ValidationError>,
    /// The errors of the header.
    pub header: Vec<ValidationError>,
    /// The errors of the records.
    pub record: ErrorMap,
}

/// The line that a fault of the kind "not UTF-8" is about.
pub open spec fn unread_line(fault: Fault) -> Option<(usize, Seq<char>)> {
    match fault {
        Fault::VCFReadUtf8Error(content) => Some(content@),
        _ => None,
    }
}

/// The lines that a run of faults of the kind "not UTF-8" is about.
pub open spec fn unread_lines(faults: Seq<Fault>) -> Seq<Option<(usize, Seq<char>)>> {
    Seq::new(faults.len(), |i: int| unread_line(faults[i]))
}

/// A report as the input and the configuration determine it: everything but
/// the messages.
pub ghost struct ReportModel {
    /// The lines that could not be read as text.
    pub unread: Seq<Option<(usize, Seq<char>)>>,
    /// The findings on the file as a whole and on its lines whatever their
    /// kind.
    pub global: Findings,
    /// The findings on the preamble.
    pub meta_information: Seq<Finding>,
    /// The findings on the header.
    pub header: Seq<Finding>,
    /// The findings on the records.
    pub record: Findings,
}

impl ValidationReport {
    /// Everything of this report but the messages of its errors.
    pub open spec fn model(&self) -> ReportModel {
        ReportModel {
            unread: unread_lines(self.errors@),
            global: self.global.model(),
            meta_information: findings_of(self.meta_information@),
            header: findings_of(self.header@),
            record: self.record.model(),
        }
    }
}

/// The one finding of a rule that has one, or none.
pub open spec fn one(found: bool, finding: Finding) -> Seq<Finding> {
    if found {
        seq![finding]
    } else {
        Seq::empty()
    }
}

/// What a run of rules reports: the finding of each rule that has one, in
/// the order of the rules.
pub open spec fn reported(verdicts: Seq<Verdict>) -> Seq<Finding>
    decreases verdicts.len(),
{
    if verdicts.len() == 0 {
        Seq::empty()
    } else {
        reported(verdicts.drop_last()) + one(verdicts.last().found, verdicts.last().finding)
    }
}

/// `errors` are what the rules of `verdicts` report, each with a rendering
/// of its rule's template as its message: no rule is refused, and the errors
/// are those of the rules that have a finding, in the order of the rules.
pub open spec fn are_reports(errors: Seq<ValidationError>, verdicts: Seq<Verdict>) -> bool
    decreases verdicts.len(),
{
    if verdicts.len() == 0 {
        errors.len() == 0
    } else if verdicts.last().refused {
        false
    } else if verdicts.last().found {
        &&& errors.len() > 0
        &&& errors.last().finding() == verdicts.last().finding
        &&& is_rendering(verdicts.last().template, verdicts.last().values, errors.last().message@)
        &&& are_reports(errors.drop_last(), verdicts.drop_last())
    } else {
        are_reports(errors, verdicts.drop_last())
    }
}

/// `after` holds the errors of `before` and, behind them, the reports of
/// the rules of `verdicts`.
pub open spec fn are_continued(
    after: Seq<ValidationError>,
    before: Seq<ValidationError>,
    verdicts: Seq<Verdict>,
) -> bool {
    before.is_prefix_of(after) && are_reports(after.skip(before.len() as int), verdicts)
}

/// Errors that are the reports of a run of rules report the findings of
/// that run, and no rule of the run is refused.
pub proof fn lemma_reports_are_reported(errors: Seq<ValidationError>, verdicts: Seq<Verdict>)
    requires
        are_reports(errors, verdicts),
    ensures
        findings_of(errors) == reported(verdicts),
        !is_refused(verdicts),
    decreases verdicts.len(),
{
    if is_refused(verdicts) {
        let k = choose|k: int| 0 <= k < verdicts.len() && (#[trigger] verdicts[k]).refused;
        if k < verdicts.len() - 1 {
            assert(verdicts.drop_last()[k].refused);
        }
    }
    if verdicts.len() == 0 {
        assert(findings_of(errors) =~= reported(verdicts));
    } else if verdicts.last().found {
        lemma_reports_are_reported(errors.drop_last(), verdicts.drop_last());
        assert(findings_of(errors) =~= findings_of(errors.drop_last()) + one(
            true,
            verdicts.last().finding,
        ));
    } else {
        lemma_reports_are_reported(errors, verdicts.drop_last());
        assert(findings_of(errors) =~= findings_of(errors) + one(false, verdicts.last().finding));
    }
}

/// Where the rule at place `k` has a finding, the rules report something.
pub proof fn lemma_reported_some(verdicts: Seq<Verdict>, k: int)
    requires
        0 <= k < verdicts.len(),
        verdicts[k].found,
    ensures
        reported(verdicts).len() > 0,
    decreases verdicts.len(),
{
    if k < verdicts.len() - 1 {
        lemma_reported_some(verdicts.drop_last(), k);
    }
}

/// Puts what the rule at place `k` of `verdicts` handed back behind
/// `errors`, which hold what the rules before it reported. A fault comes
/// back as it is.
pub(crate) fn gather(
    errors: &mut Vec<ValidationError>,
    verdict: Result<Option<ValidationError>, Fault>,
    Ghost(verdicts): Ghost<Seq<Verdict>>,
    Ghost(k): Ghost<int>,
) -> (r: Result<(), Fault>)
    requires
        0 <= k < verdicts.len(),
        is_verdict(verdict, verdicts[k]),
        are_reports(old(errors)@, verdicts.take(k)),
    ensures
        match r {
            Ok(()) => verdict is Ok && are_reports(final(errors)@, verdicts.take(k + 1)),
            Err(fault) => {
                &&& verdict == Err::<Option<ValidationError>, Fault>(fault)
                &&& final(errors)@ == old(errors)@
                &&& fault is Pattern || fault is Template
                &&& fault is Pattern ==> is_refused(verdicts)
                &&& fault is Template ==> reported(verdicts).len() > 0
            },
        },
{
    proof {
        assert(verdicts.take(k + 1).drop_last() =~= verdicts.take(k));
        assert(verdicts.take(k + 1).last() == verdicts[k]);
    }
    match verdict {
        Ok(Some(e)) => {
            errors.push(e);
            assert(errors@.drop_last() =~= old(errors)@);
            Ok(())
        },
        Ok(None) => Ok(()),
        Err(fault) => {
            proof {
                if fault is Template {
                    lemma_reported_some(verdicts, k);
                }
            }
            Err(fault)
        },
    }
}

/// Renders `message` with `parameters` and makes the error of a rule from
/// the answer.
pub(crate) fn render_finding(
    id: &'static str,
    name: &'static str,
    level: Level,
    message: &str,
    parameters: &Parameters,
) -> (r: Result<Option<ValidationError>, Fault>)
    ensures
        is_verdict(
            r,
            Verdict {
                refused: false,
                found: true,
                finding: Finding { id: id@, name: name@, level },
                template: message@,
                values: parameters@,
            },
        ),
{
    report(id, name, level, render(message, parameters))
}

} // verus!
