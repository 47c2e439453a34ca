//! The pass over a file: each line goes to the validators that it concerns,
//! and the end of the file makes the report.

use vstd::prelude::*;
use vstd::utf8::decode_utf8;
use vstd::utf8::valid_utf8;

use crate::config::Config;
use crate::errors::Fault;
use crate::text::split;
use crate::text::trim_end;
use crate::text::trimmed;
use crate::unicode::decode;
use crate::unicode::decode_lossy;
use crate::unicode::lossy;
use crate::validator::Finding;
use crate::validator::ReportModel;
use crate::validator::ValidationReport;
use crate::validator::are_continued;
use crate::validator::data::Answer;
use crate::validator::data::Data;
use crate::validator::data::Fetched;
use crate::validator::data::RecordModel;
use crate::validator::data::RecordState;
use crate::validator::data::ReferenceQuery;
use crate::validator::data::answer_of;
use crate::validator::data::found_in_record;
use crate::validator::data::mismatch_reference_base::MismatchReferenceBase;
use crate::validator::data::opened;
use crate::validator::data::record_refused;
use crate::validator::data::record_verdicts;
use crate::validator::findings_of;
use crate::validator::global::Global;
use crate::validator::global::GlobalModel;
use crate::validator::global::arrived;
use crate::validator::global::end_verdicts;
use crate::validator::global::found_at_end;
use crate::validator::global::found_in_line;
use crate::validator::global::line_verdicts;
use crate::validator::header::Header;
use crate::validator::header::HeaderModel;
use crate::validator::header::found_in_header;
use crate::validator::header::header_verdicts;
use crate::validator::lemma_reports_are_reported;
use crate::validator::meta_information::MetaInformation;
use crate::validator::meta_information::MetaModel;
use crate::validator::meta_information::found_in_preamble;
use crate::validator::meta_information::preamble_refused;
use crate::validator::meta_information::preamble_verdicts;
use crate::validator::unread_lines;
use crate::vcf::Content;
use crate::vcf::LineKind;
use crate::vcf::classify;
use crate::vcf::is_marked;
use crate::vcf::kind_of;

verus! {

/// A pass as the input and the configuration determine it: everything but
/// the messages.
pub ghost struct PassModel {
    /// How many lines have been taken.
    pub line: usize,
    /// The lines that could not be read as text.
    pub unread: Seq<Option<(usize, Seq<char>)>>,
    /// The whole-file validator.
    pub global: GlobalModel,
    /// The preamble validator.
    pub meta_information: MetaModel,
    /// The header validator.
    pub header: HeaderModel,
    /// The record validator.
    pub record: RecordModel,
}

impl PassModel {
    /// The pass before the first line.
    pub open spec fn initial() -> PassModel {
        PassModel {
            line: 0,
            unread: Seq::empty(),
            global: GlobalModel::initial(),
            meta_information: MetaModel::initial(),
            header: HeaderModel::initial(),
            record: RecordModel::initial(None),
        }
    }

    /// The number of the line after `line` lines; the count stays at its
    /// maximum once there.
    pub open spec fn next_line(line: usize) -> usize {
        if line < usize::MAX {
            (line + 1) as usize
        } else {
            line
        }
    }

    /// The pass after the line with the bytes `raw`, for whose record the
    /// reference lookup answered `reference`, where one is configured. The
    /// line is counted. Bytes that are no UTF-8 are kept, rendered lossily,
    /// among the unread lines, and no validator sees them. Else the text
    /// without the white space at its end goes to the whole-file validator,
    /// to the preamble or the header validator where it is of their kind,
    /// and to the record validator.
    pub open spec fn push(
        self,
        config: Config,
        raw: Seq<u8>,
        reference: Option<Answer>,
    ) -> PassModel {
        let number = Self::next_line(self.line);
        if !valid_utf8(raw) {
            PassModel { line: number, unread: self.unread.push(Some((number, lossy(raw)))), ..self }
        } else {
            let line = (number, trim_end(decode_utf8(raw)));
            let record = RecordModel {
                state: RecordState { reference, ..self.record.state },
                ..self.record
            };
            PassModel {
                line: number,
                unread: self.unread,
                global: self.global.push(config, line),
                meta_information: if kind_of(line.1) == LineKind::MetaInformation {
                    self.meta_information.push(line)
                } else {
                    self.meta_information
                },
                header: if kind_of(line.1) == LineKind::Header {
                    self.header.push(line)
                } else {
                    self.header
                },
                record: record.push(config, line),
            }
        }
    }

    /// The line that the bytes `raw` are when the pass takes them next:
    /// its number, and its text without the white space at its end.
    pub open spec fn arriving(self, raw: Seq<u8>) -> (usize, Seq<char>) {
        (Self::next_line(self.line), trim_end(decode_utf8(raw)))
    }

    /// The state in which the rules on records look at `line` while
    /// `reference` is what the lookup answered for it.
    pub open spec fn record_state(
        self,
        line: (usize, Seq<char>),
        reference: Option<Answer>,
    ) -> RecordState {
        opened(RecordState { reference, ..self.record.state }, line)
    }

    /// A rule is refused when the pass takes the line with the bytes `raw`:
    /// the line is text and a record for the record validator, and a rule
    /// on records needs a pattern that does not compile.
    pub open spec fn is_refused_at(
        self,
        config: Config,
        raw: Seq<u8>,
        reference: Option<Answer>,
    ) -> bool {
        &&& valid_utf8(raw)
        &&& !self.record.validated
        &&& !is_marked(self.arriving(raw).1)
        &&& record_refused(config, self.record_state(self.arriving(raw), reference))
    }

    /// A rule has a finding when the pass takes the line with the bytes
    /// `raw`: the line is text, and a rule on each line or a rule on records
    /// finds something in it.
    pub open spec fn finds_at(
        self,
        config: Config,
        raw: Seq<u8>,
        reference: Option<Answer>,
    ) -> bool {
        &&& valid_utf8(raw)
        &&& {
            ||| !self.global.validated && found_in_line(
                config,
                arrived(self.global.state, self.arriving(raw)),
            ).len() > 0
            ||| !self.record.validated && !is_marked(self.arriving(raw).1) && found_in_record(
                config,
                self.record_state(self.arriving(raw), reference),
            ).len() > 0
        }
    }

    /// Taking the line with the bytes `raw` may end in `fault`: in the
    /// pattern fault only where a rule is refused, and in the fault of the
    /// template engine only where a rule has a finding, whose message is to
    /// be rendered.
    pub open spec fn may_fail(
        self,
        config: Config,
        raw: Seq<u8>,
        reference: Option<Answer>,
        fault: Fault,
    ) -> bool {
        ||| fault is Pattern && self.is_refused_at(config, raw, reference)
        ||| fault is Template && self.finds_at(config, raw, reference)
    }

    /// A rule is refused at the end of the file: a rule on the preamble
    /// needs a pattern that does not compile.
    pub open spec fn is_refused_at_end(self, config: Config) -> bool {
        !self.meta_information.validated && preamble_refused(
            config,
            self.meta_information.state,
        )
    }

    /// A rule has a finding at the end of the file.
    pub open spec fn finds_at_end(self, config: Config) -> bool {
        ||| !self.global.validated && found_at_end(config, self.global.state).len() > 0
        ||| !self.meta_information.validated && found_in_preamble(
            config,
            self.meta_information.state,
        ).len() > 0
        ||| !self.header.validated && found_in_header(config, self.header.state).len() > 0
    }

    /// The end of the file may end in `fault`: in the pattern fault only
    /// where a rule is refused, and in the fault of the template engine only
    /// where a rule has a finding.
    pub open spec fn may_fail_at_end(self, config: Config, fault: Fault) -> bool {
        ||| fault is Pattern && self.is_refused_at_end(config)
        ||| fault is Template && self.finds_at_end(config)
    }

    /// The report of the pass once the file has ended: every validator is
    /// finalized, and the report holds what each has found.
    pub open spec fn report(self, config: Config) -> ReportModel {
        ReportModel {
            unread: self.unread,
            global: self.global.validate(config).findings,
            meta_information: self.meta_information.validate(config).findings,
            header: self.header.validate(config).findings,
            record: self.record.validate().findings,
        }
    }

    /// The pass after the lines `lines`, taken in order without a reference
    /// lookup.
    pub open spec fn after(config: Config, lines: Seq<Seq<u8>>) -> PassModel
        decreases lines.len(),
    {
        if lines.len() == 0 {
            Self::initial()
        } else {
            Self::after(config, lines.drop_last()).push(config, lines.last(), None)
        }
    }
}

/// What validating the lines `lines` reports, but for the messages.
pub open spec fn validation_of(config: Config, lines: Seq<Seq<u8>>) -> ReportModel {
    PassModel::after(config, lines).report(config)
}

/// The bytes of each line of a run of lines.
pub open spec fn bytes_of(lines: Seq<Vec<u8>>) -> Seq<Seq<u8>> {
    Seq::new(lines.len(), |i: int| lines[i]@)
}

/// One pass over a file: it takes the lines in order and makes the report at
/// the end.
#[derive(Debug)]
pub struct Validator<'a> {
    config: &'a Config,
    line: usize,
    errors: Vec<Fault>,
    global: Global<'a>,
    meta_information: MetaInformation<'a>,
    header: Header<'a>,
    record: Data<'a>,
}

impl<'a> Validator<'a> {
    /// The four validators share the configuration of the pass.
    pub closed spec fn wf(&self) -> bool {
        &&& self.global.config == self.config
        &&& self.meta_information.config == self.config
        &&& self.header.config == self.config
        &&& self.record.config == self.config
    }

    /// The configuration of the pass.
    pub closed spec fn config(&self) -> Config {
        *self.config
    }

    /// How many lines the pass has taken.
    pub closed spec fn taken(&self) -> usize {
        self.line
    }

    /// The lines that the pass could not read as text, each as a fault.
    pub closed spec fn unread(&self) -> Seq<Fault> {
        self.errors@
    }

    /// The whole-file validator of the pass.
    pub closed spec fn global(&self) -> Global<'a> {
        self.global
    }

    /// The preamble validator of the pass.
    pub closed spec fn meta_information(&self) -> MetaInformation<'a> {
        self.meta_information
    }

    /// The header validator of the pass.
    pub closed spec fn header(&self) -> Header<'a> {
        self.header
    }

    /// The record validator of the pass.
    pub closed spec fn record(&self) -> Data<'a> {
        self.record
    }

    /// Everything of this pass but the messages of its errors.
    pub open spec fn model(&self) -> PassModel {
        PassModel {
            line: self.taken(),
            unread: unread_lines(self.unread()),
            global: self.global().model(),
            meta_information: self.meta_information().model(),
            header: self.header().model(),
            record: self.record().model(),
        }
    }

    /// The state in which the rules on records look at `line` while
    /// `reference` is what the lookup answered for it.
    pub open spec fn record_state(
        &self,
        line: (usize, Seq<char>),
        reference: Option<Answer>,
    ) -> RecordState {
        opened(RecordState { reference, ..self.record().state() }, line)
    }

    /// A pass before the first line.
    pub fn new(config: &'a Config) -> (pass: Self)
        ensures
            pass.wf(),
            pass.config() == *config,
            pass.model() == PassModel::initial(),
    {
        let pass = Validator {
            config,
            line: 0,
            errors: Vec::new(),
            global: Global::new(config),
            meta_information: MetaInformation::new(config),
            header: Header::new(config),
            record: Data::new(config, None),
        };
        assert(unread_lines(pass.errors@) =~= Seq::empty());
        pass
    }

    /// How many lines have been taken.
    pub fn line(&self) -> (line: usize)
        ensures
            line == self.taken(),
    {
        self.line
    }

    /// The interval of the reference sequence that the lookup is to be asked
    /// for before the line with the bytes `raw` is pushed. There is none
    /// where the rule on the reference sequence is disabled, where the bytes
    /// are no UTF-8, or where the record validator has none for the line.
    pub fn query(&self, raw: &[u8]) -> (query: Option<ReferenceQuery>)
        requires
            self.wf(),
        ensures
            query is Some ==> {
                &&& self.config().mismatch_reference_base.enabled
                &&& valid_utf8(raw@)
                &&& !self.record().validated
                &&& !is_marked(trim_end(decode_utf8(raw@)))
                &&& MismatchReferenceBase::interval_of(
                    Some(split(trim_end(decode_utf8(raw@)), '\t')),
                ) == Some(query->0@)
            },
            query is None ==> {
                ||| !self.config().mismatch_reference_base.enabled
                ||| !valid_utf8(raw@)
                ||| self.record().validated
                ||| is_marked(trim_end(decode_utf8(raw@)))
                ||| MismatchReferenceBase::interval_of(
                    Some(split(trim_end(decode_utf8(raw@)), '\t')),
                ) is None
            },
    {
        if !self.config.mismatch_reference_base.enabled {
            return None;
        }
        match decode(raw) {
            Some(text) => {
                let content = Content(self.line, trimmed(text.as_str()));
                self.record.query(&content)
            },
            None => None,
        }
    }

    /// This pass is what `before` becomes by taking the line with the bytes
    /// `raw`, for whose record the reference lookup answered `reference`,
    /// where one is configured. The line is counted. Bytes that are no UTF-8
    /// are kept among the unread lines and no validator sees them. Else the
    /// text without the white space at its end goes to the validators, and
    /// each error that they add is the report of a rule, with a rendering of
    /// the rule's template as its message.
    pub open spec fn follows(
        &self,
        before: Validator<'a>,
        raw: Seq<u8>,
        reference: Option<Answer>,
    ) -> bool {
        let config = before.config();
        let line = (PassModel::next_line(before.taken()), trim_end(decode_utf8(raw)));
        &&& self.wf()
        &&& self.config() == config
        &&& self.model() == before.model().push(config, raw, reference)
        &&& !valid_utf8(raw) ==> {
            &&& self.global() == before.global()
            &&& self.meta_information() == before.meta_information()
            &&& self.header() == before.header()
            &&& self.record() == before.record()
        }
        &&& valid_utf8(raw) ==> {
            &&& self.unread() == before.unread()
            &&& self.meta_information().errors == before.meta_information().errors
            &&& self.header().errors == before.header().errors
            &&& if before.global().validated {
                self.global().errors == before.global().errors
            } else {
                self.global().errors.has_reports(
                    before.global().errors,
                    Some(line.0),
                    line_verdicts(config, arrived(before.global().state(), line)),
                )
            }
            &&& if before.record().validated || is_marked(line.1) {
                self.record().errors == before.record().errors
            } else {
                self.record().errors.has_reports(
                    before.record().errors,
                    Some(line.0),
                    record_verdicts(config, before.record_state(line, reference)),
                )
            }
        }
    }

    /// `report` is what this pass reports once the file has ended: every
    /// validator is finalized, and the report holds the unread lines and the
    /// errors of each validator. Each error that the end adds is the report
    /// of a rule, with a rendering of the rule's template as its message.
    pub open spec fn finishes_with(&self, report: ValidationReport) -> bool {
        let config = self.config();
        &&& report.model() == self.model().report(config)
        &&& report.errors@ == self.unread()
        &&& report.record == self.record().errors
        &&& if self.global().validated {
            report.global == self.global().errors
        } else {
            report.global.has_reports(
                self.global().errors,
                None,
                end_verdicts(config, self.global().state()),
            )
        }
        &&& if self.meta_information().validated {
            report.meta_information == self.meta_information().errors
        } else {
            are_continued(
                report.meta_information@,
                self.meta_information().errors@,
                preamble_verdicts(config, self.meta_information().state()),
            )
        }
        &&& if self.header().validated {
            report.header == self.header().errors
        } else {
            are_continued(
                report.header@,
                self.header().errors@,
                header_verdicts(config, self.header().state()),
            )
        }
    }

    /// Takes the next line, given as its bytes, with what the reference
    /// lookup answered for its record, where one is configured. Where a rule
    /// is refused, because it needs a pattern that does not compile, the
    /// pass stays as it was and the pattern fault comes back. Where the
    /// template engine refuses the message of a finding, the pass stays as
    /// it was and that fault comes back.
    pub fn push(&mut self, raw: &[u8], reference: Option<Fetched>) -> (r: Result<(), Fault>)
        requires
            old(self).wf(),
        ensures
            final(self).wf(),
            final(self).config() == old(self).config(),
            match r {
                Ok(()) => final(self).follows(*old(self), raw@, answer_of(reference)),
                Err(fault) => {
                    &&& *final(self) == *old(self)
                    &&& old(self).model().may_fail(
                        old(self).config(),
                        raw@,
                        answer_of(reference),
                        fault,
                    )
                },
            },
            old(self).model().is_refused_at(old(self).config(), raw@, answer_of(reference))
                ==> r is Err,
    {
        let number: usize = if self.line < usize::MAX {
            self.line + 1
        } else {
            self.line
        };
        let text = match decode(raw) {
            Some(text) => text,
            None => {
                let unread = Content(number, decode_lossy(raw));
                self.errors.push(Fault::VCFReadUtf8Error(unread));
                self.line = number;
                assert(unread_lines(self.errors@) =~= unread_lines(old(self).errors@).push(
                    Some((number, lossy(raw@))),
                ));
                return Ok(());
            },
        };
        let content = Content(number, trimmed(text.as_str()));
        let found = self.global.examine(&content)?;
        proof {
            if self.global.validated {
                assert(findings_of(found@) =~= Seq::<Finding>::empty());
            } else {
                lemma_reports_are_reported(
                    found@,
                    line_verdicts(*self.global.config, arrived(self.global.state(), content@)),
                );
            }
        }
        let mut fetched = reference;
        core::mem::swap(&mut self.record.faidx, &mut fetched);
        match self.record.push(&content) {
            Ok(()) => {},
            Err(fault) => {
                core::mem::swap(&mut self.record.faidx, &mut fetched);
                return Err(fault);
            },
        }
        self.global.accept(&content, found);
        match classify(content.1.as_str()) {
            LineKind::MetaInformation => {
                self.meta_information.push(&content);
            },
            LineKind::Header => {
                self.header.push(&content);
            },
            LineKind::Record => {},
        }
        self.line = number;
        Ok(())
    }

    /// Ends the file and makes the report. There is none where a rule on
    /// the preamble is refused, because it needs a pattern that does not
    /// compile, and none where the template engine refuses the message of a
    /// finding.
    pub fn finish(self) -> (r: Result<ValidationReport, Fault>)
        requires
            self.wf(),
        ensures
            match r {
                Ok(report) => self.finishes_with(report),
                Err(fault) => self.model().may_fail_at_end(self.config(), fault),
            },
            self.model().is_refused_at_end(self.config()) ==> r is Err,
    {
        let Validator { config, line, errors, global, meta_information, header, record } = self;
        let mut global = global;
        let mut meta_information = meta_information;
        let mut header = header;
        let mut record = record;
        global.validate()?;
        meta_information.validate()?;
        header.validate()?;
        record.validate();
        Ok(
            ValidationReport {
                errors,
                global: global.errors,
                meta_information: meta_information.errors,
                header: header.errors,
                record: record.errors,
            },
        )
    }
}

/// `passes` are the states of one pass over the lines `lines` under
/// `config`, without a reference lookup: the first is a pass before the first
/// line, and each next one is what the one before becomes by taking the next
/// line.
pub open spec fn is_run<'a>(
    passes: Seq<Validator<'a>>,
    config: Config,
    lines: Seq<Seq<u8>>,
) -> bool {
    &&& passes.len() == lines.len() + 1
    &&& passes[0].wf()
    &&& passes[0].config() == config
    &&& passes[0].model() == PassModel::initial()
    &&& forall|i: int|
        0 <= i < lines.len() ==> (#[trigger] passes[i + 1]).follows(passes[i], lines[i], None)
}

/// `report` is a report of the lines `lines` under `config`: what a pass
/// over them, without a reference lookup, reports at their end.
pub open spec fn is_validation<'a>(
    report: ValidationReport,
    config: &'a Config,
    lines: Seq<Seq<u8>>,
) -> bool {
    exists|passes: Seq<Validator<'a>>|
        is_run(passes, *config, lines) && (#[trigger] passes.last()).finishes_with(report)
}

/// Validating `lines` under `config` may end in `fault` at place `i`: at
/// the line of that place, the lines before it taken, or, where `i` is the
/// number of lines, at the end of the file.
pub open spec fn may_fail_at(config: Config, lines: Seq<Seq<u8>>, i: int, fault: Fault) -> bool {
    let pass = PassModel::after(config, lines.take(i));
    if i < lines.len() {
        pass.may_fail(config, lines[i], None, fault)
    } else {
        pass.may_fail_at_end(config, fault)
    }
}

/// A rule is refused when `lines` are validated under `config`, at place
/// `i`: at the line of that place, the lines before it taken, or, where `i`
/// is the number of lines, at the end of the file.
pub open spec fn is_refused_in(config: Config, lines: Seq<Seq<u8>>, i: int) -> bool {
    let pass = PassModel::after(config, lines.take(i));
    if i < lines.len() {
        pass.is_refused_at(config, lines[i], None)
    } else {
        pass.is_refused_at_end(config)
    }
}

/// Validates the lines `lines`, each given as its bytes, in order and without
/// a reference lookup. The report is that of a pass over the lines; what it
/// holds but for the texts of the messages is what the lines and the
/// configuration determine. There is no report where a rule is refused at
/// some line or at the end, because it needs a pattern that does not
/// compile. Else there is one unless the template engine refuses the message
/// of a finding.
pub fn validate_lines(config: &Config, lines: &Vec<Vec<u8>>) -> (r: Result<
    ValidationReport,
    Fault,
>)
    ensures
        match r {
            Ok(report) => {
                &&& is_validation(report, config, bytes_of(lines@))
                &&& report.model() == validation_of(*config, bytes_of(lines@))
            },
            Err(fault) => exists|i: int|
                0 <= i <= lines@.len() && #[trigger] may_fail_at(
                    *config,
                    bytes_of(lines@),
                    i,
                    fault,
                ),
        },
        (exists|i: int|
            0 <= i <= lines@.len() && #[trigger] is_refused_in(*config, bytes_of(lines@), i))
            ==> r is Err,
{
    let mut pass = Validator::new(config);
    let ghost mut passes = seq![pass];
    let ghost all = bytes_of(lines@);
    let mut i: usize = 0;
    assert(bytes_of(lines@).take(0) =~= Seq::<Seq<u8>>::empty());
    while i < lines.len()
        invariant
            i <= lines.len(),
            all == bytes_of(lines@),
            pass.wf(),
            pass.config() == *config,
            pass.model() == PassModel::after(*config, bytes_of(lines@).take(i as int)),
            passes.last() == pass,
            is_run(passes, *config, bytes_of(lines@).take(i as int)),
            forall|j: int| 0 <= j < i ==> !#[trigger] is_refused_in(*config, all, j),
        decreases lines.len() - i,
    {
        proof {
            let taken = bytes_of(lines@).take(i + 1);
            assert(taken.drop_last() =~= bytes_of(lines@).take(i as int));
            assert(taken.last() == lines@[i as int]@);
        }
        let ghost before = passes;
        match pass.push(lines[i].as_slice(), None) {
            Ok(()) => {},
            Err(fault) => {
                assert(all[i as int] == lines@[i as int]@);
                assert(may_fail_at(*config, all, i as int, fault));
                return Err(fault);
            },
        }
        proof {
            assert(all[i as int] == lines@[i as int]@);
            assert(!is_refused_in(*config, all, i as int));
            passes = passes.push(pass);
            let taken = bytes_of(lines@).take(i + 1);
            assert forall|j: int| 0 <= j < taken.len() implies (#[trigger] passes[j + 1]).follows(
                passes[j],
                taken[j],
                None,
            ) by {
                if j < i {
                    assert(passes[j + 1] == before[j + 1]);
                    assert(passes[j] == before[j]);
                    assert(taken[j] == bytes_of(lines@).take(i as int)[j]);
                }
            }
        }
        i += 1;
    }
    assert(all.take(lines.len() as int) =~= all);
    let r = pass.finish();
    proof {
        let n = lines@.len() as int;
        if r is Ok {
            assert(!is_refused_in(*config, all, n));
            assert forall|j: int| 0 <= j <= n implies !#[trigger] is_refused_in(
                *config,
                all,
                j,
            ) by {}
        } else {
            assert(may_fail_at(*config, all, n, r->Err_0));
        }
    }
    r
}

} // verus!
