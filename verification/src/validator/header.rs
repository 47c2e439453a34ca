//! What holds of the header: the lines that begin with `#`, not with `##`.

use vstd::prelude::*;

use crate::config::Config;
use crate::errors::Fault;
use crate::validator::Finding;
use crate::validator::ValidationError;
use crate::validator::Verdict;
use crate::validator::are_continued;
use crate::validator::are_reports;
use crate::validator::findings_of;
use crate::validator::gather;
use crate::validator::lemma_reports_are_reported;
use crate::validator::reported;
use crate::vcf::Content;
use crate::vcf::lines_of;

pub mod duplicated_header;
pub mod header_column;
pub mod header_line;

verus! {

/// What the rules on the header read: the header lines seen so far.
pub ghost struct HeaderState {
    /// The header lines, in the order in which they were seen.
    pub contents: Seq<(usize, Seq<char>)>,
}

/// The header validator as the input and the configuration determine it:
/// everything but the messages.
pub ghost struct HeaderModel {
    /// Whether the end of the file has been seen.
    pub validated: bool,
    /// What the rules read.
    pub state: HeaderState,
    /// What the rules have found.
    pub findings: Seq<Finding>,
}

/// The rules on the header in the order in which they are asked, each with
/// whether it has a finding in `state`.
pub open spec fn header_verdicts(config: Config, state: HeaderState) -> Seq<Verdict> {
    seq![
        config.duplicated_header.verdict(state),
        config.header_column.verdict(state),
        config.header_line.verdict(state),
    ]
}

/// What the rules on the header find in `state`, in the order in which they
/// are asked.
pub open spec fn found_in_header(config: Config, state: HeaderState) -> Seq<Finding> {
    reported(header_verdicts(config, state))
}

impl HeaderModel {
    /// The validator before the first line.
    pub open spec fn initial() -> HeaderModel {
        HeaderModel {
            validated: false,
            state: HeaderState { contents: Seq::empty() },
            findings: Seq::empty(),
        }
    }

    /// The validator after the header line `line`: unchanged once it has been
    /// finalized; else the line is kept behind the others.
    pub open spec fn push(self, line: (usize, Seq<char>)) -> HeaderModel {
        if self.validated {
            self
        } else {
            HeaderModel { state: HeaderState { contents: self.state.contents.push(line) }, ..self }
        }
    }

    /// The validator after the end of the file: finalized, with what the
    /// rules find in the lines kept.
    pub open spec fn validate(self, config: Config) -> HeaderModel {
        if self.validated {
            self
        } else {
            HeaderModel {
                validated: true,
                state: self.state,
                findings: self.findings + found_in_header(config, self.state),
            }
        }
    }
}

/// The validator of the header lines.
#[derive(Debug)]
pub struct Header<'a> {
    /// The configuration of the rules.
    pub config: &'a Config,
    /// Whether the end of the file has been seen.
    pub validated: bool,
    /// The header lines, in the order in which they were seen.
    pub contents: Vec<Content>,
    /// The errors of the header.
    pub errors: Vec<ValidationError>,
}

impl<'a> Header<'a> {
    /// What the rules read of this validator.
    pub open spec fn state(&self) -> HeaderState {
        HeaderState { contents: lines_of(self.contents@) }
    }

    /// Everything of this validator but the messages of its errors.
    pub open spec fn model(&self) -> HeaderModel {
        HeaderModel {
            validated: self.validated,
            state: self.state(),
            findings: findings_of(self.errors@),
        }
    }

    /// The validator before the first line.
    pub fn new(config: &'a Config) -> (header: Self)
        ensures
            header.config == config,
            header.model() == HeaderModel::initial(),
    {
        let header = Header { config, validated: false, contents: Vec::new(), errors: Vec::new() };
        assert(header.state().contents =~= Seq::empty());
        assert(findings_of(header.errors@) =~= Seq::empty());
        header
    }

    /// Takes the next header line and keeps it; a finalized validator ignores
    /// it.
    pub fn push(&mut self, content: &Content)
        ensures
            final(self).config == old(self).config,
            final(self).errors == old(self).errors,
            final(self).model() == old(self).model().push(content@),
    {
        if self.validated {
            return ;
        }
        self.contents.push(content.clone());
        assert(lines_of(self.contents@) =~= lines_of(old(self).contents@).push(content@));
    }

    /// Ends the file. A finalized validator ignores it. Else the rules are
    /// asked, in their order, and their errors are kept behind those already
    /// there. Where the template engine refuses a message, the validator
    /// stays as it was.
    pub fn validate(&mut self) -> (r: Result<(), Fault>)
        ensures
            final(self).config == old(self).config,
            match r {
                Ok(()) => {
                    &&& final(self).model() == old(self).model().validate(*old(self).config)
                    &&& !old(self).validated ==> are_continued(
                        final(self).errors@,
                        old(self).errors@,
                        header_verdicts(*old(self).config, old(self).state()),
                    )
                    &&& old(self).validated ==> final(self).errors == old(self).errors
                },
                Err(fault) => {
                    &&& *final(self) == *old(self)
                    &&& fault is Template
                    &&& !old(self).validated
                    &&& found_in_header(*old(self).config, old(self).state()).len() > 0
                },
            },
    {
        if self.validated {
            return Ok(());
        }
        let ghost state = self.state();
        let ghost verdicts = header_verdicts(*self.config, state);
        let mut errors: Vec<ValidationError> = Vec::new();
        assert(are_reports(errors@, verdicts.take(0)));
        gather(
            &mut errors,
            self.config.duplicated_header.validate(self),
            Ghost(verdicts),
            Ghost(0),
        )?;
        gather(
            &mut errors,
            self.config.header_column.validate(self),
            Ghost(verdicts),
            Ghost(1),
        )?;
        gather(
            &mut errors,
            self.config.header_line.validate(self),
            Ghost(verdicts),
            Ghost(2),
        )?;
        assert(verdicts.take(3) =~= verdicts);
        proof {
            lemma_reports_are_reported(errors@, verdicts);
        }
        let ghost kept = self.errors@;
        let ghost added = errors@;
        self.errors.append(&mut errors);
        assert(self.errors@.skip(kept.len() as int) =~= added);
        assert(findings_of(self.errors@) =~= findings_of(kept) + found_in_header(
            *self.config,
            state,
        ));
        self.validated = true;
        Ok(())
    }
}

} // verus!
