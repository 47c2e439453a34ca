//! What holds of the file as a whole, whatever the kind of its lines.

use vstd::prelude::*;

use crate::config::Config;
use crate::errors::Fault;
use crate::validator::Finding;
use crate::validator::ValidationError;
use crate::validator::Verdict;
use crate::validator::are_reports;
use crate::validator::findings::ErrorMap;
use crate::validator::findings::Findings;
use crate::validator::findings_of;
use crate::validator::gather;
use crate::validator::lemma_reports_are_reported;
use crate::validator::reported;
use crate::vcf::Content;
use crate::vcf::LineKind;
use crate::vcf::classify;
use crate::vcf::kind_of;
use crate::vcf::line_of;

pub mod blank_line;
pub mod data_before_header;
pub mod empty_vcf;

verus! {

/// What the rules on the whole file read.
pub ghost struct GlobalState {
    /// Whether a header line has been seen.
    pub header: bool,
    /// How many lines have been seen.
    pub count: i64,
    /// The line that is being looked at.
    pub current: Option<(usize, Seq<char>)>,
    /// The line before it.
    pub previous: Option<(usize, Seq<char>)>,
}

/// The whole-file validator as the input and the configuration determine
/// it: everything but the messages.
pub ghost struct GlobalModel {
    /// Whether the end of the file has been seen.
    pub validated: bool,
    /// What the rules read.
    pub state: GlobalState,
    /// What the rules have found so far.
    pub findings: Findings,
}

/// The state in which the rules look at `line`: it is the current line and
/// is counted, the count staying at its maximum once there, and a header
/// line has been seen if one had been or `line` is one.
pub open spec fn arrived(state: GlobalState, line: (usize, Seq<char>)) -> GlobalState {
    GlobalState {
        header: state.header || kind_of(line.1) == LineKind::Header,
        count: if state.count < i64::MAX {
            (state.count + 1) as i64
        } else {
            state.count
        },
        current: Some(line),
        previous: state.previous,
    }
}

/// The rules on each line in the order in which they are asked, each with
/// whether it has a finding in `state`.
pub open spec fn line_verdicts(config: Config, state: GlobalState) -> Seq<Verdict> {
    seq![
        config.data_before_header.verdict(state),
        config.blank_line.verdict(state),
    ]
}

/// The rules on the end of the file, each with whether it has a finding in
/// `state`.
pub open spec fn end_verdicts(config: Config, state: GlobalState) -> Seq<Verdict> {
    seq![config.empty_vcf.verdict(state)]
}

/// What the rules on each line find in `state`, in the order in which they
/// are asked.
pub open spec fn found_in_line(config: Config, state: GlobalState) -> Seq<Finding> {
    reported(line_verdicts(config, state))
}

/// What the rules on the end of the file find in `state`.
pub open spec fn found_at_end(config: Config, state: GlobalState) -> Seq<Finding> {
    reported(end_verdicts(config, state))
}

impl GlobalModel {
    /// The validator before the first line.
    pub open spec fn initial() -> GlobalModel {
        GlobalModel {
            validated: false,
            state: GlobalState { header: false, count: 0, current: None, previous: None },
            findings: Findings::empty(),
        }
    }

    /// The validator after `line`: unchanged once it has been finalized; else
    /// the line has arrived, what the rules find in it is attributed to it,
    /// and it is the previous line of the next.
    pub open spec fn push(self, config: Config, line: (usize, Seq<char>)) -> GlobalModel {
        if self.validated {
            self
        } else {
            let state = arrived(self.state, line);
            GlobalModel {
                validated: false,
                state: GlobalState { previous: state.current, ..state },
                findings: self.findings.extend(Some(line), found_in_line(config, state)),
            }
        }
    }

    /// The validator after the end of the file: finalized, with what the
    /// rules on the end find attributed to the file as a whole.
    pub open spec fn validate(self, config: Config) -> GlobalModel {
        if self.validated {
            self
        } else {
            GlobalModel {
                validated: true,
                state: self.state,
                findings: self.findings.extend(None, found_at_end(config, self.state)),
            }
        }
    }
}

/// The validator of the file as a whole: it sees every line.
#[derive(Debug)]
pub struct Global<'a> {
    /// The configuration of the rules.
    pub config: &'a Config,
    /// Whether the end of the file has been seen.
    pub validated: bool,
    /// Whether a header line has been seen.
    pub header: bool,
    /// How many lines have been seen.
    pub count: i64,
    /// The line that is being looked at.
    pub current_content: Option<Content>,
    /// The line before it.
    pub previous_content: Option<Content>,
    /// The errors so far, by the line that they are attributed to.
    pub errors: ErrorMap,
}

impl<'a> Global<'a> {
    /// What the rules read of this validator.
    pub open spec fn state(&self) -> GlobalState {
        GlobalState {
            header: self.header,
            count: self.count,
            current: line_of(self.current_content),
            previous: line_of(self.previous_content),
        }
    }

    /// Everything of this validator but the messages of its errors.
    pub open spec fn model(&self) -> GlobalModel {
        GlobalModel {
            validated: self.validated,
            state: self.state(),
            findings: self.errors.model(),
        }
    }

    /// The validator before the first line.
    pub fn new(config: &'a Config) -> (global: Self)
        ensures
            global.config == config,
            global.model() == GlobalModel::initial(),
    {
        let global = Global {
            config,
            validated: false,
            header: false,
            count: 0,
            current_content: None,
            previous_content: None,
            errors: ErrorMap::new(),
        };
        assert(global.errors.model().by_key =~= Findings::empty().by_key);
        assert(global.errors.model().lines =~= Findings::empty().lines);
        global
    }

    /// Asks the rules on each line, in their order.
    fn look(&self) -> (r: Result<Vec<ValidationError>, Fault>)
        ensures
            match r {
                Ok(errors) => are_reports(errors@, line_verdicts(*self.config, self.state())),
                Err(fault) => fault is Template && found_in_line(*self.config, self.state()).len()
                    > 0,
            },
    {
        let mut errors: Vec<ValidationError> = Vec::new();
        let ghost verdicts = line_verdicts(*self.config, self.state());
        assert(are_reports(errors@, verdicts.take(0)));
        gather(
            &mut errors,
            self.config.data_before_header.validate(self),
            Ghost(verdicts),
            Ghost(0),
        )?;
        gather(
            &mut errors,
            self.config.blank_line.validate(self),
            Ghost(verdicts),
            Ghost(1),
        )?;
        assert(verdicts.take(2) =~= verdicts);
        proof {
            lemma_reports_are_reported(errors@, verdicts);
        }
        Ok(errors)
    }

    /// What the rules on each line report of `content` as the next line. The
    /// validator itself stays as it is; a finalized one reports nothing.
    pub fn examine(&self, content: &Content) -> (r: Result<Vec<ValidationError>, Fault>)
        ensures
            match r {
                Ok(errors) => if self.validated {
                    errors@.len() == 0
                } else {
                    are_reports(
                        errors@,
                        line_verdicts(*self.config, arrived(self.state(), content@)),
                    )
                },
                Err(fault) => {
                    &&& fault is Template
                    &&& !self.validated
                    &&& found_in_line(*self.config, arrived(self.state(), content@)).len() > 0
                },
            },
    {
        if self.validated {
            return Ok(Vec::new());
        }
        let seen = Global {
            config: self.config,
            validated: false,
            header: self.header || classify(content.1.as_str()) == LineKind::Header,
            count: if self.count < i64::MAX {
                self.count + 1
            } else {
                self.count
            },
            current_content: Some(content.clone()),
            previous_content: self.previous_content.clone(),
            errors: ErrorMap::new(),
        };
        assert(seen.state() == arrived(self.state(), content@));
        seen.look()
    }

    /// Takes `content` as the next line with `errors` as what the rules on
    /// each line report of it. A finalized validator ignores both.
    pub fn accept(&mut self, content: &Content, errors: Vec<ValidationError>)
        ensures
            final(self).config == old(self).config,
            old(self).validated ==> *final(self) == *old(self),
            !old(self).validated ==> final(self).model() == (GlobalModel {
                validated: false,
                state: GlobalState {
                    previous: Some(content@),
                    ..arrived(old(self).state(), content@)
                },
                findings: old(self).model().findings.extend(Some(content@), findings_of(errors@)),
            }),
            !old(self).validated ==> final(self).errors.continues(
                old(self).errors,
                Some(content.0),
            ) && final(self).errors.added(old(self).errors, Some(content.0)) == errors@,
    {
        if self.validated {
            return ;
        }
        self.errors.extend(Some(content), errors);
        self.header = self.header || classify(content.1.as_str()) == LineKind::Header;
        self.count = if self.count < i64::MAX {
            self.count + 1
        } else {
            self.count
        };
        self.current_content = Some(content.clone());
        self.previous_content = Some(content.clone());
    }

    /// Takes the next line. A finalized validator ignores it. Else the line
    /// is counted and becomes the current one, the rules on each line are
    /// asked, and their errors are attributed to the line. Where the template
    /// engine refuses a message, the validator stays as it was.
    pub fn push(&mut self, content: &Content) -> (r: Result<(), Fault>)
        ensures
            final(self).config == old(self).config,
            match r {
                Ok(()) => {
                    &&& final(self).model() == old(self).model().push(*old(self).config, content@)
                    &&& !old(self).validated ==> final(self).errors.has_reports(
                        old(self).errors,
                        Some(content.0),
                        line_verdicts(*old(self).config, arrived(old(self).state(), content@)),
                    )
                    &&& old(self).validated ==> final(self).errors == old(self).errors
                },
                Err(fault) => {
                    &&& *final(self) == *old(self)
                    &&& fault is Template
                    &&& !old(self).validated
                    &&& found_in_line(*old(self).config, arrived(old(self).state(), content@)).len()
                        > 0
                },
            },
    {
        let errors = self.examine(content)?;
        proof {
            if self.validated {
                assert(findings_of(errors@) =~= Seq::<Finding>::empty());
            } else {
                lemma_reports_are_reported(
                    errors@,
                    line_verdicts(*self.config, arrived(self.state(), content@)),
                );
            }
        }
        self.accept(content, errors);
        Ok(())
    }

    /// Ends the file. A finalized validator ignores it. Else the rules on the
    /// end of the file are asked and their errors are attributed to the file
    /// as a whole. Where the template engine refuses a message, the validator
    /// stays as it was.
    pub fn validate(&mut self) -> (r: Result<(), Fault>)
        ensures
            final(self).config == old(self).config,
            match r {
                Ok(()) => {
                    &&& final(self).model() == old(self).model().validate(*old(self).config)
                    &&& !old(self).validated ==> final(self).errors.has_reports(
                        old(self).errors,
                        None,
                        end_verdicts(*old(self).config, old(self).state()),
                    )
                    &&& old(self).validated ==> final(self).errors == old(self).errors
                },
                Err(fault) => {
                    &&& *final(self) == *old(self)
                    &&& fault is Template
                    &&& !old(self).validated
                    &&& found_at_end(*old(self).config, old(self).state()).len() > 0
                },
            },
    {
        if self.validated {
            return Ok(());
        }
        let mut errors: Vec<ValidationError> = Vec::new();
        let ghost verdicts = end_verdicts(*self.config, self.state());
        assert(are_reports(errors@, verdicts.take(0)));
        gather(
            &mut errors,
            self.config.empty_vcf.validate(self),
            Ghost(verdicts),
            Ghost(0),
        )?;
        assert(verdicts.take(1) =~= verdicts);
        proof {
            lemma_reports_are_reported(errors@, verdicts);
        }
        self.errors.extend(None, errors);
        self.validated = true;
        Ok(())
    }
}

} // verus!
