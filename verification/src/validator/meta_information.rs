//! What holds of the preamble: the lines that begin with `##`.

use vstd::prelude::*;
use vstd::string::StringExecFns;

use crate::config::Config;
use crate::errors::Fault;
use crate::pattern::is_literal;
use crate::pattern::is_match;
use crate::pattern::regex_compiles;
use crate::text::contains;
use crate::text::texts;
use crate::validator::Finding;
use crate::validator::ValidationError;
use crate::validator::Verdict;
use crate::validator::are_continued;
use crate::validator::are_reports;
use crate::validator::findings_of;
use crate::validator::gather;
use crate::validator::is_refused;
use crate::validator::lemma_reports_are_reported;
use crate::validator::reported;
use crate::vcf::Content;
use crate::vcf::lines_of;

pub mod file_format;
pub mod version;

verus! {

/// What the rules on the preamble read: the meta-information lines seen so
/// far.
pub ghost struct MetaState {
    /// The meta-information lines, in the order in which they were seen.
    pub contents: Seq<(usize, Seq<char>)>,
}

/// What stands in a line that declares the file's format. As a regular
/// expression it matches itself.
pub open spec fn declaration_pattern() -> Seq<char> {
    "fileformat="@
}

/// A line with the text `text` declares the file's format: the declaration
/// pattern stands somewhere in it.
pub open spec fn declares(text: Seq<char>) -> bool {
    contains(text, declaration_pattern())
}

/// What stands before the version in a line that declares the file's format.
pub open spec fn declaration_prefix() -> Seq<char> {
    "##fileformat="@
}

/// For each of `contents`, whether it declares a format.
pub open spec fn declarations(contents: Seq<(usize, Seq<char>)>) -> Seq<bool> {
    Seq::new(contents.len(), |i: int| declares(contents[i].1))
}

/// `text` is the declaration of one of the `allowed` versions.
pub open spec fn declares_allowed(text: Seq<char>, allowed: Seq<Seq<char>>) -> bool {
    exists|i: int| 0 <= i < allowed.len() && text == declaration_prefix() + #[trigger] allowed[i]
}

/// Exactly one of `contents` is among the `declaring`, and it is line 1 and
/// the declaration of one of the `allowed` versions.
pub open spec fn declared(
    contents: Seq<(usize, Seq<char>)>,
    declaring: Seq<bool>,
    allowed: Seq<Seq<char>>,
) -> bool {
    &&& declaring.len() == contents.len()
    &&& exists|i: int|
        {
            &&& 0 <= i < contents.len()
            &&& #[trigger] declaring[i]
            &&& forall|j: int| 0 <= j < contents.len() && j != i ==> !declaring[j]
            &&& contents[i].0 == 1
            &&& declares_allowed(contents[i].1, allowed)
        }
}

/// Asks of each of `contents` whether it declares a format: whether the
/// declaration pattern, taken as a regular expression, matches in it.
pub fn which_declare(contents: &Vec<Content>) -> (r: Result<Vec<bool>, regex::Error>)
    ensures
        r is Ok <==> contents@.len() == 0 || regex_compiles(declaration_pattern()),
        r matches Ok(declaring) ==> declaring@ == declarations(lines_of(contents@)),
{
    let mut declaring: Vec<bool> = Vec::new();
    let mut i: usize = 0;
    proof {
        reveal_strlit("fileformat=");
        assert(is_literal("fileformat="@));
    }
    while i < contents.len()
        invariant
            i <= contents.len(),
            is_literal(declaration_pattern()),
            i > 0 ==> regex_compiles(declaration_pattern()),
            declaring@ == declarations(lines_of(contents@)).take(i as int),
        decreases contents.len() - i,
    {
        let found = is_match("fileformat=", contents[i].1.as_str())?;
        declaring.push(found);
        assert(declaring@ =~= declarations(lines_of(contents@)).take(i + 1));
        i += 1;
    }
    assert(declarations(lines_of(contents@)).take(contents.len() as int) =~= declarations(
        lines_of(contents@),
    ));
    Ok(declaring)
}

/// Whether `text` is the declaration of one of the `allowed` versions.
pub fn is_allowed_declaration(text: &String, allowed: &Vec<String>) -> (b: bool)
    ensures
        b == declares_allowed(text@, texts(allowed@)),
{
    let mut i: usize = 0;
    while i < allowed.len()
        invariant
            i <= allowed.len(),
            forall|k: int| 0 <= k < i ==> text@ != declaration_prefix() + texts(allowed@)[k],
        decreases allowed.len() - i,
    {
        let declaration = String::from_str("##fileformat=").concat(allowed[i].as_str());
        if *text == declaration {
            assert(text@ == declaration_prefix() + texts(allowed@)[i as int]);
            return true;
        }
        i += 1;
    }
    false
}

/// Whether exactly one of `contents` is among the `declaring`, and is line 1
/// and the declaration of one of the `allowed` versions.
pub fn is_declared(contents: &Vec<Content>, declaring: &Vec<bool>, allowed: &Vec<String>) -> (b:
    bool)
    ensures
        b == declared(lines_of(contents@), declaring@, texts(allowed@)),
{
    if declaring.len() != contents.len() {
        return false;
    }
    let ghost lines = lines_of(contents@);
    let mut first: Option<usize> = None;
    let mut i: usize = 0;
    while i < contents.len()
        invariant
            i <= contents.len(),
            declaring.len() == contents.len(),
            match first {
                Some(f) => f < i && declaring@[f as int] && forall|k: int|
                    0 <= k < i && k != f ==> !declaring@[k],
                None => forall|k: int| 0 <= k < i ==> !declaring@[k],
            },
        decreases contents.len() - i,
    {
        if declaring[i] {
            if first.is_some() {
                return false;
            }
            first = Some(i);
        }
        i += 1;
    }
    match first {
        None => false,
        Some(f) => {
            let found = contents[f].0 == 1 && is_allowed_declaration(&contents[f].1, allowed);
            assert(lines[f as int] == contents@[f as int]@);
            found
        },
    }
}

/// The preamble validator as the input and the configuration determine it:
/// everything but the messages.
pub ghost struct MetaModel {
    /// Whether the end of the file has been seen.
    pub validated: bool,
    /// What the rules read.
    pub state: MetaState,
    /// What the rules have found.
    pub findings: Seq<Finding>,
}

/// The rules on the preamble in the order in which they are asked, each
/// with whether it has a finding in `state`.
pub open spec fn preamble_verdicts(config: Config, state: MetaState) -> Seq<Verdict> {
    seq![
        config.file_format.verdict(state, texts(config.version.allowed@)),
        config.version.verdict(state),
    ]
}

/// A rule on the preamble is refused in `state`: a rule looks for
/// declarations, for which it needs the declaration pattern, and the
/// pattern does not compile.
pub open spec fn preamble_refused(config: Config, state: MetaState) -> bool {
    &&& config.file_format.asks(state) || config.version.asks(state)
    &&& !regex_compiles(declaration_pattern())
}

/// A rule on the preamble is refused exactly where one of the two is.
pub proof fn lemma_preamble_refused(config: Config, state: MetaState)
    ensures
        is_refused(preamble_verdicts(config, state)) == preamble_refused(config, state),
{
    let verdicts = preamble_verdicts(config, state);
    if preamble_refused(config, state) {
        if config.file_format.asks(state) {
            assert(verdicts[0].refused);
        } else {
            assert(verdicts[1].refused);
        }
    }
    if is_refused(verdicts) {
        let k = choose|k: int| 0 <= k < verdicts.len() && (#[trigger] verdicts[k]).refused;
        assert(k == 0 || k == 1);
    }
}

/// What the rules on the preamble find in `state`, in the order in which
/// they are asked.
pub open spec fn found_in_preamble(config: Config, state: MetaState) -> Seq<Finding> {
    reported(preamble_verdicts(config, state))
}

impl MetaModel {
    /// The validator before the first line.
    pub open spec fn initial() -> MetaModel {
        MetaModel {
            validated: false,
            state: MetaState { contents: Seq::empty() },
            findings: Seq::empty(),
        }
    }

    /// The validator after the meta-information line `line`: unchanged once
    /// it has been finalized; else the line is kept behind the others.
    pub open spec fn push(self, line: (usize, Seq<char>)) -> MetaModel {
        if self.validated {
            self
        } else {
            MetaModel { state: MetaState { contents: self.state.contents.push(line) }, ..self }
        }
    }

    /// The validator after the end of the file: finalized, with what the
    /// rules find in the lines kept.
    pub open spec fn validate(self, config: Config) -> MetaModel {
        if self.validated {
            self
        } else {
            MetaModel {
                validated: true,
                state: self.state,
                findings: self.findings + found_in_preamble(config, self.state),
            }
        }
    }
}

/// The validator of the meta-information lines.
#[derive(Debug)]
pub struct MetaInformation<'a> {
    /// The configuration of the rules.
    pub config: &'a Config,
    /// Whether the end of the file has been seen.
    pub validated: bool,
    /// The meta-information lines, in the order in which they were seen.
    pub contents: Vec<Content>,
    /// The errors of the preamble.
    pub errors: Vec<ValidationError>,
}

impl<'a> MetaInformation<'a> {
    /// What the rules read of this validator.
    pub open spec fn state(&self) -> MetaState {
        MetaState { contents: lines_of(self.contents@) }
    }

    /// Everything of this validator but the messages of its errors.
    pub open spec fn model(&self) -> MetaModel {
        MetaModel {
            validated: self.validated,
            state: self.state(),
            findings: findings_of(self.errors@),
        }
    }

    /// The validator before the first line.
    pub fn new(config: &'a Config) -> (meta: Self)
        ensures
            meta.config == config,
            meta.model() == MetaModel::initial(),
    {
        let meta = MetaInformation {
            config,
            validated: false,
            contents: Vec::new(),
            errors: Vec::new(),
        };
        assert(meta.state().contents =~= Seq::empty());
        assert(findings_of(meta.errors@) =~= Seq::empty());
        meta
    }

    /// Takes the next meta-information line and keeps it; a finalized
    /// validator ignores it.
    pub fn push(&mut self, content: &Content)
        ensures
            final(self).config == old(self).config,
            final(self).errors == old(self).errors,
            final(self).model() == old(self).model().push(content@),
    {
        if self.validated {
            return ;
        }
        self.contents.push(content.clone());
        assert(lines_of(self.contents@) =~= lines_of(old(self).contents@).push(content@));
    }

    /// Ends the file. A finalized validator ignores it. Else the rules are
    /// asked, in their order, and their errors are kept behind those already
    /// there. Where a rule is refused, because it needs the declaration
    /// pattern and the pattern does not compile, or the template engine
    /// refuses a message, the validator stays as it was.
    pub fn validate(&mut self) -> (r: Result<(), Fault>)
        ensures
            final(self).config == old(self).config,
            match r {
                Ok(()) => {
                    &&& final(self).model() == old(self).model().validate(*old(self).config)
                    &&& !old(self).validated ==> are_continued(
                        final(self).errors@,
                        old(self).errors@,
                        preamble_verdicts(*old(self).config, old(self).state()),
                    )
                    &&& old(self).validated ==> final(self).errors == old(self).errors
                },
                Err(fault) => {
                    &&& *final(self) == *old(self)
                    &&& !old(self).validated
                    &&& fault is Pattern || fault is Template
                    &&& fault is Template ==> found_in_preamble(
                        *old(self).config,
                        old(self).state(),
                    ).len() > 0
                    &&& fault is Pattern ==> preamble_refused(
                        *old(self).config,
                        old(self).state(),
                    )
                },
            },
            !old(self).validated && preamble_refused(*old(self).config, old(self).state())
                ==> r is Err,
    {
        if self.validated {
            return Ok(());
        }
        let ghost state = self.state();
        let ghost verdicts = preamble_verdicts(*self.config, state);
        proof {
            lemma_preamble_refused(*self.config, state);
        }
        let mut errors: Vec<ValidationError> = Vec::new();
        assert(are_reports(errors@, verdicts.take(0)));
        gather(
            &mut errors,
            self.config.file_format.validate(self),
            Ghost(verdicts),
            Ghost(0),
        )?;
        gather(
            &mut errors,
            self.config.version.validate(self),
            Ghost(verdicts),
            Ghost(1),
        )?;
        assert(verdicts.take(2) =~= verdicts);
        proof {
            lemma_reports_are_reported(errors@, verdicts);
        }
        let ghost kept = self.errors@;
        let ghost added = errors@;
        self.errors.append(&mut errors);
        assert(self.errors@.skip(kept.len() as int) =~= added);
        assert(findings_of(self.errors@) =~= findings_of(kept) + found_in_preamble(
            *self.config,
            state,
        ));
        self.validated = true;
        Ok(())
    }
}

} // verus!
