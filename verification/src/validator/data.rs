//! What holds of the data records: the lines that do not begin with `#`.

use vstd::prelude::*;

use crate::config::Config;
use crate::errors::Fault;
use crate::pattern::match_len;
use crate::pattern::regex_compiles;
use crate::pattern::regex_match_len;
use crate::text::contains;
use crate::text::copy_strings;
use crate::text::has_substring;
use crate::text::has_text;
use crate::text::lemma_split_nonempty;
use crate::text::split;
use crate::text::split_fields;
use crate::text::texts;
use crate::text::to_chars;
use crate::validator::Finding;
use crate::validator::ValidationError;
use crate::validator::Verdict;
use crate::validator::are_reports;
use crate::validator::data::mismatch_reference_base::MismatchReferenceBase;
use crate::validator::findings::ErrorMap;
use crate::validator::findings::Findings;
use crate::validator::gather;
use crate::validator::is_refused;
use crate::validator::lemma_reports_are_reported;
use crate::validator::reported;
use crate::vcf::Content;
use crate::vcf::is_marked;
use crate::vcf::line_of;
use crate::vcf::starts_with_marker;

pub mod allowed_alternate_base;
pub mod allowed_reference_base;
pub mod ambiguous_alternate_base;
pub mod ambiguous_reference_base;
pub mod deletion_length;
pub mod discontiguous_chromosome;
pub mod identical_bases;
pub mod insertion_length;
pub mod mismatch_reference_base;
pub mod missing_alternate_base;
pub mod missing_reference_base;
pub mod multiple_alternate_alleles;
pub mod position_format;
pub mod unsorted_position;

verus! {

/// The place of CHROM among the fields of a record.
pub const CHROM: usize = 0;

/// The place of POS among the fields of a record.
pub const POS: usize = 1;

/// The place of REF among the fields of a record.
pub const REF: usize = 3;

/// The place of ALT among the fields of a record.
pub const ALT: usize = 4;

/// An interval of a reference sequence, both ends counted from 0 and
/// included.
#[derive(Debug)]
pub struct ReferenceQuery {
    /// The name of the sequence.
    pub chrom: String,
    /// The first place of the interval.
    pub begin: usize,
    /// The last place of the interval.
    pub end: usize,
}

/// What the reference lookup answered to a query: the bases of the interval,
/// or nothing where it failed.
#[derive(Debug)]
pub struct Fetched {
    /// What the lookup was asked for.
    pub query: ReferenceQuery,
    /// The bases of the interval, or nothing where the lookup failed.
    pub sequence: Option<Vec<u8>>,
}

/// An interval of a reference sequence, as a plain value.
pub ghost struct Interval {
    /// The name of the sequence.
    pub chrom: Seq<char>,
    /// The first place of the interval.
    pub begin: usize,
    /// The last place of the interval.
    pub end: usize,
}

/// The answer of the reference lookup, as a plain value.
pub ghost struct Answer {
    /// What the lookup was asked for.
    pub interval: Interval,
    /// The bases of the interval, or nothing where the lookup failed.
    pub sequence: Option<Seq<u8>>,
}

impl View for ReferenceQuery {
    type V = Interval;

    open spec fn view(&self) -> Interval {
        Interval { chrom: self.chrom@, begin: self.begin, end: self.end }
    }
}

impl View for Fetched {
    type V = Answer;

    open spec fn view(&self) -> Answer {
        Answer {
            interval: self.query@,
            sequence: match self.sequence {
                Some(bytes) => Some(bytes@),
                None => None,
            },
        }
    }
}

/// The names of the sequences that records have been seen for, each once.
#[derive(Debug)]
pub struct Chromosomes {
    names: Vec<String>,
}

impl View for Chromosomes {
    type V = Set<Seq<char>>;

    /// The names as a set.
    open spec fn view(&self) -> Set<Seq<char>> {
        Set::new(|name: Seq<char>| self.order().contains(name))
    }
}

impl Chromosomes {
    /// The names in the order in which they were first put in.
    pub closed spec fn order(&self) -> Seq<Seq<char>> {
        texts(self.names@)
    }

    /// No name.
    pub fn new() -> (set: Chromosomes)
        ensures
            set.order() == Seq::<Seq<char>>::empty(),
            set@ == Set::<Seq<char>>::empty(),
    {
        let set = Chromosomes { names: Vec::new() };
        assert(set.order() =~= Seq::<Seq<char>>::empty());
        assert(set@ =~= Set::<Seq<char>>::empty());
        set
    }

    /// Whether `name` is among the names.
    pub fn contains(&self, name: &String) -> (b: bool)
        ensures
            b == self@.contains(name@),
    {
        has_text(&self.names, name)
    }

    /// Puts `name` among the names, behind the others, unless it is among
    /// them, and tells whether it was new.
    pub fn insert(&mut self, name: String) -> (new: bool)
        ensures
            new == !old(self)@.contains(name@),
            final(self).order() == if new {
                old(self).order().push(name@)
            } else {
                old(self).order()
            },
            final(self)@ == old(self)@.insert(name@),
    {
        if has_text(&self.names, &name) {
            assert(self@ =~= old(self)@.insert(name@));
            false
        } else {
            self.names.push(name);
            assert(self.order() =~= old(self).order().push(name@));
            assert forall|other: Seq<char>| self@.contains(other) == old(self)@.insert(
                name@,
            ).contains(other) by {
                let before = old(self).order();
                let after = self.order();
                if before.contains(other) {
                    let i = choose|i: int| 0 <= i < before.len() && before[i] == other;
                    assert(after[i] == other);
                }
                if other == name@ {
                    assert(after[after.len() - 1] == other);
                }
            }
            assert(self@ =~= old(self)@.insert(name@));
            true
        }
    }

    /// The names, each a copy, in the order in which they were first put in.
    pub fn names(&self) -> (names: Vec<String>)
        ensures
            texts(names@) == self.order(),
    {
        copy_strings(&self.names)
    }
}

/// What the rules on records read.
pub ghost struct RecordState {
    /// The fields of the record that is being looked at.
    pub current: Option<Seq<Seq<char>>>,
    /// The fields of the record before it.
    pub previous: Option<Seq<Seq<char>>>,
    /// The names of the sequences of the records before it.
    pub chromosomes: Set<Seq<char>>,
    /// What the reference lookup answered, where one is configured.
    pub reference: Option<Answer>,
}

/// The fields that a record which may be absent holds.
pub open spec fn fields_of(record: Option<Vec<String>>) -> Option<Seq<Seq<char>>> {
    match record {
        Some(fields) => Some(texts(fields@)),
        None => None,
    }
}

/// The answer that a lookup which may not be configured gave.
pub open spec fn answer_of(fetched: Option<Fetched>) -> Option<Answer> {
    match fetched {
        Some(f) => Some(f@),
        None => None,
    }
}

/// The field at place `i` of a record, where the record is there and has so
/// many fields.
pub open spec fn field(record: Option<Seq<Seq<char>>>, i: int) -> Option<Seq<char>> {
    match record {
        Some(fields) => if 0 <= i < fields.len() {
            Some(fields[i])
        } else {
            None
        },
        None => None,
    }
}

/// The field at place `i` of `record`, where the record is there and has so
/// many fields.
pub fn field_at(record: &Option<Vec<String>>, i: usize) -> (found: Option<&String>)
    ensures
        match found {
            Some(text) => field(fields_of(*record), i as int) == Some(text@),
            None => field(fields_of(*record), i as int) is None,
        },
{
    match record {
        Some(fields) => if i < fields.len() {
            Some(&fields[i])
        } else {
            None
        },
        None => None,
    }
}

/// Every character of `bases` is, as a text of its own, one of `allowed`.
pub open spec fn bases_allowed(bases: Seq<char>, allowed: Seq<Seq<char>>) -> bool {
    forall|i: int| 0 <= i < bases.len() ==> allowed.contains(seq![#[trigger] bases[i]])
}

/// Every character of `alleles` but the commas that separate them is, as a
/// text of its own, one of `allowed`.
pub open spec fn alleles_allowed(alleles: Seq<char>, allowed: Seq<Seq<char>>) -> bool {
    forall|i: int|
        0 <= i < alleles.len() && #[trigger] alleles[i] != ',' ==> allowed.contains(
            seq![alleles[i]],
        )
}

/// One of `tokens` stands somewhere in `text`.
pub open spec fn holds_any(text: Seq<char>, tokens: Seq<Seq<char>>) -> bool {
    exists|i: int| 0 <= i < tokens.len() && contains(text, #[trigger] tokens[i])
}

/// The characters that are, as texts of their own, among `allowed`.
fn single_characters(allowed: &Vec<String>) -> (singles: Vec<char>)
    ensures
        forall|c: char| singles@.contains(c) == texts(allowed@).contains(seq![c]),
{
    let mut singles: Vec<char> = Vec::new();
    let mut i: usize = 0;
    while i < allowed.len()
        invariant
            i <= allowed.len(),
            forall|c: char|
                singles@.contains(c) == texts(allowed@).take(i as int).contains(seq![c]),
        decreases allowed.len() - i,
    {
        let chars = to_chars(allowed[i].as_str());
        let ghost before = singles@;
        let ghost seen = texts(allowed@).take(i as int);
        let ghost next = texts(allowed@).take(i + 1);
        assert(next =~= seen.push(allowed@[i as int]@));
        if chars.len() == 1 {
            singles.push(chars[0]);
            assert(chars@ =~= seq![chars@[0]]);
        }
        assert forall|c: char| singles@.contains(c) == next.contains(seq![c]) by {
            if before.contains(c) {
                let k = choose|k: int| 0 <= k < before.len() && before[k] == c;
                assert(singles@[k] == c);
                let j = choose|j: int| 0 <= j < seen.len() && seen[j] == seq![c];
                assert(next[j] == seq![c]);
            }
            if chars@ == seq![c] {
                assert(seq![c][0] == c);
                assert(singles@[singles@.len() - 1] == c);
                assert(next[i as int] == seq![c]);
            }
            if singles@.contains(c) && !before.contains(c) {
                let k = choose|k: int| 0 <= k < singles@.len() && singles@[k] == c;
                assert(k == before.len());
                assert(next[i as int] == seq![c]);
            }
            if next.contains(seq![c]) && !seen.contains(seq![c]) {
                let j = choose|j: int| 0 <= j < next.len() && next[j] == seq![c];
                assert(j == i);
                assert(chars@ == seq![c]);
                assert(seq![c].len() == 1);
            }
        }
        i += 1;
    }
    assert(texts(allowed@).take(allowed.len() as int) =~= texts(allowed@));
    singles
}

/// Whether `c` is among `singles`.
fn is_among(singles: &Vec<char>, c: char) -> (b: bool)
    ensures
        b == singles@.contains(c),
{
    let mut i: usize = 0;
    while i < singles.len()
        invariant
            i <= singles.len(),
            forall|k: int| 0 <= k < i ==> singles@[k] != c,
        decreases singles.len() - i,
    {
        if singles[i] == c {
            return true;
        }
        i += 1;
    }
    false
}

/// Whether every base of `bases` is one of `allowed`.
pub fn has_allowed_bases(bases: &str, allowed: &Vec<String>) -> (b: bool)
    ensures
        b == bases_allowed(bases@, texts(allowed@)),
{
    let singles = single_characters(allowed);
    let chars = to_chars(bases);
    let mut i: usize = 0;
    while i < chars.len()
        invariant
            i <= chars.len(),
            chars@ == bases@,
            forall|c: char| singles@.contains(c) == texts(allowed@).contains(seq![c]),
            forall|k: int| 0 <= k < i ==> texts(allowed@).contains(seq![#[trigger] bases@[k]]),
        decreases chars.len() - i,
    {
        if !is_among(&singles, chars[i]) {
            assert(!texts(allowed@).contains(seq![bases@[i as int]]));
            return false;
        }
        i += 1;
    }
    true
}

/// Whether every base of the alleles in `alleles`, which commas separate, is
/// one of `allowed`.
pub fn has_allowed_alleles(alleles: &str, allowed: &Vec<String>) -> (b: bool)
    ensures
        b == alleles_allowed(alleles@, texts(allowed@)),
{
    let singles = single_characters(allowed);
    let chars = to_chars(alleles);
    let mut i: usize = 0;
    while i < chars.len()
        invariant
            i <= chars.len(),
            chars@ == alleles@,
            forall|c: char| singles@.contains(c) == texts(allowed@).contains(seq![c]),
            forall|k: int|
                0 <= k < i && #[trigger] alleles@[k] != ',' ==> texts(allowed@).contains(
                    seq![alleles@[k]],
                ),
        decreases chars.len() - i,
    {
        if chars[i] != ',' && !is_among(&singles, chars[i]) {
            assert(alleles@[i as int] != ',' && !texts(allowed@).contains(
                seq![alleles@[i as int]],
            ));
            return false;
        }
        i += 1;
    }
    true
}

/// Whether one of `tokens` stands somewhere in `text`.
pub fn has_any(text: &str, tokens: &Vec<String>) -> (b: bool)
    ensures
        b == holds_any(text@, texts(tokens@)),
{
    let mut i: usize = 0;
    while i < tokens.len()
        invariant
            i <= tokens.len(),
            forall|k: int| 0 <= k < i ==> !contains(text@, #[trigger] texts(tokens@)[k]),
        decreases tokens.len() - i,
    {
        if has_substring(text, tokens[i].as_str()) {
            assert(contains(text@, texts(tokens@)[i as int]));
            return true;
        }
        i += 1;
    }
    false
}

/// The regular expression that matches the nucleotides at the beginning of
/// a text: the bases and the ambiguity codes, in either case.
pub open spec fn nucleotide_pattern() -> Seq<char> {
    "^(?i)[ACGTURYSWKMBDHVN]*"@
}

/// The length in bytes of the nucleotides at the beginning of `bases`, as
/// the nucleotide pattern finds them.
pub open spec fn leading_run(bases: Seq<char>) -> Option<usize> {
    regex_match_len(nucleotide_pattern(), bases)
}

/// The length of a run that may not have been found: 0 where it was not.
pub open spec fn run_length(found: Option<usize>) -> int {
    match found {
        Some(n) => n as int,
        None => 0,
    }
}

/// Measures the nucleotides at the beginning of `bases`. It fails exactly
/// where the nucleotide pattern does not compile, whatever the bases.
pub fn measure_run(bases: &str) -> (r: Result<Option<usize>, regex::Error>)
    ensures
        r is Ok <==> regex_compiles(nucleotide_pattern()),
        r matches Ok(found) ==> found == leading_run(bases@),
{
    match_len("^(?i)[ACGTURYSWKMBDHVN]*", bases)
}

/// Whether two fields that may be absent are the same: both absent, or both
/// there with the same text.
pub fn same_field(a: Option<&String>, b: Option<&String>) -> (same: bool)
    ensures
        same == match (a, b) {
            (Some(x), Some(y)) => x@ == y@,
            (None, None) => true,
            _ => false,
        },
{
    match (a, b) {
        (Some(x), Some(y)) => *x == *y,
        (None, None) => true,
        _ => false,
    }
}

/// The rules on records in the order in which they are asked, each with
/// whether it has a finding in `state`.
pub open spec fn record_verdicts(config: Config, state: RecordState) -> Seq<Verdict> {
    seq![
        config.allowed_alternate_base.verdict(state),
        config.allowed_reference_base.verdict(state),
        config.ambiguous_alternate_base.verdict(state),
        config.ambiguous_reference_base.verdict(state),
        config.deletion_length.verdict(state),
        config.discontiguous_chromosome.verdict(state),
        config.identical_bases.verdict(state),
        config.insertion_length.verdict(state),
        config.mismatch_reference_base.verdict(state),
        config.missing_alternate_base.verdict(state),
        config.missing_reference_base.verdict(state),
        config.multiple_alternate_alleles.verdict(state),
        config.position_format.verdict(state),
        config.unsorted_position.verdict(state),
    ]
}

/// The place of each rule in the order in which the rules on records are
/// asked.
pub proof fn lemma_record_verdicts(config: Config, state: RecordState)
    ensures
        record_verdicts(config, state).len() == 14,
        record_verdicts(config, state)[0] == config.allowed_alternate_base.verdict(state),
        record_verdicts(config, state)[1] == config.allowed_reference_base.verdict(state),
        record_verdicts(config, state)[2] == config.ambiguous_alternate_base.verdict(state),
        record_verdicts(config, state)[3] == config.ambiguous_reference_base.verdict(state),
        record_verdicts(config, state)[4] == config.deletion_length.verdict(state),
        record_verdicts(config, state)[5] == config.discontiguous_chromosome.verdict(state),
        record_verdicts(config, state)[6] == config.identical_bases.verdict(state),
        record_verdicts(config, state)[7] == config.insertion_length.verdict(state),
        record_verdicts(config, state)[8] == config.mismatch_reference_base.verdict(state),
        record_verdicts(config, state)[9] == config.missing_alternate_base.verdict(state),
        record_verdicts(config, state)[10] == config.missing_reference_base.verdict(state),
        record_verdicts(config, state)[11] == config.multiple_alternate_alleles.verdict(state),
        record_verdicts(config, state)[12] == config.position_format.verdict(state),
        record_verdicts(config, state)[13] == config.unsorted_position.verdict(state),
{
}

/// A rule on records is refused in `state`: a length rule measures the
/// record, for which it needs the nucleotide pattern, and the pattern does
/// not compile.
pub open spec fn record_refused(config: Config, state: RecordState) -> bool {
    &&& config.deletion_length.asks(state) || config.insertion_length.asks(state)
    &&& !regex_compiles(nucleotide_pattern())
}

/// Among the rules on records the length rules alone can be refused.
pub proof fn lemma_record_refused(config: Config, state: RecordState)
    ensures
        is_refused(record_verdicts(config, state)) == record_refused(config, state),
{
    let verdicts = record_verdicts(config, state);
    lemma_record_verdicts(config, state);
    if record_refused(config, state) {
        if config.deletion_length.asks(state) {
            assert(verdicts[4].refused);
        } else {
            assert(verdicts[7].refused);
        }
    }
    if is_refused(verdicts) {
        let k = choose|k: int| 0 <= k < verdicts.len() && (#[trigger] verdicts[k]).refused;
        assert(k == 4 || k == 7);
    }
}

/// What the rules on records find in `state`, in the order in which they are
/// asked.
pub open spec fn found_in_record(config: Config, state: RecordState) -> Seq<Finding> {
    reported(record_verdicts(config, state))
}

/// The record validator as the input and the configuration determine it:
/// everything but the messages.
pub ghost struct RecordModel {
    /// Whether the end of the file has been seen.
    pub validated: bool,
    /// The line of the current record.
    pub content: Option<(usize, Seq<char>)>,
    /// What the rules read.
    pub state: RecordState,
    /// What the rules have found so far.
    pub findings: Findings,
}

/// The state in which the rules look at the record in `line`: its fields,
/// which tabs separate, are the current record.
pub open spec fn opened(state: RecordState, line: (usize, Seq<char>)) -> RecordState {
    RecordState { current: Some(split(line.1, '\t')), ..state }
}

impl RecordModel {
    /// The validator before the first line, with what the reference lookup
    /// answered for the first record, where one is configured.
    pub open spec fn initial(reference: Option<Answer>) -> RecordModel {
        RecordModel {
            validated: false,
            content: None,
            state: RecordState {
                current: None,
                previous: None,
                chromosomes: Set::empty(),
                reference,
            },
            findings: Findings::empty(),
        }
    }

    /// The validator after `line`: unchanged once it has been finalized, and
    /// by a line that begins with `#`; else the record of the line is looked
    /// at, what the rules find is attributed to the line, the name of its
    /// sequence is among those seen, and it is the previous record of the
    /// next.
    pub open spec fn push(self, config: Config, line: (usize, Seq<char>)) -> RecordModel {
        if self.validated || is_marked(line.1) {
            self
        } else {
            let state = opened(self.state, line);
            RecordModel {
                validated: false,
                content: Some(line),
                state: RecordState {
                    previous: state.current,
                    chromosomes: state.chromosomes.insert(split(line.1, '\t')[0]),
                    ..state
                },
                findings: self.findings.extend(Some(line), found_in_record(config, state)),
            }
        }
    }

    /// The validator after the end of the file: finalized, and else as it
    /// was.
    pub open spec fn validate(self) -> RecordModel {
        RecordModel { validated: true, ..self }
    }
}

/// The validator of the data records.
#[derive(Debug)]
pub struct Data<'a> {
    /// The configuration of the rules.
    pub config: &'a Config,
    /// What the reference lookup answered for the record that is pushed
    /// next, where a lookup is configured.
    pub faidx: Option<Fetched>,
    /// Whether the end of the file has been seen.
    pub validated: bool,
    /// The line of the current record.
    pub content: Option<Content>,
    /// The names of the sequences of the records before the current one.
    pub chromosomes: Chromosomes,
    /// The fields of the record that is being looked at.
    pub current_record: Option<Vec<String>>,
    /// The fields of the record before it.
    pub previous_record: Option<Vec<String>>,
    /// The errors so far, by the line that they are attributed to.
    pub errors: ErrorMap,
}

impl<'a> Data<'a> {
    /// What the rules read of this validator.
    pub open spec fn state(&self) -> RecordState {
        RecordState {
            current: fields_of(self.current_record),
            previous: fields_of(self.previous_record),
            chromosomes: self.chromosomes@,
            reference: answer_of(self.faidx),
        }
    }

    /// Everything of this validator but the messages of its errors.
    pub open spec fn model(&self) -> RecordModel {
        RecordModel {
            validated: self.validated,
            content: line_of(self.content),
            state: self.state(),
            findings: self.errors.model(),
        }
    }

    /// The validator before the first line. `faidx` is what the reference
    /// lookup answered for the first record, where one is configured; the
    /// answer for a later record is put in its place before the record is
    /// pushed.
    pub fn new(config: &'a Config, faidx: Option<Fetched>) -> (data: Self)
        ensures
            data.config == config,
            data.model() == RecordModel::initial(answer_of(faidx)),
    {
        let data = Data {
            config,
            faidx,
            validated: false,
            content: None,
            chromosomes: Chromosomes::new(),
            current_record: None,
            previous_record: None,
            errors: ErrorMap::new(),
        };
        assert(data.errors.model().by_key =~= Findings::empty().by_key);
        assert(data.errors.model().lines =~= Findings::empty().lines);
        data
    }

    /// Asks the rules on records, in their order.
    fn look(&self) -> (r: Result<Vec<ValidationError>, Fault>)
        ensures
            match r {
                Ok(errors) => are_reports(errors@, record_verdicts(*self.config, self.state())),
                Err(fault) => {
                    &&& fault is Pattern || fault is Template
                    &&& fault is Template ==> found_in_record(*self.config, self.state()).len()
                        > 0
                    &&& fault is Pattern ==> record_refused(*self.config, self.state())
                },
            },
            record_refused(*self.config, self.state()) ==> r is Err,
    {
        let mut errors: Vec<ValidationError> = Vec::new();
        let ghost verdicts = record_verdicts(*self.config, self.state());
        proof {
            lemma_record_verdicts(*self.config, self.state());
            lemma_record_refused(*self.config, self.state());
        }
        assert(are_reports(errors@, verdicts.take(0)));
        gather(
            &mut errors,
            self.config.allowed_alternate_base.validate(self),
            Ghost(verdicts),
            Ghost(0),
        )?;
        gather(
            &mut errors,
            self.config.allowed_reference_base.validate(self),
            Ghost(verdicts),
            Ghost(1),
        )?;
        gather(
            &mut errors,
            self.config.ambiguous_alternate_base.validate(self),
            Ghost(verdicts),
            Ghost(2),
        )?;
        gather(
            &mut errors,
            self.config.ambiguous_reference_base.validate(self),
            Ghost(verdicts),
            Ghost(3),
        )?;
        gather(
            &mut errors,
            self.config.deletion_length.validate(self),
            Ghost(verdicts),
            Ghost(4),
        )?;
        gather(
            &mut errors,
            self.config.discontiguous_chromosome.validate(self),
            Ghost(verdicts),
            Ghost(5),
        )?;
        gather(
            &mut errors,
            self.config.identical_bases.validate(self),
            Ghost(verdicts),
            Ghost(6),
        )?;
        gather(
            &mut errors,
            self.config.insertion_length.validate(self),
            Ghost(verdicts),
            Ghost(7),
        )?;
        gather(
            &mut errors,
            self.config.mismatch_reference_base.validate(self),
            Ghost(verdicts),
            Ghost(8),
        )?;
        gather(
            &mut errors,
            self.config.missing_alternate_base.validate(self),
            Ghost(verdicts),
            Ghost(9),
        )?;
        gather(
            &mut errors,
            self.config.missing_reference_base.validate(self),
            Ghost(verdicts),
            Ghost(10),
        )?;
        gather(
            &mut errors,
            self.config.multiple_alternate_alleles.validate(self),
            Ghost(verdicts),
            Ghost(11),
        )?;
        gather(
            &mut errors,
            self.config.position_format.validate(self),
            Ghost(verdicts),
            Ghost(12),
        )?;
        gather(
            &mut errors,
            self.config.unsorted_position.validate(self),
            Ghost(verdicts),
            Ghost(13),
        )?;
        assert(verdicts.take(14) =~= verdicts);
        proof {
            lemma_reports_are_reported(errors@, verdicts);
        }
        Ok(errors)
    }

    /// The interval of the reference sequence that the lookup is to be asked
    /// for before `content` is pushed: that of its record. There is none for
    /// a line that would be ignored.
    pub fn query(&self, content: &Content) -> (query: Option<ReferenceQuery>)
        ensures
            match query {
                Some(q) => {
                    &&& !self.validated && !is_marked(content@.1)
                    &&& MismatchReferenceBase::interval_of(Some(split(content@.1, '\t'))) == Some(
                        q@,
                    )
                },
                None => self.validated || is_marked(content@.1)
                    || MismatchReferenceBase::interval_of(Some(split(content@.1, '\t'))) is None,
            },
    {
        if self.validated || starts_with_marker(content.1.as_str()) {
            return None;
        }
        let record = Some(split_fields(content.1.as_str(), '\t'));
        MismatchReferenceBase::query(&record)
    }

    /// Takes the next line. A finalized validator ignores it, and a line that
    /// begins with `#` is ignored. Else the fields of the line become the
    /// current record, the rules are asked, in their order, and their errors
    /// are attributed to the line. Where a rule is refused, because it needs
    /// the nucleotide pattern and the pattern does not compile, or the
    /// template engine refuses a message, the validator stays as it was.
    pub fn push(&mut self, content: &Content) -> (r: Result<(), Fault>)
        ensures
            final(self).config == old(self).config,
            match r {
                Ok(()) => {
                    &&& final(self).model() == old(self).model().push(*old(self).config, content@)
                    &&& !old(self).validated && !is_marked(content@.1)
                        ==> final(self).errors.has_reports(
                        old(self).errors,
                        Some(content.0),
                        record_verdicts(*old(self).config, opened(old(self).state(), content@)),
                    )
                    &&& old(self).validated || is_marked(content@.1) ==> final(self).errors == old(
                        self,
                    ).errors
                },
                Err(fault) => {
                    &&& *final(self) == *old(self)
                    &&& !old(self).validated
                    &&& !is_marked(content@.1)
                    &&& fault is Pattern || fault is Template
                    &&& fault is Template ==> found_in_record(
                        *old(self).config,
                        opened(old(self).state(), content@),
                    ).len() > 0
                    &&& fault is Pattern ==> record_refused(
                        *old(self).config,
                        opened(old(self).state(), content@),
                    )
                },
            },
            !old(self).validated && !is_marked(content@.1) && record_refused(
                *old(self).config,
                opened(old(self).state(), content@),
            ) ==> r is Err,
    {
        if self.validated {
            return Ok(());
        }
        if starts_with_marker(content.1.as_str()) {
            return Ok(());
        }
        let fields = split_fields(content.1.as_str(), '\t');
        proof {
            lemma_split_nonempty(content@.1, '\t');
            assert(texts(fields@).len() == fields@.len());
        }
        let chrom = fields[0].clone();
        let previous = copy_strings(&fields);
        let mut record = Some(fields);
        core::mem::swap(&mut self.current_record, &mut record);
        assert(self.state() == opened(old(self).state(), content@));
        match self.look() {
            Ok(errors) => {
                proof {
                    lemma_reports_are_reported(
                        errors@,
                        record_verdicts(*self.config, self.state()),
                    );
                }
                self.errors.extend(Some(content), errors);
                self.content = Some(content.clone());
                self.chromosomes.insert(chrom);
                self.previous_record = Some(previous);
                Ok(())
            },
            Err(fault) => {
                core::mem::swap(&mut self.current_record, &mut record);
                Err(fault)
            },
        }
    }

    /// Ends the file: the validator is finalized. No rule on records waits
    /// for the end.
    pub fn validate(&mut self)
        ensures
            final(self).config == old(self).config,
            final(self).errors == old(self).errors,
            final(self).model() == old(self).model().validate(),
    {
        self.validated = true;
    }
}

} // verus!
