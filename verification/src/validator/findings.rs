//! Errors kept by the line that they are attributed to.

use std::collections::BTreeMap;
use vstd::prelude::*;
use vstd::std_specs::iter::IteratorSpec;

use crate::validator::Finding;
use crate::validator::ValidationError;
use crate::validator::Verdict;
use crate::validator::are_reports;
use crate::validator::findings_of;
use crate::vcf::Content;
use crate::vcf::line_of;

verus! {

/// The errors attributed to one line, with the line itself.
#[derive(Debug)]
pub struct LineErrors {
    /// The line.
    pub content: Content,
    /// Its errors, in the order in which they were added.
    pub errors: Vec<ValidationError>,
}

/// Errors by what they are attributed to: a line, told by its number, or the
/// file as a whole. Lines come in the order of their numbers, and the errors
/// of one key in the order in which they were added.
#[derive(Debug)]
pub struct ErrorMap {
    whole: Vec<ValidationError>,
    lines: BTreeMap<usize, LineErrors>,
}

/// What an error map holds, without the messages: the findings of each key
/// in the order in which they were added, and the line that stands for each
/// key that is a line number.
pub ghost struct Findings {
    /// The findings of each key that has any: of a line number, or of `None`
    /// for the file as a whole.
    pub by_key: Map<Option<usize>, Seq<Finding>>,
    /// The line that stands for each line number among the keys.
    pub lines: Map<usize, (usize, Seq<char>)>,
}

/// The key under which the findings on `line` are kept.
pub open spec fn key_for(line: Option<(usize, Seq<char>)>) -> Option<usize> {
    match line {
        Some(l) => Some(l.0),
        None => None,
    }
}

impl Findings {
    /// No finding at all.
    pub open spec fn empty() -> Findings {
        Findings { by_key: Map::empty(), lines: Map::empty() }
    }

    /// The findings of `key`; none where it is no key.
    pub open spec fn at(self, key: Option<usize>) -> Seq<Finding> {
        if self.by_key.contains_key(key) {
            self.by_key[key]
        } else {
            Seq::empty()
        }
    }

    /// These findings with `found` added, in order, behind those that the key
    /// of `line` already has. A line that was no key yet stands for its key
    /// from then on. Adding nothing changes nothing.
    pub open spec fn extend(
        self,
        line: Option<(usize, Seq<char>)>,
        found: Seq<Finding>,
    ) -> Findings {
        if found.len() == 0 {
            self
        } else {
            Findings {
                by_key: self.by_key.insert(key_for(line), self.at(key_for(line)) + found),
                lines: match line {
                    Some(l) => if self.by_key.contains_key(Some(l.0)) {
                        self.lines
                    } else {
                        self.lines.insert(l.0, l)
                    },
                    None => self.lines,
                },
            }
        }
    }
}

/// Adding in two steps under one key is adding the concatenation.
pub proof fn lemma_extend_twice(
    m: Findings,
    line: Option<(usize, Seq<char>)>,
    a: Seq<Finding>,
    b: Seq<Finding>,
)
    ensures
        m.extend(line, a).extend(line, b) == m.extend(line, a + b),
{
    let k = key_for(line);
    if a.len() == 0 {
        assert(a + b =~= b);
    } else if b.len() == 0 {
        assert(a + b =~= a);
    } else {
        let once = m.extend(line, a);
        assert(once.at(k) + b =~= m.at(k) + (a + b));
        assert(once.extend(line, b).by_key =~= m.extend(line, a + b).by_key);
        assert(once.extend(line, b).lines =~= m.extend(line, a + b).lines);
    }
}

/// The key under which errors for `content` are kept: the line's number, or
/// `None` for the file as a whole.
pub open spec fn key_of(content: Option<Content>) -> Option<usize> {
    match content {
        Some(c) => Some(c.0),
        None => None,
    }
}

/// The content behind a reference that may be absent.
pub open spec fn option_cloned(content: Option<&Content>) -> Option<Content> {
    match content {
        Some(c) => Some(*c),
        None => None,
    }
}

impl ErrorMap {
    /// The errors of each key that has any, in the order in which they were
    /// added.
    pub closed spec fn view(&self) -> Map<Option<usize>, Seq<ValidationError>> {
        Map::new(
            |key: Option<usize>|
                match key {
                    Some(n) => self.lines@.contains_key(n),
                    None => self.whole@.len() > 0,
                },
            |key: Option<usize>|
                match key {
                    Some(n) => self.lines@[n].errors@,
                    None => self.whole@,
                },
        )
    }

    /// The line that stands for the key `n`, where that key has errors.
    pub closed spec fn content(&self, n: usize) -> Content {
        self.lines@[n].content
    }

    /// What the map holds, without the messages.
    pub open spec fn model(&self) -> Findings {
        Findings {
            by_key: Map::new(
                |key: Option<usize>| self@.contains_key(key),
                |key: Option<usize>| findings_of(self@[key]),
            ),
            lines: Map::new(
                |n: usize| self@.contains_key(Some(n)),
                |n: usize| self.content(n)@,
            ),
        }
    }

    /// The errors of `key`; none where the map does not hold the key.
    pub open spec fn at(&self, key: Option<usize>) -> Seq<ValidationError> {
        if self@.contains_key(key) {
            self@[key]
        } else {
            Seq::empty()
        }
    }

    /// This map holds what `before` holds and, behind it under `key`, the
    /// errors that were added since.
    pub open spec fn continues(&self, before: ErrorMap, key: Option<usize>) -> bool {
        &&& before.at(key).is_prefix_of(self.at(key))
        &&& forall|other: Option<usize>| other != key ==> self.at(other) == before.at(other)
    }

    /// The errors under `key` that were added since the map was as `before`.
    pub open spec fn added(&self, before: ErrorMap, key: Option<usize>) -> Seq<ValidationError> {
        self.at(key).skip(before.at(key).len() as int)
    }

    /// This map holds what `before` holds and, behind it under `key`, the
    /// reports of the rules of `verdicts`.
    pub open spec fn has_reports(
        &self,
        before: ErrorMap,
        key: Option<usize>,
        verdicts: Seq<Verdict>,
    ) -> bool {
        self.continues(before, key) && are_reports(self.added(before, key), verdicts)
    }

    /// A map without errors.
    pub fn new() -> (map: ErrorMap)
        ensures
            map@ == Map::<Option<usize>, Seq<ValidationError>>::empty(),
    {
        let map = ErrorMap { whole: Vec::new(), lines: BTreeMap::new() };
        assert(map@ =~= Map::<Option<usize>, Seq<ValidationError>>::empty());
        map
    }

    /// Adds `value` behind the errors that `key` already has. A line that had
    /// no errors yet becomes a key; one that had keeps the content that it was
    /// first given.
    pub fn push_or_insert(&mut self, key: Option<Content>, value: ValidationError)
        ensures
            final(self)@ == old(self)@.insert(key_of(key), old(self).at(key_of(key)).push(value)),
            forall|n: usize|
                old(self)@.contains_key(Some(n)) ==> final(self).content(n) == old(self).content(n),
            key matches Some(c) ==> (!old(self)@.contains_key(Some(c.0)) ==> final(self).content(
                c.0,
            ) == c),
            final(self).model() == old(self).model().extend(line_of(key), seq![value.finding()]),
    {
        broadcast use vstd::std_specs::btree::group_btree_axioms;
        broadcast use vstd::laws_cmp::group_laws_cmp;

        let ghost before = *self;
        match key {
            None => {
                self.whole.push(value);
                assert(self.lines@ == before.lines@);
                assert(before.whole@.len() == 0 ==> before.whole@ =~= Seq::empty());
                assert(self@[None] == before.at(None).push(value));
            },
            Some(content) => {
                let n: usize = content.0;
                match self.lines.remove(&n) {
                    Some(mut entry) => {
                        assert(before.lines@.contains_key(n) && before.lines@[n] == entry);
                        entry.errors.push(value);
                        self.lines.insert(n, entry);
                        assert(self.lines@ == before.lines@.remove(n).insert(n, entry));
                        assert(self@[Some(n)] == before.at(Some(n)).push(value));
                    },
                    None => {
                        assert(!before.lines@.contains_key(n));
                        let mut errors: Vec<ValidationError> = Vec::new();
                        errors.push(value);
                        assert(errors@ =~= Seq::<ValidationError>::empty().push(value));
                        self.lines.insert(n, LineErrors { content, errors });
                        assert(self@[Some(n)] == before.at(Some(n)).push(value));
                    },
                }
                assert(self.whole@ == before.whole@);
            },
        }
        assert(self@ =~= before@.insert(key_of(key), before.at(key_of(key)).push(value)));
        proof {
            let k = key_of(key);
            let target = before.model().extend(line_of(key), seq![value.finding()]);
            assert(key_for(line_of(key)) == k);
            assert(findings_of(before.at(k).push(value)) =~= before.model().at(k) + seq![
                value.finding(),
            ]);
            assert(self.model().by_key =~= target.by_key);
            assert(self.model().lines =~= target.lines);
        }
    }

    /// Adds `errors`, in order, behind the errors that `key` already has.
    pub fn extend(&mut self, key: Option<&Content>, errors: Vec<ValidationError>)
        ensures
            final(self).model() == old(self).model().extend(
                line_of(option_cloned(key)),
                findings_of(errors@),
            ),
            errors@.len() == 0 ==> final(self)@ == old(self)@,
            errors@.len() > 0 ==> final(self)@ == old(self)@.insert(
                key_of(option_cloned(key)),
                old(self).at(key_of(option_cloned(key))) + errors@,
            ),
            final(self).continues(*old(self), key_of(option_cloned(key))),
            final(self).added(*old(self), key_of(option_cloned(key))) == errors@,
    {
        let ghost line = line_of(option_cloned(key));
        let ghost k = key_of(option_cloned(key));
        let mut i: usize = 0;
        assert(findings_of(errors@.take(0)) =~= Seq::<Finding>::empty());
        while i < errors.len()
            invariant
                i <= errors.len(),
                line == line_of(option_cloned(key)),
                k == key_of(option_cloned(key)),
                self.model() == old(self).model().extend(line, findings_of(errors@.take(i as int))),
                i == 0 ==> self@ == old(self)@,
                i > 0 ==> self@ == old(self)@.insert(k, old(self).at(k) + errors@.take(i as int)),
            decreases errors.len() - i,
        {
            let ghost before = *self;
            let owned: Option<Content> = match key {
                Some(content) => Some(content.clone()),
                None => None,
            };
            self.push_or_insert(owned, errors[i].clone());
            proof {
                let done = findings_of(errors@.take(i as int));
                let next = seq![errors@[i as int].finding()];
                lemma_extend_twice(old(self).model(), line, done, next);
                assert(findings_of(errors@.take(i + 1)) =~= done + next);
                assert(errors@.take(i + 1) =~= errors@.take(i as int).push(errors@[i as int]));
                if i == 0 {
                    assert(errors@.take(0) =~= Seq::<ValidationError>::empty());
                    assert(old(self).at(k) + errors@.take(1) =~= old(self).at(k).push(
                        errors@[0],
                    ));
                } else {
                    assert(before.at(k) == old(self).at(k) + errors@.take(i as int));
                    assert(before.at(k).push(errors@[i as int]) =~= old(self).at(k) + errors@.take(
                        i + 1,
                    ));
                    assert(self@ =~= old(self)@.insert(k, old(self).at(k) + errors@.take(i + 1)));
                }
            }
            i += 1;
        }
        assert(errors@.take(errors.len() as int) =~= errors@);
        assert(self.at(k) =~= old(self).at(k) + errors@);
        assert(self.added(*old(self), k) =~= errors@);
    }

    /// The errors of `key`, if it has any.
    pub fn get(&self, key: Option<usize>) -> (errors: Option<&Vec<ValidationError>>)
        ensures
            match errors {
                Some(e) => self@.contains_key(key) && e@ == self@[key],
                None => !self@.contains_key(key),
            },
    {
        broadcast use vstd::std_specs::btree::group_btree_axioms;
        broadcast use vstd::laws_cmp::group_laws_cmp;

        match key {
            None => {
                if self.whole.len() > 0 {
                    Some(&self.whole)
                } else {
                    None
                }
            },
            Some(n) => {
                match self.lines.get(&n) {
                    Some(entry) => Some(&entry.errors),
                    None => None,
                }
            },
        }
    }

    /// The numbers of the lines that have errors, in increasing order.
    pub fn line_numbers(&self) -> (numbers: Vec<usize>)
        ensures
            forall|n: usize| numbers@.contains(n) <==> self@.contains_key(Some(n)),
            forall|i: int, j: int| 0 <= i < j < numbers@.len() ==> numbers@[i] < numbers@[j],
    {
        broadcast use vstd::std_specs::btree::group_btree_axioms;
        broadcast use vstd::laws_cmp::group_laws_cmp;

        let mut numbers: Vec<usize> = Vec::new();
        let entries = self.lines.iter();
        let ghost all = entries.remaining();
        let ghost keys = all.map_values(|entry: (&usize, &LineErrors)| *entry.0);
        proof {
            let ordered = all.map_values(|kv: (&usize, &LineErrors)| *kv.0);
            assert(keys =~= ordered);
            assert(vstd::std_specs::btree::increasing_seq(keys));
            vstd::std_specs::btree::axiom_increasing_seq_meaning::<usize>(keys);
            assert forall|i: int, j: int| 0 <= i < j < keys.len() implies keys[i] < keys[j] by {
                assert(vstd::std_specs::cmp::OrdSpec::cmp_spec(&keys[i], &keys[j]) is Less);
            }
        }
        for entry in it: entries
            invariant
                all == it.seq(),
                keys == all.map_values(|entry: (&usize, &LineErrors)| *entry.0),
                forall|i: int, j: int| 0 <= i < j < keys.len() ==> keys[i] < keys[j],
                numbers@ == keys.take(it.index()),
        {
            numbers.push(*entry.0);
            assert(numbers@ =~= keys.take(it.index() + 1));
        }
        assert(numbers@ =~= keys);
        assert forall|n: usize| numbers@.contains(n) <==> self@.contains_key(Some(n)) by {
            if self.lines@.contains_key(n) {
                let i = choose|i: int| 0 <= i < all.len() && all[i] == (&n, &self.lines@[n]);
                assert(keys[i] == n);
            }
            if numbers@.contains(n) {
                let i = choose|i: int| 0 <= i < keys.len() && keys[i] == n;
                assert(self.lines@.contains_key(*all[i].0));
            }
        }
        numbers
    }

    /// The line that stands for the key `n`, if that key has errors.
    pub fn line(&self, n: usize) -> (content: Option<&Content>)
        ensures
            match content {
                Some(c) => self@.contains_key(Some(n)) && *c == self.content(n),
                None => !self@.contains_key(Some(n)),
            },
    {
        broadcast use vstd::std_specs::btree::group_btree_axioms;
        broadcast use vstd::laws_cmp::group_laws_cmp;

        match self.lines.get(&n) {
            Some(entry) => Some(&entry.content),
            None => None,
        }
    }
}

} // verus!
