//! A table of tags: the tags of one device that are read together.
//!
//! No two tags of a table have the same name. Tags keep the order in which
//! they were added.

use vstd::prelude::*;
use vstd::string::*;
use crate::driver::Parameter;
use crate::error::{XError, XErrorKind, XResult};
use crate::tag::{Tag, MAX_BATCH};

verus! {

/// What a table says of itself.
#[derive(Debug, Clone)]
pub struct TableInfo {
    pub name: String,
    pub description: Option<String>,
    pub parameter: Parameter,
}

/// A table of tags.
#[derive(Debug)]
pub struct Table {
    name: String,
    description: Option<String>,
    parameter: Parameter,
    tags: Vec<Tag>,
}

/// Whether `pattern` occurs in `text` as a run of characters.
pub open spec fn spec_contains(text: Seq<char>, pattern: Seq<char>) -> bool {
    exists|i: int|
        0 <= i <= text.len() - pattern.len() && #[trigger] text.subrange(i, i + pattern.len())
            == pattern
}

/// `str::contains` with a string pattern: whether the pattern matches a
/// sub-slice of the text.
#[verifier::external_body]
fn text_contains(text: &str, pattern: &str) -> (found: bool)
    ensures
        found == spec_contains(text@, pattern@),
{
    text.contains(pattern)
}

/// Whether a tag of that name is among the tags.
pub open spec fn has_name(tags: Seq<Tag>, name: Seq<char>) -> bool {
    exists|i: int| 0 <= i < tags.len() && (#[trigger] tags[i]).name@ == name
}

/// Whether no two of the tags share a name.
pub open spec fn distinct_names(tags: Seq<Tag>) -> bool {
    forall|i: int, j: int|
        0 <= i < j < tags.len() ==> (#[trigger] tags[i]).name@ != (#[trigger] tags[j]).name@
}

/// Index of the first tag of that name; the number of tags where there is none.
pub open spec fn position(tags: Seq<Tag>, name: Seq<char>) -> int
    decreases tags.len(),
{
    if tags.len() == 0 || tags[0].name@ == name {
        0
    } else {
        1 + position(tags.drop_first(), name)
    }
}

/// The tags without the one of that name.
pub open spec fn without(tags: Seq<Tag>, name: Seq<char>) -> Seq<Tag> {
    let at = position(tags, name);
    if at < tags.len() {
        tags.remove(at)
    } else {
        tags
    }
}

/// The tags without those of the given names.
pub open spec fn without_all(tags: Seq<Tag>, names: Seq<String>) -> Seq<Tag>
    decreases names.len(),
{
    if names.len() == 0 {
        tags
    } else {
        without_all(without(tags, names[0]@), names.drop_first())
    }
}

/// Whether tag `k` of a batch cannot be added: its name is taken by a tag of
/// the table or by an earlier tag of the batch.
pub open spec fn conflicts(held: Seq<Tag>, batch: Seq<Tag>, k: int) -> bool {
    has_name(held + batch.take(k), batch[k].name@)
}

/// Whether a structured tag of that name is among the tags.
pub open spec fn has_structured_name(tags: Seq<Tag>, name: Seq<char>) -> bool {
    exists|j: int|
        0 <= j < tags.len() && !((#[trigger] tags[j]).value is Base) && tags[j].name@ == name
}

/// Whether the parent of tag `i` of a batch is known: the tag has none, or a
/// tag of the table or a structured tag of the batch bears the parent's name.
pub open spec fn parent_known(held: Seq<Tag>, batch: Seq<Tag>, i: int) -> bool {
    match batch[i].parent {
        None => true,
        Some(parent) => has_name(held, parent@) || has_structured_name(batch, parent@),
    }
}

/// Whether a structured tag of that name is among the tags.
fn has_structured(tags: &[Tag], name: &String) -> (found: bool)
    ensures
        found == has_structured_name(tags@, name@),
{
    let mut j: usize = 0;
    while j < tags.len()
        invariant
            j <= tags.len(),
            forall|k: int|
                0 <= k < j ==> ((#[trigger] tags[k]).value is Base || tags[k].name@ != name@),
        decreases tags.len() - j,
    {
        if !tags[j].value.is_base() && tags[j].name == *name {
            return true;
        }
        j += 1;
    }
    false
}

/// The first tag of that name is where a run of other names ends.
pub proof fn lemma_position_at(tags: Seq<Tag>, name: Seq<char>, k: int)
    requires
        0 <= k <= tags.len(),
        forall|i: int| 0 <= i < k ==> (#[trigger] tags[i]).name@ != name,
        k == tags.len() || tags[k].name@ == name,
    ensures
        position(tags, name) == k,
    decreases tags.len(),
{
    if k > 0 {
        let rest = tags.drop_first();
        assert forall|i: int| 0 <= i < k - 1 implies (#[trigger] rest[i]).name@ != name by {
            assert(rest[i] == tags[i + 1]);
        }
        lemma_position_at(rest, name, k - 1);
    }
}

/// A filter that every tag passes keeps them all.
proof fn lemma_filter_keeps_all(tags: Seq<Tag>, pred: spec_fn(Tag) -> bool)
    requires
        forall|t: Tag| #[trigger] pred(t),
    ensures
        tags.filter(pred) == tags,
    decreases tags.len(),
{
    reveal(Seq::filter);
    if tags.len() > 0 {
        lemma_filter_keeps_all(tags.drop_last(), pred);
        assert(tags.drop_last().push(tags.last()) =~= tags);
    }
}

fn copy_text(text: &Option<String>) -> (copy: Option<String>)
    ensures
        copy == *text,
{
    match text {
        Some(t) => Some(t.clone()),
        None => None,
    }
}

/// Index of the first tag of that name, if there is one.
fn find_name(tags: &Vec<Tag>, name: &String) -> (at: Option<usize>)
    ensures
        match at {
            Some(i) => i < tags@.len() && i == position(tags@, name@) && tags@[i as int].name@
                == name@,
            None => position(tags@, name@) == tags@.len() && !has_name(tags@, name@),
        },
{
    let mut i: usize = 0;
    while i < tags.len()
        invariant
            i <= tags.len(),
            forall|k: int| 0 <= k < i ==> (#[trigger] tags@[k]).name@ != name@,
        decreases tags.len() - i,
    {
        if tags[i].name == *name {
            proof {
                lemma_position_at(tags@, name@, i as int);
            }
            return Some(i);
        }
        i += 1;
    }
    proof {
        lemma_position_at(tags@, name@, i as int);
    }
    None
}

/// How many tags of a batch are to be kept on record after the batch was
/// added: all of them after a success, those before the faulty tag after a tag
/// error with an index, all after a tag error without one, and none (`None`)
/// after any other error.
pub open spec fn spec_stored_count(result: XResult<()>, total: usize) -> Option<usize> {
    match result {
        Ok(_) => Some(total),
        Err(e) => if e.spec_kind() != XErrorKind::TagError {
            None
        } else if 1 <= e.spec_index() && e.spec_index() - 1 < total {
            Some((e.spec_index() - 1) as usize)
        } else {
            Some(total)
        },
    }
}

pub fn stored_count(result: &XResult<()>, total: usize) -> (count: Option<usize>)
    ensures
        count == spec_stored_count(*result, total),
{
    match result {
        Ok(_) => Some(total),
        Err(e) => {
            match e.kind() {
                XErrorKind::TagError => {
                    let index: i32 = e.get_index();
                    if index >= 1 && ((index - 1) as usize) < total {
                        Some((index - 1) as usize)
                    } else {
                        Some(total)
                    }
                },
                _ => None,
            }
        },
    }
}

impl Parameter {
    /// A copy of the parameter.
    pub fn duplicate(&self) -> (copy: Parameter)
        ensures
            copy == *self,
    {
        Parameter { name: self.name.clone(), value: self.value.clone() }
    }
}

impl Table {
    #[verifier::type_invariant]
    spec fn names_are_distinct(self) -> bool {
        distinct_names(self.tags@)
    }

    /// The tags of the table, in the order in which they were added.
    pub closed spec fn tags(self) -> Seq<Tag> {
        self.tags@
    }

    /// What the table was made with.
    pub closed spec fn spec_info(self) -> TableInfo {
        TableInfo { name: self.name, description: self.description, parameter: self.parameter }
    }

    /// A table without tags.
    pub fn new(name: String, description: Option<String>, parameter: Parameter) -> (table: Table)
        ensures
            table.tags() == Seq::<Tag>::empty(),
            distinct_names(table.tags()),
            table.spec_info() == (TableInfo { name, description, parameter }),
    {
        Table { name, description, parameter, tags: Vec::new() }
    }

    pub fn name(&self) -> (name: String)
        ensures
            name == self.spec_info().name,
    {
        self.name.clone()
    }

    pub fn info(&self) -> (info: TableInfo)
        ensures
            info == self.spec_info(),
    {
        TableInfo {
            name: self.name.clone(),
            description: copy_text(&self.description),
            parameter: self.parameter.duplicate(),
        }
    }

    /// The number of tags in the table. No two of them share a name.
    pub fn len(&self) -> (n: usize)
        ensures
            n == self.tags().len(),
            distinct_names(self.tags()),
    {
        proof {
            use_type_invariant(self);
        }
        self.tags.len()
    }

    /// Index of the tag of that name, if the table has one.
    pub fn find(&self, name: &String) -> (at: Option<usize>)
        ensures
            match at {
                Some(i) => i < self.tags().len() && i == position(self.tags(), name@)
                    && self.tags()[i as int].name@ == name@,
                None => position(self.tags(), name@) == self.tags().len() && !has_name(
                    self.tags(),
                    name@,
                ),
            },
    {
        find_name(&self.tags, name)
    }

    /// The first tags of the table, up to the limit; all tags where none is given.
    pub fn get_tag(&self, limit: Option<u16>) -> (found: Vec<&Tag>)
        ensures
            found@.map_values(|t: &Tag| *t) == (match limit {
                Some(n) => if n < self.tags().len() {
                    self.tags().take(n as int)
                } else {
                    self.tags()
                },
                None => self.tags(),
            }),
    {
        let count: usize = match limit {
            Some(n) => if (n as usize) < self.tags.len() {
                n as usize
            } else {
                self.tags.len()
            },
            None => self.tags.len(),
        };
        let mut found: Vec<&Tag> = Vec::new();
        let mut i: usize = 0;
        while i < count
            invariant
                i <= count <= self.tags.len(),
                found@.map_values(|t: &Tag| *t) == self.tags@.take(i as int),
            decreases count - i,
        {
            let ghost before = found@.map_values(|t: &Tag| *t);
            found.push(&self.tags[i]);
            proof {
                assert(found@.map_values(|t: &Tag| *t) =~= before.push(self.tags@[i as int]));
                assert(self.tags@.take(i + 1) =~= self.tags@.take(i as int).push(
                    self.tags@[i as int],
                ));
            }
            i += 1;
        }
        proof {
            assert(self.tags@.take(self.tags.len() as int) =~= self.tags@);
        }
        found
    }

    /// The tags whose name contains the given text; all tags where none is given.
    pub fn get_tags(&self, name: Option<&str>) -> (found: Vec<&Tag>)
        ensures
            found@.map_values(|t: &Tag| *t) == (match name {
                Some(pattern) => self.tags().filter(|t: Tag| spec_contains(t.name@, pattern@)),
                None => self.tags(),
            }),
    {
        let mut found: Vec<&Tag> = Vec::new();
        let ghost pred = |t: Tag|
            match name {
                Some(pattern) => spec_contains(t.name@, pattern@),
                None => true,
            };
        let mut i: usize = 0;
        proof {
            reveal(Seq::filter);
            assert(found@.map_values(|t: &Tag| *t) =~= self.tags@.take(0).filter(pred));
        }
        while i < self.tags.len()
            invariant
                i <= self.tags.len(),
                pred == |t: Tag|
                    match name {
                        Some(pattern) => spec_contains(t.name@, pattern@),
                        None => true,
                    },
                found@.map_values(|t: &Tag| *t) == self.tags@.take(i as int).filter(pred),
            decreases self.tags.len() - i,
        {
            let tag: &Tag = &self.tags[i];
            let keep: bool = match name {
                Some(pattern) => text_contains(tag.name.as_str(), pattern),
                None => true,
            };
            let ghost before = found@.map_values(|t: &Tag| *t);
            if keep {
                found.push(tag);
            }
            proof {
                reveal(Seq::filter);
                let next = self.tags@.take(i + 1);
                assert(next.drop_last() =~= self.tags@.take(i as int));
                assert(next.last() == *tag);
                if keep {
                    assert(found@.map_values(|t: &Tag| *t) =~= before.push(*tag));
                }
            }
            i += 1;
        }
        proof {
            assert(self.tags@.take(self.tags.len() as int) =~= self.tags@);
            match name {
                Some(pattern) => {
                    assert(pred == |t: Tag| spec_contains(t.name@, pattern@)) by {
                        assert(pred =~= (|t: Tag| spec_contains(t.name@, pattern@)));
                    }
                },
                None => {
                    lemma_filter_keeps_all(self.tags@, pred);
                },
            }
        }
        found
    }

    /// Adds the tags of a batch, one after the other, and stops at the first
    /// whose name is taken. The tags before that one stay added; the error
    /// carries the one-based index of the tag and names it.
    pub fn add_tags(&mut self, tags: Vec<Tag>) -> (r: XResult<()>)
        requires
            tags.len() <= MAX_BATCH,
        ensures
            match r {
                Ok(_) => {
                    &&& final(self).tags() == old(self).tags() + tags@
                    &&& forall|k: int| 0 <= k < tags.len() ==> !conflicts(old(self).tags(), tags@, k)
                },
                Err(e) => {
                    let at = e.spec_index() - 1;
                    &&& e.spec_kind() == XErrorKind::TagError
                    &&& 0 <= at < tags.len()
                    &&& conflicts(old(self).tags(), tags@, at)
                    &&& forall|k: int| 0 <= k < at ==> !conflicts(old(self).tags(), tags@, k)
                    &&& final(self).tags() == old(self).tags() + tags@.take(at)
                    &&& e.text() == "conflict name "@ + tags[at].name@
                },
            },
            final(self).spec_info() == old(self).spec_info(),
    {
        let ghost held = self.tags@;
        let ghost batch = tags@;
        proof {
            use_type_invariant(&*self);
            assert(held + batch.take(0) =~= held);
        }
        let mut all: Vec<Tag> = Vec::new();
        core::mem::swap(&mut self.tags, &mut all);
        let mut at: usize = 0;
        for tag in it: tags
            invariant
                it.seq() == batch,
                batch == tags@,
                held == old(self).tags@,
                at == it.index(),
                batch.len() <= MAX_BATCH,
                all@ == held + batch.take(it.index() as int),
                distinct_names(all@),
                self.name == old(self).name,
                self.description == old(self).description,
                self.parameter == old(self).parameter,
                forall|k: int| 0 <= k < it.index() ==> !conflicts(held, batch, k),
        {
            let ghost k = it.index() as int;
            match find_name(&all, &tag.name) {
                Some(taken) => {
                    let text = String::from_str("conflict name ").concat(tag.name.as_str());
                    proof {
                        assert(tag == batch[k]);
                        assert((held + batch.take(k))[taken as int].name@ == batch[k].name@);
                        assert(conflicts(held, batch, k));
                    }
                    self.tags = all;
                    return Err(XError::TagError(Self::batch_index(at), text));
                },
                None => {},
            }
            proof {
                assert(!conflicts(held, batch, k));
                let grown = all@.push(tag);
                assert forall|i: int, j: int| 0 <= i < j < grown.len() implies (#[trigger] grown[i]).name@
                    != (#[trigger] grown[j]).name@ by {
                    if j == grown.len() - 1 {
                        assert(all@[i].name@ != tag.name@);
                    }
                }
                assert(grown =~= held + batch.take(k + 1));
            }
            all.push(tag);
            at += 1;
        }
        proof {
            assert(batch.take(batch.len() as int) =~= batch);
        }
        self.tags = all;
        Ok(())
    }

    /// Checks that the parent of every tag of a batch is known: a tag of
    /// the table, or a structured tag of the batch. The error of a batch is that
    /// of its first tag whose parent is not, and carries the one-based index of
    /// that tag.
    pub fn check_parents(&self, tags: &[Tag]) -> (r: XResult<()>)
        requires
            tags.len() <= MAX_BATCH,
        ensures
            r is Ok <==> forall|i: int| 0 <= i < tags.len() ==> parent_known(self.tags(), tags@, i),
            r is Err ==> {
                let at = r->Err_0.spec_index() - 1;
                &&& r->Err_0.spec_kind() == XErrorKind::TagError
                &&& 0 <= at < tags.len()
                &&& !parent_known(self.tags(), tags@, at)
                &&& forall|i: int| 0 <= i < at ==> parent_known(self.tags(), tags@, i)
                &&& r->Err_0.text() == "Parent tag not found"@
            },
    {
        let mut i: usize = 0;
        while i < tags.len()
            invariant
                i <= tags.len() <= MAX_BATCH,
                forall|k: int| 0 <= k < i ==> parent_known(self.tags(), tags@, k),
            decreases tags.len() - i,
        {
            match &tags[i].parent {
                Some(parent) => {
                    if find_name(&self.tags, parent).is_none() && !has_structured(tags, parent) {
                        assert(!parent_known(self.tags(), tags@, i as int));
                        return Err(
                            XError::new(XErrorKind::TagError, "Parent tag not found").with_index(
                                Self::batch_index(i),
                            ),
                        );
                    }
                },
                None => {},
            }
            i += 1;
        }
        Ok(())
    }

    fn batch_index(at: usize) -> (index: i32)
        requires
            at < MAX_BATCH,
        ensures
            index == at + 1,
    {
        at as i32 + 1
    }

    /// Removes the tags of the given names; a name that no tag has is passed over.
    pub fn del_tags(&mut self, names: &[String]) -> (r: XResult<()>)
        ensures
            r is Ok,
            final(self).tags() == without_all(old(self).tags(), names@),
            final(self).spec_info() == old(self).spec_info(),
    {
        let mut i: usize = 0;
        proof {
            use_type_invariant(&*self);
            assert(names@.skip(0) =~= names@);
        }
        let mut all: Vec<Tag> = Vec::new();
        core::mem::swap(&mut self.tags, &mut all);
        while i < names.len()
            invariant
                i <= names.len(),
                distinct_names(all@),
                without_all(all@, names@.skip(i as int)) == without_all(old(self).tags@, names@),
                self.name == old(self).name,
                self.description == old(self).description,
                self.parameter == old(self).parameter,
            decreases names.len() - i,
        {
            let ghost before = all@;
            proof {
                assert(names@.skip(i as int).drop_first() =~= names@.skip(i + 1));
            }
            match find_name(&all, &names[i]) {
                Some(at) => {
                    proof {
                        let shrunk = before.remove(at as int);
                        assert forall|a: int, b: int| 0 <= a < b < shrunk.len() implies (
                        #[trigger] shrunk[a]).name@ != (#[trigger] shrunk[b]).name@ by {
                            let a0 = if a < at { a } else { a + 1 };
                            let b0 = if b < at { b } else { b + 1 };
                            assert(shrunk[a] == before[a0] && shrunk[b] == before[b0]);
                        }
                    }
                    let _gone = all.remove(at);
                },
                None => {},
            }
            i += 1;
        }
        self.tags = all;
        Ok(())
    }
}

} // verus!
