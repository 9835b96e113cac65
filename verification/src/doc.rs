//! The shape of the persisted document, as the library sees it.
//!
//! The backing file is a JSON object. The unverified rim turns its text into
//! this model and back: a document is an ordered list of keyed fields, a
//! field is a scalar leaf or an array of objects, and an object is an
//! ordered list of keyed leaves. Any value outside those shapes (a nested
//! object, an array of scalars, a non-integer number) is carried through
//! opaquely as `Raw`, holding its rendered text, so unknown keys survive a
//! load/save cycle unchanged.

use vstd::prelude::*;

verus! {

/// A scalar JSON value, or the rendered text of one this model does not
/// interpret.
#[derive(Debug, PartialEq)]
pub enum JLeaf {
    Null,
    Bool(bool),
    Int(i64),
    Str(String),
    Raw(String),
}

/// A JSON object: keyed leaves, in the order they appear in the file.
#[derive(Debug, PartialEq)]
pub struct JObj {
    pub entries: Vec<(String, JLeaf)>,
}

/// One top-level value: a leaf, or an array of objects.
#[derive(Debug, PartialEq)]
pub enum JField {
    Leaf(JLeaf),
    Objs(Vec<JObj>),
}

/// The whole document: keyed fields, in the order they appear in the file.
pub struct JDoc {
    pub entries: Vec<(String, JField)>,
}

/// The value under the first occurrence of `k`, if any.
pub open spec fn doc_lookup(s: Seq<(String, JField)>, k: Seq<char>) -> Option<JField>
    decreases s.len(),
{
    if s.len() == 0 {
        None
    } else if s[0].0@ == k {
        Some(s[0].1)
    } else {
        doc_lookup(s.drop_first(), k)
    }
}

/// The leaf under the first occurrence of `k`, if any.
pub open spec fn obj_lookup(s: Seq<(String, JLeaf)>, k: Seq<char>) -> Option<JLeaf>
    decreases s.len(),
{
    if s.len() == 0 {
        None
    } else if s[0].0@ == k {
        Some(s[0].1)
    } else {
        obj_lookup(s.drop_first(), k)
    }
}

/// Two fields hold the same data (object arrays compared entry-by-entry,
/// since a freshly built array is a distinct value).
pub open spec fn field_equiv(a: JField, b: JField) -> bool {
    match (a, b) {
        (JField::Leaf(x), JField::Leaf(y)) => x == y,
        (JField::Objs(u), JField::Objs(v)) => u@.len() == v@.len() && forall|i: int|
            0 <= i < u@.len() ==> u@[i].entries@ == #[trigger] v@[i].entries@,
        _ => false,
    }
}

/// Keyed fields hold the same data, pairwise.
pub open spec fn pairs_equiv(a: Seq<(String, JField)>, b: Seq<(String, JField)>) -> bool {
    a.len() == b.len() && forall|i: int|
        0 <= i < a.len() ==> (#[trigger] a[i]).0 == b[i].0 && field_equiv(a[i].1, b[i].1)
}

pub proof fn lemma_field_equiv_trans(a: JField, b: JField, c: JField)
    requires
        field_equiv(a, b),
        field_equiv(b, c),
    ensures
        field_equiv(a, c),
{
}

/// An exact copy of a leaf.
pub fn copy_leaf(l: &JLeaf) -> (r: JLeaf)
    ensures
        r == *l,
{
    match l {
        JLeaf::Null => JLeaf::Null,
        JLeaf::Bool(b) => JLeaf::Bool(*b),
        JLeaf::Int(n) => JLeaf::Int(*n),
        JLeaf::Str(s) => JLeaf::Str(s.clone()),
        JLeaf::Raw(s) => JLeaf::Raw(s.clone()),
    }
}

/// A copy of an object, entry for entry.
pub fn copy_obj(o: &JObj) -> (r: JObj)
    ensures
        r.entries@ == o.entries@,
{
    let mut entries: Vec<(String, JLeaf)> = Vec::new();
    let mut i: usize = 0;
    while i < o.entries.len()
        invariant
            0 <= i <= o.entries.len(),
            entries@ =~= o.entries@.take(i as int),
        decreases o.entries.len() - i,
    {
        let (k, v) = &o.entries[i];
        entries.push((k.clone(), copy_leaf(v)));
        i += 1;
    }
    assert(entries@ =~= o.entries@);
    JObj { entries }
}

/// A copy of a field, holding the same data.
pub fn copy_field(f: &JField) -> (r: JField)
    ensures
        field_equiv(r, *f),
{
    match f {
        JField::Leaf(l) => JField::Leaf(copy_leaf(l)),
        JField::Objs(v) => {
            let mut objs: Vec<JObj> = Vec::new();
            let mut i: usize = 0;
            while i < v.len()
                invariant
                    0 <= i <= v.len(),
                    objs@.len() == i,
                    forall|j: int| 0 <= j < i ==> (#[trigger] objs@[j]).entries@ == v@[j].entries@,
                decreases v.len() - i,
            {
                objs.push(copy_obj(&v[i]));
                i += 1;
            }
            JField::Objs(objs)
        },
    }
}

/// Finds the first occurrence of `key` in a document's fields.
pub fn doc_get<'a>(entries: &'a Vec<(String, JField)>, key: &str) -> (r: Option<&'a JField>)
    ensures
        match r {
            Some(f) => doc_lookup(entries@, key@) == Some(*f),
            None => doc_lookup(entries@, key@) is None,
        },
{
    let mut i: usize = 0;
    proof {
        assert(entries@.skip(0) =~= entries@);
    }
    while i < entries.len()
        invariant
            0 <= i <= entries.len(),
            doc_lookup(entries@, key@) == doc_lookup(entries@.skip(i as int), key@),
        decreases entries.len() - i,
    {
        proof {
            let s = entries@.skip(i as int);
            assert(s.len() > 0);
            assert(s[0] == entries@[i as int]);
            assert(s.drop_first() =~= entries@.skip(i as int + 1));
        }
        if crate::strutil::str_eq(entries[i].0.as_str(), key) {
            return Some(&entries[i].1);
        }
        i += 1;
    }
    proof {
        assert(entries@.skip(entries@.len() as int) =~= Seq::<(String, JField)>::empty());
    }
    None
}

/// Finds the first occurrence of `key` in an object's entries.
pub fn obj_get<'a>(entries: &'a Vec<(String, JLeaf)>, key: &str) -> (r: Option<&'a JLeaf>)
    ensures
        match r {
            Some(l) => obj_lookup(entries@, key@) == Some(*l),
            None => obj_lookup(entries@, key@) is None,
        },
{
    let mut i: usize = 0;
    proof {
        assert(entries@.skip(0) =~= entries@);
    }
    while i < entries.len()
        invariant
            0 <= i <= entries.len(),
            obj_lookup(entries@, key@) == obj_lookup(entries@.skip(i as int), key@),
        decreases entries.len() - i,
    {
        proof {
            let s = entries@.skip(i as int);
            assert(s.len() > 0);
            assert(s[0] == entries@[i as int]);
            assert(s.drop_first() =~= entries@.skip(i as int + 1));
        }
        if crate::strutil::str_eq(entries[i].0.as_str(), key) {
            return Some(&entries[i].1);
        }
        i += 1;
    }
    proof {
        assert(entries@.skip(entries@.len() as int) =~= Seq::<(String, JLeaf)>::empty());
    }
    None
}

} // verus!
