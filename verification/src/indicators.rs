//! The bookkeeping of indicator columns that read a named sub-output of a
//! multi-output indicator: which output a bar's value comes from, and the test,
//! after a full pass, that a requested output ever existed.

use vstd::prelude::*;
use crate::error::Error;

verus! {

/// One indicator column: its canonical key, the sub-output it reads (the
/// primary output when `None`), whether the indicator ever exposed named
/// outputs and whether the requested one was ever among them.
pub struct FieldWatch {
    key: String,
    field: Option<String>,
    saw_fields: bool,
    field_found: bool,
}

/// The abstract state of a [`FieldWatch`].
pub ghost struct FieldWatchView {
    pub key: Seq<char>,
    pub field: Option<Seq<char>>,
    pub saw_fields: bool,
    pub field_found: bool,
}

impl View for FieldWatch {
    type V = FieldWatchView;

    closed spec fn view(&self) -> FieldWatchView {
        FieldWatchView {
            key: self.key@,
            field: match &self.field {
                Some(f) => Some(f@),
                None => None,
            },
            saw_fields: self.saw_fields,
            field_found: self.field_found,
        }
    }
}

/// Where one bar's value of an indicator column comes from.
#[derive(Clone, Copy, Debug, PartialEq, Eq, Structural)]
pub enum Reading {
    /// The indicator's primary output (no sub-output requested).
    Primary,
    /// The named output at this position of the bar's outputs.
    Output(usize),
    /// The requested output is not among the bar's outputs: the value is `0.0`.
    Absent,
}

/// The first position of `name` among `names`, if any.
pub open spec fn first_index(names: Seq<Seq<char>>, name: Seq<char>) -> Option<nat>
    decreases names.len(),
{
    if names.len() == 0 {
        None
    } else {
        match first_index(names.drop_last(), name) {
            Some(i) => Some(i),
            None => if names.last() == name {
                Some((names.len() - 1) as nat)
            } else {
                None
            },
        }
    }
}

/// `first_index` finds the earliest occurrence: when it answers `j`, `names[j]`
/// is the name and no earlier entry is; it answers nothing exactly when no
/// entry is the name.
pub proof fn law_first_index(names: Seq<Seq<char>>, name: Seq<char>)
    ensures
        first_index(names, name) matches Some(j) ==> j < names.len() && names[j as int] == name
            && forall|k: int| 0 <= k < j ==> names[k] != name,
        first_index(names, name) is None <==> forall|k: int| 0 <= k < names.len() ==> names[k] != name,
    decreases names.len(),
{
    if names.len() > 0 {
        let front = names.drop_last();
        law_first_index(front, name);
        assert forall|k: int| 0 <= k < front.len() implies front[k] == names[k] by {}
        if first_index(front, name) is None && names.last() != name {
            assert forall|k: int| 0 <= k < names.len() implies names[k] != name by {
                if k < front.len() {
                    assert(front[k] == names[k]);
                }
            }
        }
    }
}

/// The views of a list of names.
pub open spec fn name_views(names: Seq<&str>) -> Seq<Seq<char>> {
    names.map_values(|s: &str| s@)
}

/// `r` is the refusal of column `key` for lacking output `field`.
pub open spec fn is_missing_field(r: Result<(), Error>, key: Seq<char>, field: Seq<char>) -> bool {
    r matches Err(Error::BadSpec(m)) && m@ == "indicator '"@ + key + "' has no output field '"@
        + field + seq!['\'']
}

impl FieldWatchView {
    /// The column requested an output the indicator exposed named outputs
    /// without ever naming.
    pub open spec fn field_missing(self) -> bool {
        self.field is Some && self.saw_fields && !self.field_found
    }
}

impl FieldWatch {
    /// A fresh watch for the column `key` reading `field`.
    pub fn new(key: String, field: Option<String>) -> (w: FieldWatch)
        ensures
            w@.key == key@,
            w@.field == match field {
                Some(f) => Some(f@),
                None => None::<Seq<char>>,
            },
            !w@.saw_fields,
            !w@.field_found,
    {
        FieldWatch { key, field, saw_fields: false, field_found: false }
    }

    /// The column's key.
    pub fn key(&self) -> (k: &String)
        ensures
            k@ == self@.key,
    {
        &self.key
    }

    /// One bar's named outputs: where the column's value comes from. A column
    /// without a requested output reads the primary one; otherwise the first
    /// output of that name, or nothing. Records that named outputs were seen,
    /// and whether the requested one was found.
    pub fn select(&mut self, names: &[&str]) -> (r: Reading)
        ensures
            final(self)@.key == old(self)@.key,
            final(self)@.field == old(self)@.field,
            old(self)@.field is None ==> r == Reading::Primary && final(self)@ == old(self)@,
            old(self)@.field matches Some(f) ==> ({
                &&& r == match first_index(name_views(names@), f) {
                    Some(i) => Reading::Output(i as usize),
                    None => Reading::Absent,
                }
                &&& final(self)@.saw_fields == (old(self)@.saw_fields || names@.len() > 0)
                &&& final(self)@.field_found == (old(self)@.field_found || r is Output)
                &&& r matches Reading::Output(j) ==> j < names@.len() && names@[j as int]@ == f
                    && forall|k: int| 0 <= k < j ==> names@[k]@ != f
                &&& r is Absent <==> forall|k: int| 0 <= k < names@.len() ==> names@[k]@ != f
            }),
    {
        match &self.field {
            None => Reading::Primary,
            Some(f) => {
                if names.len() > 0 {
                    self.saw_fields = true;
                }
                let mut i: usize = 0;
                let mut found: Option<usize> = None;
                while i < names.len()
                    invariant
                        i <= names@.len(),
                        found == match first_index(name_views(names@.take(i as int)), f@) {
                            Some(j) => Some(j as usize),
                            None => None::<usize>,
                        },
                        found matches Some(j) ==> j < i,
                    decreases names.len() - i,
                {
                    proof {
                        assert(name_views(names@.take(i as int + 1)).drop_last() =~= name_views(
                            names@.take(i as int),
                        ));
                        assert(name_views(names@.take(i as int + 1)).last() == names@[i as int]@);
                    }
                    if found.is_none() && crate::feeds::str_eq(names[i], f.as_str()) {
                        found = Some(i);
                    }
                    i = i + 1;
                }
                proof {
                    assert(names@.take(names@.len() as int) =~= names@);
                    law_first_index(name_views(names@), f@);
                    assert(name_views(names@).len() == names@.len());
                }
                match found {
                    Some(j) => {
                        proof {
                            assert forall|k: int| 0 <= k < j implies names@[k]@ != f@ by {
                                assert(name_views(names@)[k] == names@[k]@);
                            }
                        }
                        self.field_found = true;
                        Reading::Output(j)
                    },
                    None => {
                        proof {
                            assert forall|k: int| 0 <= k < names@.len() implies names@[k]@ != f@ by {
                                assert(name_views(names@)[k] == names@[k]@);
                            }
                        }
                        Reading::Absent
                    },
                }
            },
        }
    }

    /// After a full pass: refuse a column whose indicator exposed named
    /// outputs but never the requested one.
    pub fn check(&self) -> (r: Result<(), Error>)
        ensures
            self@.field_missing() ==> is_missing_field(r, self@.key, self@.field->0),
            !self@.field_missing() ==> r is Ok,
    {
        match &self.field {
            Some(f) => {
                if self.saw_fields && !self.field_found {
                    let mut m = String::from_str("indicator '");
                    m.append(self.key.as_str());
                    m.append("' has no output field '");
                    m.append(f.as_str());
                    m.push('\'');
                    assert(m@ =~= "indicator '"@ + self@.key + "' has no output field '"@ + f@
                        + seq!['\'']);
                    return Err(Error::BadSpec(m));
                }
                Ok(())
            },
            None => Ok(()),
        }
    }
}

/// Verify every requested sub-output exists: the first column, in order, whose
/// indicator exposed named outputs but never the requested one is refused.
pub fn validate_fields(watches: &[FieldWatch]) -> (r: Result<(), Error>)
    ensures
        r is Ok <==> forall|i: int| 0 <= i < watches@.len() ==> !(#[trigger] watches@[i])@.field_missing(),
        r is Err ==> exists|i: int|
            0 <= i < watches@.len() && (forall|j: int|
                0 <= j < i ==> !(#[trigger] watches@[j])@.field_missing()) && (#[trigger] watches@[i])@.field_missing()
                && is_missing_field(r, watches@[i]@.key, watches@[i]@.field->0),
{
    let mut i: usize = 0;
    while i < watches.len()
        invariant
            i <= watches@.len(),
            forall|j: int| 0 <= j < i ==> !(#[trigger] watches@[j])@.field_missing(),
        decreases watches.len() - i,
    {
        let r = watches[i].check();
        if r.is_err() {
            return r;
        }
        i = i + 1;
    }
    Ok(())
}

} // verus!
