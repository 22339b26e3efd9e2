//! Records whose columns are addressed by name: the row is walked once, each
//! column is matched against the names that the record asks for, and the
//! record's fields are then read from the columns found.

use vstd::prelude::*;
use crate::backend::Backend;
use crate::codec::str_eq;
use crate::deserialize::{outcome, DeserializeError, DeserializeFault, FromSql, Outcome, Result};
use crate::row::{Field, FieldView, Row};

verus! {

/// The names that a record asks for, as texts.
pub open spec fn names(targets: Seq<&str>) -> Seq<Seq<char>> {
    Seq::new(targets.len(), |i: int| targets[i]@)
}

/// The first of `targets` from `from` on that is `name`.
pub open spec fn first_from(targets: Seq<Seq<char>>, name: Seq<char>, from: int) -> Option<int>
    decreases targets.len() - from,
{
    if from < 0 || from >= targets.len() {
        None
    } else if targets[from] == name {
        Some(from)
    } else {
        first_from(targets, name, from + 1)
    }
}

/// The target that a column called `name` fills: the first one of that name.
/// A column without a name fills none.
pub open spec fn target_of(name: Option<Seq<char>>, targets: Seq<Seq<char>>) -> Option<int> {
    match name {
        Some(n) => first_from(targets, n, 0),
        None => None,
    }
}

/// For each target, the index of the column that fills it once the first `k`
/// of `fields` have been looked at: the last of them that fills it.
pub open spec fn filled<DB: Backend>(
    fields: Seq<FieldView<DB>>,
    targets: Seq<Seq<char>>,
    k: int,
) -> Seq<Option<int>>
    decreases k,
{
    if k <= 0 {
        Seq::new(targets.len(), |i: int| None)
    } else {
        let before = filled(fields, targets, k - 1);
        match target_of(fields[k - 1].name, targets) {
            Some(i) => before.update(i, Some(k - 1)),
            None => before,
        }
    }
}

/// Every target is filled.
pub open spec fn complete(slots: Seq<Option<int>>) -> bool {
    forall|i: int| 0 <= i < slots.len() ==> (#[trigger] slots[i]) is Some
}

/// Where the walk that has looked at the first `k` of `fields` ends: at the
/// first point from there on where every target is filled, else at the end
/// of the row.
pub open spec fn walk_end<DB: Backend>(
    fields: Seq<FieldView<DB>>,
    targets: Seq<Seq<char>>,
    k: int,
) -> int
    decreases fields.len() - k,
{
    if k < 0 || k >= fields.len() || complete(filled(fields, targets, k)) {
        k
    } else {
        walk_end(fields, targets, k + 1)
    }
}

/// The column that a yielded field shows, if one was yielded.
pub open spec fn shown<'a, DB: Backend, F: Field<'a, DB>>(field: Option<F>) -> Option<
    FieldView<DB>,
> {
    match field {
        Some(f) => Some(f.column()),
        None => None,
    }
}

/// The column of `fields` that a slot points at, if it points at one.
pub open spec fn slot_field<DB: Backend>(fields: Seq<FieldView<DB>>, slot: Option<int>) -> Option<
    FieldView<DB>,
> {
    match slot {
        Some(j) => Some(fields[j]),
        None => None,
    }
}

/// The walk ends inside the row, and only where every target is filled or
/// the row is exhausted.
pub proof fn lemma_walk_end<DB: Backend>(fields: Seq<FieldView<DB>>, targets: Seq<Seq<char>>, k: int)
    requires
        0 <= k <= fields.len(),
    ensures
        k <= walk_end(fields, targets, k) <= fields.len(),
        walk_end(fields, targets, k) == fields.len() || complete(
            filled(fields, targets, walk_end(fields, targets, k)),
        ),
        forall|m: int|
            k <= m < walk_end(fields, targets, k) ==> !complete(#[trigger] filled(fields, targets, m)),
    decreases fields.len() - k,
{
    if k < fields.len() && !complete(filled(fields, targets, k)) {
        lemma_walk_end(fields, targets, k + 1);
    }
}

/// What a filled slot means: the column it points at is among those looked
/// at, it is called as the target, no earlier target has that name, and no
/// later column looked at fills the same target. An empty slot means that no
/// column looked at fills the target.
pub proof fn lemma_filled<DB: Backend>(fields: Seq<FieldView<DB>>, targets: Seq<Seq<char>>, k: int)
    requires
        0 <= k <= fields.len(),
    ensures
        filled(fields, targets, k).len() == targets.len(),
        forall|i: int|
            0 <= i < targets.len() && (#[trigger] filled(fields, targets, k)[i]) is Some ==> {
                let j = filled(fields, targets, k)[i].unwrap();
                0 <= j < k && target_of(fields[j].name, targets) == Some(i)
            },
        forall|i: int, later: int|
            #![trigger filled(fields, targets, k)[i], fields[later]]
            0 <= i < targets.len() && filled(fields, targets, k)[i] is Some && filled(
                fields,
                targets,
                k,
            )[i].unwrap() < later < k ==> target_of(fields[later].name, targets) != Some(i),
        forall|i: int, j: int|
            #![trigger filled(fields, targets, k)[i], fields[j]]
            0 <= i < targets.len() && filled(fields, targets, k)[i] is None && 0 <= j < k
                ==> target_of(fields[j].name, targets) != Some(i),
    decreases k,
{
    if k > 0 {
        lemma_filled(fields, targets, k - 1);
        match target_of(fields[k - 1].name, targets) {
            Some(i) => {
                lemma_first_from(targets, fields[k - 1].name.unwrap(), 0);
            },
            None => {},
        }
    }
}

/// What `first_from` finds: the first target from `from` on of that name,
/// or nothing where none has it.
pub proof fn lemma_first_from(targets: Seq<Seq<char>>, name: Seq<char>, from: int)
    requires
        0 <= from,
    ensures
        match first_from(targets, name, from) {
            Some(i) => from <= i < targets.len() && targets[i] == name && forall|j: int|
                from <= j < i ==> targets[j] != name,
            None => forall|j: int| from <= j < targets.len() ==> targets[j] != name,
        },
    decreases targets.len() - from,
{
    if from < targets.len() && targets[from] != name {
        lemma_first_from(targets, name, from + 1);
    }
}

/// The index of the first of `targets` that is `name`.
pub fn position(targets: &[&str], name: &str) -> (index: Option<usize>)
    ensures
        match index {
            Some(i) => i < targets@.len() && first_from(names(targets@), name@, 0) == Some(
                i as int,
            ),
            None => first_from(names(targets@), name@, 0) is None,
        },
{
    let mut i: usize = 0;
    while i < targets.len()
        invariant
            i <= targets@.len(),
            first_from(names(targets@), name@, 0) == first_from(names(targets@), name@, i as int),
        decreases targets@.len() - i,
    {
        if str_eq(targets[i], name) {
            return Some(i);
        }
        i += 1;
    }
    None
}

/// Whether every slot holds a field.
fn all_found<F>(found: &Vec<Option<F>>) -> (all: bool)
    ensures
        all == forall|i: int| 0 <= i < found@.len() ==> (#[trigger] found@[i]) is Some,
{
    let mut i: usize = 0;
    while i < found.len()
        invariant
            i <= found@.len(),
            forall|k: int| 0 <= k < i ==> (#[trigger] found@[k]) is Some,
        decreases found@.len() - i,
    {
        if found[i].is_none() {
            return false;
        }
        i += 1;
    }
    true
}

/// Walks `row` and finds, for each of `targets`, the column that fills it.
///
/// A column fills the first target of its name; a column of another name, or
/// of none, is passed over. Where several columns fill one target, the last
/// one looked at stays. The walk stops as soon as every target is filled, and
/// leaves the cursor behind the last column it looked at.
pub fn find_columns<'a, DB: Backend, R: Row<'a, DB>>(row: &mut R, targets: &[&str]) -> (found: Vec<
    Option<R::Item>,
>)
    ensures
        found@.len() == targets@.len(),
        final(row).remaining() == old(row).remaining().skip(
            walk_end(old(row).remaining(), names(targets@), 0),
        ),
        forall|i: int|
            0 <= i < targets@.len() ==> shown::<DB, R::Item>(#[trigger] found@[i]) == slot_field(
                old(row).remaining(),
                filled(
                    old(row).remaining(),
                    names(targets@),
                    walk_end(old(row).remaining(), names(targets@), 0),
                )[i],
            ),
{
    let ghost fields = row.remaining();
    let ghost wanted = names(targets@);
    let mut found: Vec<Option<R::Item>> = Vec::new();
    let mut n: usize = 0;
    while n < targets.len()
        invariant
            n <= targets@.len(),
            found@.len() == n,
            forall|i: int| 0 <= i < n ==> (#[trigger] found@[i]) is None,
        decreases targets@.len() - n,
    {
        found.push(None);
        n += 1;
    }
    let ghost mut k: int = 0;
    assert(row.remaining() =~= fields.skip(0));
    loop
        invariant
            fields == old(row).remaining(),
            wanted == names(targets@),
            0 <= k <= fields.len(),
            row.remaining() == fields.skip(k),
            walk_end(fields, wanted, 0) == walk_end(fields, wanted, k),
            found@.len() == targets@.len(),
            forall|i: int|
                0 <= i < targets@.len() ==> shown::<DB, R::Item>(#[trigger] found@[i])
                    == slot_field(fields, filled(fields, wanted, k)[i]),
        ensures
            0 <= k <= fields.len(),
            row.remaining() == fields.skip(k),
            walk_end(fields, wanted, 0) == k,
            found@.len() == targets@.len(),
            forall|i: int|
                0 <= i < targets@.len() ==> shown::<DB, R::Item>(#[trigger] found@[i])
                    == slot_field(fields, filled(fields, wanted, k)[i]),
        decreases fields.len() - k,
    {
        proof {
            lemma_filled(fields, wanted, k);
        }
        if all_found(&found) {
            assert(complete(filled(fields, wanted, k))) by {
                assert forall|i: int| 0 <= i < filled(fields, wanted, k).len() implies (
                #[trigger] filled(fields, wanted, k)[i]) is Some by {
                    assert(found@[i] is Some);
                }
            }
            break ;
        }
        assert(!complete(filled(fields, wanted, k))) by {
            let i = choose|i: int| 0 <= i < found@.len() && !((#[trigger] found@[i]) is Some);
            assert(found@[i] is None);
            assert(filled(fields, wanted, k)[i] is None);
        }
        match row.next() {
            None => {
                break ;
            },
            Some(field) => {
                let slot = match field.column_name() {
                    Some(name) => position(targets, name),
                    None => None,
                };
                assert(field.column() == fields[k]);
                let ghost before = filled(fields, wanted, k);
                let ghost hit = target_of(fields[k].name, wanted);
                assert(filled(fields, wanted, k + 1) == match hit {
                    Some(i) => before.update(i, Some(k)),
                    None => before,
                });
                match slot {
                    Some(i) => {
                        assert(hit == Some(i as int));
                        found.set(i, Some(field));
                    },
                    None => {
                        assert(hit is None);
                    },
                }
                proof {
                    assert(row.remaining() =~= fields.skip(k + 1));
                    k = k + 1;
                }
            },
        }
    }
    found
}

/// `check`, asked whether the column `column` can fill target `target`, can
/// answer `output`.
pub open spec fn checked<'a, DB: Backend, I: Field<'a, DB>, F: Fn(usize, &I) -> Result<()>>(
    check: F,
    target: usize,
    column: FieldView<DB>,
    output: Result<()>,
) -> bool {
    exists|field: I| field.column() == column && #[trigger] call_ensures(check, (target, &field), output)
}

/// `check` can accept column `m` of `fields`, or the column fills no target.
pub open spec fn passes_at<'a, DB: Backend, I: Field<'a, DB>, F: Fn(usize, &I) -> Result<()>>(
    check: F,
    fields: Seq<FieldView<DB>>,
    targets: Seq<Seq<char>>,
    m: int,
) -> bool {
    target_of(fields[m].name, targets) matches Some(i) ==> exists|output: Result<()>|
        output is Ok && #[trigger] checked::<DB, I, F>(check, i as usize, fields[m], output)
}

/// The checked walk over `fields` was stopped by column `k`: `check` can
/// accept every column before it that fills a target, and can refuse column
/// `k`, which fills one, with `error`; the walk had not ended before.
pub open spec fn stopped_by<'a, DB: Backend, I: Field<'a, DB>, F: Fn(usize, &I) -> Result<()>>(
    check: F,
    fields: Seq<FieldView<DB>>,
    targets: Seq<Seq<char>>,
    k: int,
    error: DeserializeError,
) -> bool {
    &&& 0 <= k < walk_end(fields, targets, 0)
    &&& forall|m: int| 0 <= m < k ==> #[trigger] passes_at::<DB, I, F>(check, fields, targets, m)
    &&& target_of(fields[k].name, targets) matches Some(i) && checked::<DB, I, F>(
        check,
        i as usize,
        fields[k],
        Err(error),
    )
}

/// Walks `row` as `find_columns` does and has each column that fills a
/// target checked as it is met, in the order of the columns. The first
/// column that `check` refuses ends the walk with the error of `check`, and
/// the cursor is left behind that column; a walk that nothing ends so is
/// that of `find_columns`.
pub fn find_columns_checked<'a, DB: Backend, R: Row<'a, DB>, F>(
    row: &mut R,
    targets: &[&str],
    check: F,
) -> (result: Result<Vec<Option<R::Item>>>) where F: Fn(usize, &R::Item) -> Result<()>
    requires
        forall|target: usize, field: R::Item| #[trigger] call_requires(check, (target, &field)),
    ensures
        match result {
            Ok(found) => {
                &&& found@.len() == targets@.len()
                &&& final(row).remaining() == old(row).remaining().skip(
                    walk_end(old(row).remaining(), names(targets@), 0),
                )
                &&& forall|i: int|
                    0 <= i < targets@.len() ==> shown::<DB, R::Item>(#[trigger] found@[i])
                        == slot_field(
                        old(row).remaining(),
                        filled(
                            old(row).remaining(),
                            names(targets@),
                            walk_end(old(row).remaining(), names(targets@), 0),
                        )[i],
                    )
                &&& forall|m: int|
                    0 <= m < walk_end(old(row).remaining(), names(targets@), 0)
                        ==> #[trigger] passes_at::<DB, R::Item, F>(
                        check,
                        old(row).remaining(),
                        names(targets@),
                        m,
                    )
            },
            Err(error) => exists|k: int|
                #[trigger] stopped_by::<DB, R::Item, F>(
                    check,
                    old(row).remaining(),
                    names(targets@),
                    k,
                    error,
                ) && final(row).remaining() == old(row).remaining().skip(k + 1),
        },
{
    let ghost fields = row.remaining();
    let ghost wanted = names(targets@);
    let mut found: Vec<Option<R::Item>> = Vec::new();
    let mut n: usize = 0;
    while n < targets.len()
        invariant
            n <= targets@.len(),
            found@.len() == n,
            forall|i: int| 0 <= i < n ==> (#[trigger] found@[i]) is None,
        decreases targets@.len() - n,
    {
        found.push(None);
        n += 1;
    }
    let ghost mut k: int = 0;
    assert(row.remaining() =~= fields.skip(0));
    loop
        invariant
            forall|target: usize, field: R::Item| #[trigger] call_requires(check, (target, &field)),
            fields == old(row).remaining(),
            wanted == names(targets@),
            0 <= k <= fields.len(),
            row.remaining() == fields.skip(k),
            walk_end(fields, wanted, 0) == walk_end(fields, wanted, k),
            found@.len() == targets@.len(),
            forall|i: int|
                0 <= i < targets@.len() ==> shown::<DB, R::Item>(#[trigger] found@[i])
                    == slot_field(fields, filled(fields, wanted, k)[i]),
            forall|m: int|
                0 <= m < k ==> #[trigger] passes_at::<DB, R::Item, F>(check, fields, wanted, m),
        ensures
            0 <= k <= fields.len(),
            row.remaining() == fields.skip(k),
            walk_end(fields, wanted, 0) == k,
            found@.len() == targets@.len(),
            forall|i: int|
                0 <= i < targets@.len() ==> shown::<DB, R::Item>(#[trigger] found@[i])
                    == slot_field(fields, filled(fields, wanted, k)[i]),
            forall|m: int|
                0 <= m < k ==> #[trigger] passes_at::<DB, R::Item, F>(check, fields, wanted, m),
        decreases fields.len() - k,
    {
        proof {
            lemma_filled(fields, wanted, k);
        }
        if all_found(&found) {
            assert(complete(filled(fields, wanted, k))) by {
                assert forall|i: int| 0 <= i < filled(fields, wanted, k).len() implies (
                #[trigger] filled(fields, wanted, k)[i]) is Some by {
                    assert(found@[i] is Some);
                }
            }
            break ;
        }
        assert(!complete(filled(fields, wanted, k))) by {
            let i = choose|i: int| 0 <= i < found@.len() && !((#[trigger] found@[i]) is Some);
            assert(found@[i] is None);
            assert(filled(fields, wanted, k)[i] is None);
        }
        match row.next() {
            None => {
                break ;
            },
            Some(field) => {
                let slot = match field.column_name() {
                    Some(name) => position(targets, name),
                    None => None,
                };
                assert(field.column() == fields[k]);
                let ghost before = filled(fields, wanted, k);
                let ghost hit = target_of(fields[k].name, wanted);
                assert(filled(fields, wanted, k + 1) == match hit {
                    Some(i) => before.update(i, Some(k)),
                    None => before,
                });
                proof {
                    lemma_walk_end(fields, wanted, 0);
                    assert(row.remaining() =~= fields.skip(k + 1));
                }
                match slot {
                    Some(i) => {
                        assert(hit == Some(i as int));
                        assert(call_requires(check, (i, &field)));
                        let answer = check(i, &field);
                        assert(call_ensures(check, (i, &field), answer));
                        assert(checked::<DB, R::Item, F>(check, i, fields[k], answer));
                        match answer {
                            Ok(_) => {
                                assert(target_of(fields[k].name, wanted) == Some(i as int));
                                assert((i as int) as usize == i);
                                assert(answer is Ok && checked::<DB, R::Item, F>(
                                    check,
                                    (i as int) as usize,
                                    fields[k],
                                    answer,
                                ));
                                assert(passes_at::<DB, R::Item, F>(check, fields, wanted, k));
                            },
                            Err(error) => {
                                assert(k < walk_end(fields, wanted, 0)) by {
                                    lemma_walk_end(fields, wanted, k);
                                }
                                assert(stopped_by::<DB, R::Item, F>(
                                    check,
                                    fields,
                                    wanted,
                                    k,
                                    error,
                                ));
                                return Err(error);
                            },
                        }
                        found.set(i, Some(field));
                    },
                    None => {
                        assert(hit is None);
                        assert(passes_at::<DB, R::Item, F>(check, fields, wanted, k));
                    },
                }
                proof {
                    k = k + 1;
                }
            },
        }
    }
    Ok(found)
}

/// What a column decodes to as a value of type `T`.
pub open spec fn column_built<ST, DB: Backend, T: FromSql<ST, DB>>(
    column: FieldView<DB>,
) -> Outcome<T::V> {
    match column.value {
        Some(raw) => T::decode(raw),
        None => T::decode_null(),
    }
}

/// What a field of a record is read as from the column found for it: the
/// decoded column, or the error that no column of that name is in the row.
pub open spec fn named_built<ST, DB: Backend, T: FromSql<ST, DB>>(
    found: Option<FieldView<DB>>,
    column: Seq<char>,
) -> Outcome<T::V> {
    match found {
        Some(field) => column_built::<ST, DB, T>(field),
        None => Err(DeserializeFault::MissingColumn(column)),
    }
}

/// Checks that a column decodes as a value of type `T`; the error is that
/// of the decoding.
pub fn check_value<'a, ST, DB: Backend, T: FromSql<ST, DB>, F: Field<'a, DB>>(field: &F) -> (result:
    Result<()>)
    ensures
        match column_built::<ST, DB, T>(field.column()) {
            Ok(_) => result is Ok,
            Err(fault) => result matches Err(error) && error@ == fault,
        },
{
    match T::from_nullable_sql(field.value()) {
        Ok(_) => Ok(()),
        Err(error) => Err(error),
    }
}

/// Reads one field of a record from the column found for it. Where none was
/// found the error names `column`.
pub fn named_value<'a, ST, DB: Backend, T: FromSql<ST, DB>, F: Field<'a, DB>>(
    found: &Option<F>,
    column: &str,
) -> (result: Result<T>)
    ensures
        outcome(result) == named_built::<ST, DB, T>(shown::<DB, F>(*found), column@),
{
    match found {
        Some(field) => T::from_nullable_sql(field.value()),
        None => Err(DeserializeError::MissingColumn(column.to_owned())),
    }
}

} // verus!
