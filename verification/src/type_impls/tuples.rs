//! Tuples as records: the elements are built left to right from the same
//! cursor, each from the columns that the ones before it left.

use vstd::prelude::*;
use crate::backend::{Backend, HasRowMetadata};
use crate::deserialize::{FromSqlRow, Outcome, Result, StaticallySizedRow};
use crate::row::{FieldView, Row};
use crate::sql_types::Typed;

verus! {

impl<A, SA, DB> FromSqlRow<Typed<(SA,)>, DB> for (A,) where
    DB: Backend,
    A: FromSqlRow<SA, DB>,
 {
    /// The elements in order, each built from what the ones before it left;
    /// the first failure is the tuple's.
    open spec fn built(fields: Seq<FieldView<DB>>) -> Outcome<(A::V,)> {
        let at_a = fields;
        match A::built(at_a) {
            Err(fault) => Err(fault),
            Ok(a) => Ok((a,)),
        }
    }

    /// What the elements moved past, up to and with the first that failed.
    open spec fn consumed(fields: Seq<FieldView<DB>>) -> nat {
        let at_a = fields;
        A::consumed(at_a)
    }

    /// A tuple is null as soon as one of its elements is.
    open spec fn null_in(fields: Seq<FieldView<DB>>) -> bool {
        let at_a = fields;
        A::null_in(at_a)
    }

    open spec fn probed(fields: Seq<FieldView<DB>>) -> nat {
        let at_a = fields;
        A::probed(at_a)
    }

    proof fn lemma_within_row(fields: Seq<FieldView<DB>>) {
        let at_a = fields;
        A::lemma_within_row(at_a);
    }

    fn build_from_row<'a, R: Row<'a, DB>>(row: &mut R) -> (result: Result<Self>) {
        let a = match A::build_from_row(row) {
            Ok(value) => value,
            Err(error) => {
                return Err(error);
            },
        };
        Ok((a,))
    }

    fn is_null<'a, R: Row<'a, DB>>(row: &mut R) -> (null: bool) {
        let null_a = A::is_null(row);
        null_a
    }
}

impl<A, SA, DB> StaticallySizedRow<Typed<(SA,)>, DB> for (A,) where
    DB: Backend,
    A: StaticallySizedRow<SA, DB>,
 {
    const FIELD_COUNT: usize = A::FIELD_COUNT + 0;

    /// The sum of the elements' field counts.
    open spec fn field_count() -> nat {
        A::field_count()
    }

    proof fn lemma_field_count() {
        A::lemma_field_count();
    }

    proof fn lemma_fixed_width(fields: Seq<FieldView<DB>>) {
        let at_a = fields;
        A::lemma_within_row(at_a);
        A::lemma_fixed_width(at_a);
    }
}

impl<A, B, SA, SB, DB> FromSqlRow<Typed<(SA, SB)>, DB> for (A, B) where
    DB: Backend,
    A: FromSqlRow<SA, DB> + StaticallySizedRow<SA, DB>,
    B: FromSqlRow<SB, DB>,
 {
    /// The elements in order, each built from what the ones before it left;
    /// the first failure is the tuple's.
    open spec fn built(fields: Seq<FieldView<DB>>) -> Outcome<(A::V, B::V)> {
        let at_a = fields;
        let at_b = at_a.skip(A::consumed(at_a) as int);
        match A::built(at_a) {
            Err(fault) => Err(fault),
            Ok(a) => match B::built(at_b) {
                Err(fault) => Err(fault),
                Ok(b) => Ok((a, b)),
            },
        }
    }

    /// What the elements moved past, up to and with the first that failed.
    open spec fn consumed(fields: Seq<FieldView<DB>>) -> nat {
        let at_a = fields;
        let at_b = at_a.skip(A::consumed(at_a) as int);
        if A::built(at_a) is Err {
            A::consumed(at_a)
        } else {
            A::consumed(at_a) + B::consumed(at_b)
        }
    }

    /// A tuple is null as soon as one of its elements is.
    open spec fn null_in(fields: Seq<FieldView<DB>>) -> bool {
        let at_a = fields;
        let at_b = at_a.skip(A::probed(at_a) as int);
        A::null_in(at_a) || B::null_in(at_b)
    }

    open spec fn probed(fields: Seq<FieldView<DB>>) -> nat {
        let at_a = fields;
        let at_b = at_a.skip(A::probed(at_a) as int);
        A::probed(at_a) + B::probed(at_b)
    }

    proof fn lemma_within_row(fields: Seq<FieldView<DB>>) {
        let at_a = fields;
        let in_a = fields;
        A::lemma_within_row(at_a);
        let at_b = at_a.skip(A::consumed(at_a) as int);
        let in_b = in_a.skip(A::probed(in_a) as int);
        B::lemma_within_row(at_b);
        B::lemma_within_row(in_b);
    }

    fn build_from_row<'a, R: Row<'a, DB>>(row: &mut R) -> (result: Result<Self>) {
        let ghost at_a = row.remaining();
        proof {
            A::lemma_within_row(at_a);
        }
        let a = match A::build_from_row(row) {
            Ok(value) => value,
            Err(error) => {
                return Err(error);
            },
        };
        let ghost at_b = at_a.skip(A::consumed(at_a) as int);
        proof {
            B::lemma_within_row(at_b);
        }
        let b = match B::build_from_row(row) {
            Ok(value) => value,
            Err(error) => {
                assert(row.remaining() == at_a.skip(Self::consumed(at_a) as int));
                return Err(error);
            },
        };
        assert(row.remaining() == at_a.skip((A::consumed(at_a) + B::consumed(at_b)) as int));
        Ok((a, b))
    }

    fn is_null<'a, R: Row<'a, DB>>(row: &mut R) -> (null: bool) {
        let ghost at_a = row.remaining();
        proof {
            A::lemma_within_row(at_a);
        }
        let null_a = A::is_null(row);
        let ghost at_b = at_a.skip(A::probed(at_a) as int);
        proof {
            B::lemma_within_row(at_b);
        }
        let null_b = B::is_null(row);
        assert(row.remaining() == at_a.skip((A::probed(at_a) + B::probed(at_b)) as int));
        null_a || null_b
    }
}

impl<A, B, SA, SB, DB> StaticallySizedRow<Typed<(SA, SB)>, DB> for (A, B) where
    DB: Backend,
    A: StaticallySizedRow<SA, DB>,
    B: StaticallySizedRow<SB, DB>,
 {
    const FIELD_COUNT: usize = A::FIELD_COUNT + B::FIELD_COUNT + 0;

    /// The sum of the elements' field counts.
    open spec fn field_count() -> nat {
        A::field_count() + B::field_count()
    }

    proof fn lemma_field_count() {
        A::lemma_field_count();
        B::lemma_field_count();
    }

    proof fn lemma_fixed_width(fields: Seq<FieldView<DB>>) {
        let at_a = fields;
        let in_a = fields;
        A::lemma_within_row(at_a);
        A::lemma_fixed_width(at_a);
        let at_b = at_a.skip(A::consumed(at_a) as int);
        let in_b = in_a.skip(A::probed(in_a) as int);
        B::lemma_within_row(in_b);
        B::lemma_fixed_width(in_b);
        if A::built(at_a) is Ok {
            B::lemma_within_row(at_b);
            B::lemma_fixed_width(at_b);
        }
    }
}

impl<A, B, C, SA, SB, SC, DB> FromSqlRow<Typed<(SA, SB, SC)>, DB> for (A, B, C) where
    DB: Backend,
    A: FromSqlRow<SA, DB> + StaticallySizedRow<SA, DB>,
    B: FromSqlRow<SB, DB> + StaticallySizedRow<SB, DB>,
    C: FromSqlRow<SC, DB>,
 {
    /// The elements in order, each built from what the ones before it left;
    /// the first failure is the tuple's.
    open spec fn built(fields: Seq<FieldView<DB>>) -> Outcome<(A::V, B::V, C::V)> {
        let at_a = fields;
        let at_b = at_a.skip(A::consumed(at_a) as int);
        let at_c = at_b.skip(B::consumed(at_b) as int);
        match A::built(at_a) {
            Err(fault) => Err(fault),
            Ok(a) => match B::built(at_b) {
                Err(fault) => Err(fault),
                Ok(b) => match C::built(at_c) {
                    Err(fault) => Err(fault),
                    Ok(c) => Ok((a, b, c)),
                },
            },
        }
    }

    /// What the elements moved past, up to and with the first that failed.
    open spec fn consumed(fields: Seq<FieldView<DB>>) -> nat {
        let at_a = fields;
        let at_b = at_a.skip(A::consumed(at_a) as int);
        let at_c = at_b.skip(B::consumed(at_b) as int);
        if A::built(at_a) is Err {
            A::consumed(at_a)
        } else if B::built(at_b) is Err {
            A::consumed(at_a) + B::consumed(at_b)
        } else {
            A::consumed(at_a) + B::consumed(at_b) + C::consumed(at_c)
        }
    }

    /// A tuple is null as soon as one of its elements is.
    open spec fn null_in(fields: Seq<FieldView<DB>>) -> bool {
        let at_a = fields;
        let at_b = at_a.skip(A::probed(at_a) as int);
        let at_c = at_b.skip(B::probed(at_b) as int);
        A::null_in(at_a) || B::null_in(at_b) || C::null_in(at_c)
    }

    open spec fn probed(fields: Seq<FieldView<DB>>) -> nat {
        let at_a = fields;
        let at_b = at_a.skip(A::probed(at_a) as int);
        let at_c = at_b.skip(B::probed(at_b) as int);
        A::probed(at_a) + B::probed(at_b) + C::probed(at_c)
    }

    proof fn lemma_within_row(fields: Seq<FieldView<DB>>) {
        let at_a = fields;
        let in_a = fields;
        A::lemma_within_row(at_a);
        let at_b = at_a.skip(A::consumed(at_a) as int);
        let in_b = in_a.skip(A::probed(in_a) as int);
        B::lemma_within_row(at_b);
        B::lemma_within_row(in_b);
        let at_c = at_b.skip(B::consumed(at_b) as int);
        let in_c = in_b.skip(B::probed(in_b) as int);
        C::lemma_within_row(at_c);
        C::lemma_within_row(in_c);
    }

    fn build_from_row<'a, R: Row<'a, DB>>(row: &mut R) -> (result: Result<Self>) {
        let ghost at_a = row.remaining();
        proof {
            A::lemma_within_row(at_a);
        }
        let a = match A::build_from_row(row) {
            Ok(value) => value,
            Err(error) => {
                return Err(error);
            },
        };
        let ghost at_b = at_a.skip(A::consumed(at_a) as int);
        proof {
            B::lemma_within_row(at_b);
        }
        let b = match B::build_from_row(row) {
            Ok(value) => value,
            Err(error) => {
                assert(row.remaining() == at_a.skip(Self::consumed(at_a) as int));
                return Err(error);
            },
        };
        assert(row.remaining() == at_a.skip((A::consumed(at_a) + B::consumed(at_b)) as int));
        let ghost at_c = at_b.skip(B::consumed(at_b) as int);
        proof {
            C::lemma_within_row(at_c);
        }
        let c = match C::build_from_row(row) {
            Ok(value) => value,
            Err(error) => {
                assert(row.remaining() == at_a.skip(Self::consumed(at_a) as int));
                return Err(error);
            },
        };
        assert(row.remaining() == at_a.skip((A::consumed(at_a) + B::consumed(at_b) + C::consumed(at_c)) as int));
        Ok((a, b, c))
    }

    fn is_null<'a, R: Row<'a, DB>>(row: &mut R) -> (null: bool) {
        let ghost at_a = row.remaining();
        proof {
            A::lemma_within_row(at_a);
        }
        let null_a = A::is_null(row);
        let ghost at_b = at_a.skip(A::probed(at_a) as int);
        proof {
            B::lemma_within_row(at_b);
        }
        let null_b = B::is_null(row);
        assert(row.remaining() == at_a.skip((A::probed(at_a) + B::probed(at_b)) as int));
        let ghost at_c = at_b.skip(B::probed(at_b) as int);
        proof {
            C::lemma_within_row(at_c);
        }
        let null_c = C::is_null(row);
        assert(row.remaining() == at_a.skip((A::probed(at_a) + B::probed(at_b) + C::probed(at_c)) as int));
        null_a || null_b || null_c
    }
}

impl<A, B, C, SA, SB, SC, DB> StaticallySizedRow<Typed<(SA, SB, SC)>, DB> for (A, B, C) where
    DB: Backend,
    A: StaticallySizedRow<SA, DB>,
    B: StaticallySizedRow<SB, DB>,
    C: StaticallySizedRow<SC, DB>,
 {
    const FIELD_COUNT: usize = A::FIELD_COUNT + B::FIELD_COUNT + C::FIELD_COUNT + 0;

    /// The sum of the elements' field counts.
    open spec fn field_count() -> nat {
        A::field_count() + B::field_count() + C::field_count()
    }

    proof fn lemma_field_count() {
        A::lemma_field_count();
        B::lemma_field_count();
        C::lemma_field_count();
    }

    proof fn lemma_fixed_width(fields: Seq<FieldView<DB>>) {
        let at_a = fields;
        let in_a = fields;
        A::lemma_within_row(at_a);
        A::lemma_fixed_width(at_a);
        let at_b = at_a.skip(A::consumed(at_a) as int);
        let in_b = in_a.skip(A::probed(in_a) as int);
        B::lemma_within_row(in_b);
        B::lemma_fixed_width(in_b);
        let at_c = at_b.skip(B::consumed(at_b) as int);
        let in_c = in_b.skip(B::probed(in_b) as int);
        C::lemma_within_row(in_c);
        C::lemma_fixed_width(in_c);
        if A::built(at_a) is Ok {
            B::lemma_within_row(at_b);
            B::lemma_fixed_width(at_b);
            if B::built(at_b) is Ok {
                C::lemma_within_row(at_c);
                C::lemma_fixed_width(at_c);
            }
        }
    }
}

impl<A, B, C, D, SA, SB, SC, SD, DB> FromSqlRow<Typed<(SA, SB, SC, SD)>, DB> for (A, B, C, D) where
    DB: Backend,
    A: FromSqlRow<SA, DB> + StaticallySizedRow<SA, DB>,
    B: FromSqlRow<SB, DB> + StaticallySizedRow<SB, DB>,
    C: FromSqlRow<SC, DB> + StaticallySizedRow<SC, DB>,
    D: FromSqlRow<SD, DB>,
 {
    /// The elements in order, each built from what the ones before it left;
    /// the first failure is the tuple's.
    open spec fn built(fields: Seq<FieldView<DB>>) -> Outcome<(A::V, B::V, C::V, D::V)> {
        let at_a = fields;
        let at_b = at_a.skip(A::consumed(at_a) as int);
        let at_c = at_b.skip(B::consumed(at_b) as int);
        let at_d = at_c.skip(C::consumed(at_c) as int);
        match A::built(at_a) {
            Err(fault) => Err(fault),
            Ok(a) => match B::built(at_b) {
                Err(fault) => Err(fault),
                Ok(b) => match C::built(at_c) {
                    Err(fault) => Err(fault),
                    Ok(c) => match D::built(at_d) {
                        Err(fault) => Err(fault),
                        Ok(d) => Ok((a, b, c, d)),
                    },
                },
            },
        }
    }

    /// What the elements moved past, up to and with the first that failed.
    open spec fn consumed(fields: Seq<FieldView<DB>>) -> nat {
        let at_a = fields;
        let at_b = at_a.skip(A::consumed(at_a) as int);
        let at_c = at_b.skip(B::consumed(at_b) as int);
        let at_d = at_c.skip(C::consumed(at_c) as int);
        if A::built(at_a) is Err {
            A::consumed(at_a)
        } else if B::built(at_b) is Err {
            A::consumed(at_a) + B::consumed(at_b)
        } else if C::built(at_c) is Err {
            A::consumed(at_a) + B::consumed(at_b) + C::consumed(at_c)
        } else {
            A::consumed(at_a) + B::consumed(at_b) + C::consumed(at_c) + D::consumed(at_d)
        }
    }

    /// A tuple is null as soon as one of its elements is.
    open spec fn null_in(fields: Seq<FieldView<DB>>) -> bool {
        let at_a = fields;
        let at_b = at_a.skip(A::probed(at_a) as int);
        let at_c = at_b.skip(B::probed(at_b) as int);
        let at_d = at_c.skip(C::probed(at_c) as int);
        A::null_in(at_a) || B::null_in(at_b) || C::null_in(at_c) || D::null_in(at_d)
    }

    open spec fn probed(fields: Seq<FieldView<DB>>) -> nat {
        let at_a = fields;
        let at_b = at_a.skip(A::probed(at_a) as int);
        let at_c = at_b.skip(B::probed(at_b) as int);
        let at_d = at_c.skip(C::probed(at_c) as int);
        A::probed(at_a) + B::probed(at_b) + C::probed(at_c) + D::probed(at_d)
    }

    proof fn lemma_within_row(fields: Seq<FieldView<DB>>) {
        let at_a = fields;
        let in_a = fields;
        A::lemma_within_row(at_a);
        let at_b = at_a.skip(A::consumed(at_a) as int);
        let in_b = in_a.skip(A::probed(in_a) as int);
        B::lemma_within_row(at_b);
        B::lemma_within_row(in_b);
        let at_c = at_b.skip(B::consumed(at_b) as int);
        let in_c = in_b.skip(B::probed(in_b) as int);
        C::lemma_within_row(at_c);
        C::lemma_within_row(in_c);
        let at_d = at_c.skip(C::consumed(at_c) as int);
        let in_d = in_c.skip(C::probed(in_c) as int);
        D::lemma_within_row(at_d);
        D::lemma_within_row(in_d);
    }

    fn build_from_row<'a, R: Row<'a, DB>>(row: &mut R) -> (result: Result<Self>) {
        let ghost at_a = row.remaining();
        proof {
            A::lemma_within_row(at_a);
        }
        let a = match A::build_from_row(row) {
            Ok(value) => value,
            Err(error) => {
                return Err(error);
            },
        };
        let ghost at_b = at_a.skip(A::consumed(at_a) as int);
        proof {
            B::lemma_within_row(at_b);
        }
        let b = match B::build_from_row(row) {
            Ok(value) => value,
            Err(error) => {
                assert(row.remaining() == at_a.skip(Self::consumed(at_a) as int));
                return Err(error);
            },
        };
        assert(row.remaining() == at_a.skip((A::consumed(at_a) + B::consumed(at_b)) as int));
        let ghost at_c = at_b.skip(B::consumed(at_b) as int);
        proof {
            C::lemma_within_row(at_c);
        }
        let c = match C::build_from_row(row) {
            Ok(value) => value,
            Err(error) => {
                assert(row.remaining() == at_a.skip(Self::consumed(at_a) as int));
                return Err(error);
            },
        };
        assert(row.remaining() == at_a.skip((A::consumed(at_a) + B::consumed(at_b) + C::consumed(at_c)) as int));
        let ghost at_d = at_c.skip(C::consumed(at_c) as int);
        proof {
            D::lemma_within_row(at_d);
        }
        let d = match D::build_from_row(row) {
            Ok(value) => value,
            Err(error) => {
                assert(row.remaining() == at_a.skip(Self::consumed(at_a) as int));
                return Err(error);
            },
        };
        assert(row.remaining() == at_a.skip((A::consumed(at_a) + B::consumed(at_b) + C::consumed(at_c) + D::consumed(at_d)) as int));
        Ok((a, b, c, d))
    }

    fn is_null<'a, R: Row<'a, DB>>(row: &mut R) -> (null: bool) {
        let ghost at_a = row.remaining();
        proof {
            A::lemma_within_row(at_a);
        }
        let null_a = A::is_null(row);
        let ghost at_b = at_a.skip(A::probed(at_a) as int);
        proof {
            B::lemma_within_row(at_b);
        }
        let null_b = B::is_null(row);
        assert(row.remaining() == at_a.skip((A::probed(at_a) + B::probed(at_b)) as int));
        let ghost at_c = at_b.skip(B::probed(at_b) as int);
        proof {
            C::lemma_within_row(at_c);
        }
        let null_c = C::is_null(row);
        assert(row.remaining() == at_a.skip((A::probed(at_a) + B::probed(at_b) + C::probed(at_c)) as int));
        let ghost at_d = at_c.skip(C::probed(at_c) as int);
        proof {
            D::lemma_within_row(at_d);
        }
        let null_d = D::is_null(row);
        assert(row.remaining() == at_a.skip((A::probed(at_a) + B::probed(at_b) + C::probed(at_c) + D::probed(at_d)) as int));
        null_a || null_b || null_c || null_d
    }
}

impl<A, B, C, D, SA, SB, SC, SD, DB> StaticallySizedRow<Typed<(SA, SB, SC, SD)>, DB> for (A, B, C, D) where
    DB: Backend,
    A: StaticallySizedRow<SA, DB>,
    B: StaticallySizedRow<SB, DB>,
    C: StaticallySizedRow<SC, DB>,
    D: StaticallySizedRow<SD, DB>,
 {
    const FIELD_COUNT: usize = A::FIELD_COUNT + B::FIELD_COUNT + C::FIELD_COUNT + D::FIELD_COUNT + 0;

    /// The sum of the elements' field counts.
    open spec fn field_count() -> nat {
        A::field_count() + B::field_count() + C::field_count() + D::field_count()
    }

    proof fn lemma_field_count() {
        A::lemma_field_count();
        B::lemma_field_count();
        C::lemma_field_count();
        D::lemma_field_count();
    }

    proof fn lemma_fixed_width(fields: Seq<FieldView<DB>>) {
        let at_a = fields;
        let in_a = fields;
        A::lemma_within_row(at_a);
        A::lemma_fixed_width(at_a);
        let at_b = at_a.skip(A::consumed(at_a) as int);
        let in_b = in_a.skip(A::probed(in_a) as int);
        B::lemma_within_row(in_b);
        B::lemma_fixed_width(in_b);
        let at_c = at_b.skip(B::consumed(at_b) as int);
        let in_c = in_b.skip(B::probed(in_b) as int);
        C::lemma_within_row(in_c);
        C::lemma_fixed_width(in_c);
        let at_d = at_c.skip(C::consumed(at_c) as int);
        let in_d = in_c.skip(C::probed(in_c) as int);
        D::lemma_within_row(in_d);
        D::lemma_fixed_width(in_d);
        if A::built(at_a) is Ok {
            B::lemma_within_row(at_b);
            B::lemma_fixed_width(at_b);
            if B::built(at_b) is Ok {
                C::lemma_within_row(at_c);
                C::lemma_fixed_width(at_c);
                if C::built(at_c) is Ok {
                    D::lemma_within_row(at_d);
                    D::lemma_fixed_width(at_d);
                }
            }
        }
    }
}

impl<A, B, C, D, E, SA, SB, SC, SD, SE, DB> FromSqlRow<Typed<(SA, SB, SC, SD, SE)>, DB> for (A, B, C, D, E) where
    DB: Backend,
    A: FromSqlRow<SA, DB> + StaticallySizedRow<SA, DB>,
    B: FromSqlRow<SB, DB> + StaticallySizedRow<SB, DB>,
    C: FromSqlRow<SC, DB> + StaticallySizedRow<SC, DB>,
    D: FromSqlRow<SD, DB> + StaticallySizedRow<SD, DB>,
    E: FromSqlRow<SE, DB>,
 {
    /// The elements in order, each built from what the ones before it left;
    /// the first failure is the tuple's.
    open spec fn built(fields: Seq<FieldView<DB>>) -> Outcome<(A::V, B::V, C::V, D::V, E::V)> {
        let at_a = fields;
        let at_b = at_a.skip(A::consumed(at_a) as int);
        let at_c = at_b.skip(B::consumed(at_b) as int);
        let at_d = at_c.skip(C::consumed(at_c) as int);
        let at_e = at_d.skip(D::consumed(at_d) as int);
        match A::built(at_a) {
            Err(fault) => Err(fault),
            Ok(a) => match B::built(at_b) {
                Err(fault) => Err(fault),
                Ok(b) => match C::built(at_c) {
                    Err(fault) => Err(fault),
                    Ok(c) => match D::built(at_d) {
                        Err(fault) => Err(fault),
                        Ok(d) => match E::built(at_e) {
                            Err(fault) => Err(fault),
                            Ok(e) => Ok((a, b, c, d, e)),
                        },
                    },
                },
            },
        }
    }

    /// What the elements moved past, up to and with the first that failed.
    open spec fn consumed(fields: Seq<FieldView<DB>>) -> nat {
        let at_a = fields;
        let at_b = at_a.skip(A::consumed(at_a) as int);
        let at_c = at_b.skip(B::consumed(at_b) as int);
        let at_d = at_c.skip(C::consumed(at_c) as int);
        let at_e = at_d.skip(D::consumed(at_d) as int);
        if A::built(at_a) is Err {
            A::consumed(at_a)
        } else if B::built(at_b) is Err {
            A::consumed(at_a) + B::consumed(at_b)
        } else if C::built(at_c) is Err {
            A::consumed(at_a) + B::consumed(at_b) + C::consumed(at_c)
        } else if D::built(at_d) is Err {
            A::consumed(at_a) + B::consumed(at_b) + C::consumed(at_c) + D::consumed(at_d)
        } else {
            A::consumed(at_a) + B::consumed(at_b) + C::consumed(at_c) + D::consumed(at_d) + E::consumed(at_e)
        }
    }

    /// A tuple is null as soon as one of its elements is.
    open spec fn null_in(fields: Seq<FieldView<DB>>) -> bool {
        let at_a = fields;
        let at_b = at_a.skip(A::probed(at_a) as int);
        let at_c = at_b.skip(B::probed(at_b) as int);
        let at_d = at_c.skip(C::probed(at_c) as int);
        let at_e = at_d.skip(D::probed(at_d) as int);
        A::null_in(at_a) || B::null_in(at_b) || C::null_in(at_c) || D::null_in(at_d) || E::null_in(at_e)
    }

    open spec fn probed(fields: Seq<FieldView<DB>>) -> nat {
        let at_a = fields;
        let at_b = at_a.skip(A::probed(at_a) as int);
        let at_c = at_b.skip(B::probed(at_b) as int);
        let at_d = at_c.skip(C::probed(at_c) as int);
        let at_e = at_d.skip(D::probed(at_d) as int);
        A::probed(at_a) + B::probed(at_b) + C::probed(at_c) + D::probed(at_d) + E::probed(at_e)
    }

    proof fn lemma_within_row(fields: Seq<FieldView<DB>>) {
        let at_a = fields;
        let in_a = fields;
        A::lemma_within_row(at_a);
        let at_b = at_a.skip(A::consumed(at_a) as int);
        let in_b = in_a.skip(A::probed(in_a) as int);
        B::lemma_within_row(at_b);
        B::lemma_within_row(in_b);
        let at_c = at_b.skip(B::consumed(at_b) as int);
        let in_c = in_b.skip(B::probed(in_b) as int);
        C::lemma_within_row(at_c);
        C::lemma_within_row(in_c);
        let at_d = at_c.skip(C::consumed(at_c) as int);
        let in_d = in_c.skip(C::probed(in_c) as int);
        D::lemma_within_row(at_d);
        D::lemma_within_row(in_d);
        let at_e = at_d.skip(D::consumed(at_d) as int);
        let in_e = in_d.skip(D::probed(in_d) as int);
        E::lemma_within_row(at_e);
        E::lemma_within_row(in_e);
    }

    fn build_from_row<'a, R: Row<'a, DB>>(row: &mut R) -> (result: Result<Self>) {
        let ghost at_a = row.remaining();
        proof {
            A::lemma_within_row(at_a);
        }
        let a = match A::build_from_row(row) {
            Ok(value) => value,
            Err(error) => {
                return Err(error);
            },
        };
        let ghost at_b = at_a.skip(A::consumed(at_a) as int);
        proof {
            B::lemma_within_row(at_b);
        }
        let b = match B::build_from_row(row) {
            Ok(value) => value,
            Err(error) => {
                assert(row.remaining() == at_a.skip(Self::consumed(at_a) as int));
                return Err(error);
            },
        };
        assert(row.remaining() == at_a.skip((A::consumed(at_a) + B::consumed(at_b)) as int));
        let ghost at_c = at_b.skip(B::consumed(at_b) as int);
        proof {
            C::lemma_within_row(at_c);
        }
        let c = match C::build_from_row(row) {
            Ok(value) => value,
            Err(error) => {
                assert(row.remaining() == at_a.skip(Self::consumed(at_a) as int));
                return Err(error);
            },
        };
        assert(row.remaining() == at_a.skip((A::consumed(at_a) + B::consumed(at_b) + C::consumed(at_c)) as int));
        let ghost at_d = at_c.skip(C::consumed(at_c) as int);
        proof {
            D::lemma_within_row(at_d);
        }
        let d = match D::build_from_row(row) {
            Ok(value) => value,
            Err(error) => {
                assert(row.remaining() == at_a.skip(Self::consumed(at_a) as int));
                return Err(error);
            },
        };
        assert(row.remaining() == at_a.skip((A::consumed(at_a) + B::consumed(at_b) + C::consumed(at_c) + D::consumed(at_d)) as int));
        let ghost at_e = at_d.skip(D::consumed(at_d) as int);
        proof {
            E::lemma_within_row(at_e);
        }
        let e = match E::build_from_row(row) {
            Ok(value) => value,
            Err(error) => {
                assert(row.remaining() == at_a.skip(Self::consumed(at_a) as int));
                return Err(error);
            },
        };
        assert(row.remaining() == at_a.skip((A::consumed(at_a) + B::consumed(at_b) + C::consumed(at_c) + D::consumed(at_d) + E::consumed(at_e)) as int));
        Ok((a, b, c, d, e))
    }

    fn is_null<'a, R: Row<'a, DB>>(row: &mut R) -> (null: bool) {
        let ghost at_a = row.remaining();
        proof {
            A::lemma_within_row(at_a);
        }
        let null_a = A::is_null(row);
        let ghost at_b = at_a.skip(A::probed(at_a) as int);
        proof {
            B::lemma_within_row(at_b);
        }
        let null_b = B::is_null(row);
        assert(row.remaining() == at_a.skip((A::probed(at_a) + B::probed(at_b)) as int));
        let ghost at_c = at_b.skip(B::probed(at_b) as int);
        proof {
            C::lemma_within_row(at_c);
        }
        let null_c = C::is_null(row);
        assert(row.remaining() == at_a.skip((A::probed(at_a) + B::probed(at_b) + C::probed(at_c)) as int));
        let ghost at_d = at_c.skip(C::probed(at_c) as int);
        proof {
            D::lemma_within_row(at_d);
        }
        let null_d = D::is_null(row);
        assert(row.remaining() == at_a.skip((A::probed(at_a) + B::probed(at_b) + C::probed(at_c) + D::probed(at_d)) as int));
        let ghost at_e = at_d.skip(D::probed(at_d) as int);
        proof {
            E::lemma_within_row(at_e);
        }
        let null_e = E::is_null(row);
        assert(row.remaining() == at_a.skip((A::probed(at_a) + B::probed(at_b) + C::probed(at_c) + D::probed(at_d) + E::probed(at_e)) as int));
        null_a || null_b || null_c || null_d || null_e
    }
}

impl<A, B, C, D, E, SA, SB, SC, SD, SE, DB> StaticallySizedRow<Typed<(SA, SB, SC, SD, SE)>, DB> for (A, B, C, D, E) where
    DB: Backend,
    A: StaticallySizedRow<SA, DB>,
    B: StaticallySizedRow<SB, DB>,
    C: StaticallySizedRow<SC, DB>,
    D: StaticallySizedRow<SD, DB>,
    E: StaticallySizedRow<SE, DB>,
 {
    const FIELD_COUNT: usize = A::FIELD_COUNT + B::FIELD_COUNT + C::FIELD_COUNT + D::FIELD_COUNT + E::FIELD_COUNT + 0;

    /// The sum of the elements' field counts.
    open spec fn field_count() -> nat {
        A::field_count() + B::field_count() + C::field_count() + D::field_count() + E::field_count()
    }

    proof fn lemma_field_count() {
        A::lemma_field_count();
        B::lemma_field_count();
        C::lemma_field_count();
        D::lemma_field_count();
        E::lemma_field_count();
    }

    proof fn lemma_fixed_width(fields: Seq<FieldView<DB>>) {
        let at_a = fields;
        let in_a = fields;
        A::lemma_within_row(at_a);
        A::lemma_fixed_width(at_a);
        let at_b = at_a.skip(A::consumed(at_a) as int);
        let in_b = in_a.skip(A::probed(in_a) as int);
        B::lemma_within_row(in_b);
        B::lemma_fixed_width(in_b);
        let at_c = at_b.skip(B::consumed(at_b) as int);
        let in_c = in_b.skip(B::probed(in_b) as int);
        C::lemma_within_row(in_c);
        C::lemma_fixed_width(in_c);
        let at_d = at_c.skip(C::consumed(at_c) as int);
        let in_d = in_c.skip(C::probed(in_c) as int);
        D::lemma_within_row(in_d);
        D::lemma_fixed_width(in_d);
        let at_e = at_d.skip(D::consumed(at_d) as int);
        let in_e = in_d.skip(D::probed(in_d) as int);
        E::lemma_within_row(in_e);
        E::lemma_fixed_width(in_e);
        if A::built(at_a) is Ok {
            B::lemma_within_row(at_b);
            B::lemma_fixed_width(at_b);
            if B::built(at_b) is Ok {
                C::lemma_within_row(at_c);
                C::lemma_fixed_width(at_c);
                if C::built(at_c) is Ok {
                    D::lemma_within_row(at_d);
                    D::lemma_fixed_width(at_d);
                    if D::built(at_d) is Ok {
                        E::lemma_within_row(at_e);
                        E::lemma_fixed_width(at_e);
                    }
                }
            }
        }
    }
}

impl<A, B, C, D, E, F, SA, SB, SC, SD, SE, SF, DB> FromSqlRow<Typed<(SA, SB, SC, SD, SE, SF)>, DB> for (A, B, C, D, E, F) where
    DB: Backend,
    A: FromSqlRow<SA, DB> + StaticallySizedRow<SA, DB>,
    B: FromSqlRow<SB, DB> + StaticallySizedRow<SB, DB>,
    C: FromSqlRow<SC, DB> + StaticallySizedRow<SC, DB>,
    D: FromSqlRow<SD, DB> + StaticallySizedRow<SD, DB>,
    E: FromSqlRow<SE, DB> + StaticallySizedRow<SE, DB>,
    F: FromSqlRow<SF, DB>,
 {
    /// The elements in order, each built from what the ones before it left;
    /// the first failure is the tuple's.
    open spec fn built(fields: Seq<FieldView<DB>>) -> Outcome<(A::V, B::V, C::V, D::V, E::V, F::V)> {
        let at_a = fields;
        let at_b = at_a.skip(A::consumed(at_a) as int);
        let at_c = at_b.skip(B::consumed(at_b) as int);
        let at_d = at_c.skip(C::consumed(at_c) as int);
        let at_e = at_d.skip(D::consumed(at_d) as int);
        let at_f = at_e.skip(E::consumed(at_e) as int);
        match A::built(at_a) {
            Err(fault) => Err(fault),
            Ok(a) => match B::built(at_b) {
                Err(fault) => Err(fault),
                Ok(b) => match C::built(at_c) {
                    Err(fault) => Err(fault),
                    Ok(c) => match D::built(at_d) {
                        Err(fault) => Err(fault),
                        Ok(d) => match E::built(at_e) {
                            Err(fault) => Err(fault),
                            Ok(e) => match F::built(at_f) {
                                Err(fault) => Err(fault),
                                Ok(f) => Ok((a, b, c, d, e, f)),
                            },
                        },
                    },
                },
            },
        }
    }

    /// What the elements moved past, up to and with the first that failed.
    open spec fn consumed(fields: Seq<FieldView<DB>>) -> nat {
        let at_a = fields;
        let at_b = at_a.skip(A::consumed(at_a) as int);
        let at_c = at_b.skip(B::consumed(at_b) as int);
        let at_d = at_c.skip(C::consumed(at_c) as int);
        let at_e = at_d.skip(D::consumed(at_d) as int);
        let at_f = at_e.skip(E::consumed(at_e) as int);
        if A::built(at_a) is Err {
            A::consumed(at_a)
        } else if B::built(at_b) is Err {
            A::consumed(at_a) + B::consumed(at_b)
        } else if C::built(at_c) is Err {
            A::consumed(at_a) + B::consumed(at_b) + C::consumed(at_c)
        } else if D::built(at_d) is Err {
            A::consumed(at_a) + B::consumed(at_b) + C::consumed(at_c) + D::consumed(at_d)
        } else if E::built(at_e) is Err {
            A::consumed(at_a) + B::consumed(at_b) + C::consumed(at_c) + D::consumed(at_d) + E::consumed(at_e)
        } else {
            A::consumed(at_a) + B::consumed(at_b) + C::consumed(at_c) + D::consumed(at_d) + E::consumed(at_e) + F::consumed(at_f)
        }
    }

    /// A tuple is null as soon as one of its elements is.
    open spec fn null_in(fields: Seq<FieldView<DB>>) -> bool {
        let at_a = fields;
        let at_b = at_a.skip(A::probed(at_a) as int);
        let at_c = at_b.skip(B::probed(at_b) as int);
        let at_d = at_c.skip(C::probed(at_c) as int);
        let at_e = at_d.skip(D::probed(at_d) as int);
        let at_f = at_e.skip(E::probed(at_e) as int);
        A::null_in(at_a) || B::null_in(at_b) || C::null_in(at_c) || D::null_in(at_d) || E::null_in(at_e) || F::null_in(at_f)
    }

    open spec fn probed(fields: Seq<FieldView<DB>>) -> nat {
        let at_a = fields;
        let at_b = at_a.skip(A::probed(at_a) as int);
        let at_c = at_b.skip(B::probed(at_b) as int);
        let at_d = at_c.skip(C::probed(at_c) as int);
        let at_e = at_d.skip(D::probed(at_d) as int);
        let at_f = at_e.skip(E::probed(at_e) as int);
        A::probed(at_a) + B::probed(at_b) + C::probed(at_c) + D::probed(at_d) + E::probed(at_e) + F::probed(at_f)
    }

    proof fn lemma_within_row(fields: Seq<FieldView<DB>>) {
        let at_a = fields;
        let in_a = fields;
        A::lemma_within_row(at_a);
        let at_b = at_a.skip(A::consumed(at_a) as int);
        let in_b = in_a.skip(A::probed(in_a) as int);
        B::lemma_within_row(at_b);
        B::lemma_within_row(in_b);
        let at_c = at_b.skip(B::consumed(at_b) as int);
        let in_c = in_b.skip(B::probed(in_b) as int);
        C::lemma_within_row(at_c);
        C::lemma_within_row(in_c);
        let at_d = at_c.skip(C::consumed(at_c) as int);
        let in_d = in_c.skip(C::probed(in_c) as int);
        D::lemma_within_row(at_d);
        D::lemma_within_row(in_d);
        let at_e = at_d.skip(D::consumed(at_d) as int);
        let in_e = in_d.skip(D::probed(in_d) as int);
        E::lemma_within_row(at_e);
        E::lemma_within_row(in_e);
        let at_f = at_e.skip(E::consumed(at_e) as int);
        let in_f = in_e.skip(E::probed(in_e) as int);
        F::lemma_within_row(at_f);
        F::lemma_within_row(in_f);
    }

    fn build_from_row<'a, R: Row<'a, DB>>(row: &mut R) -> (result: Result<Self>) {
        let ghost at_a = row.remaining();
        proof {
            A::lemma_within_row(at_a);
        }
        let a = match A::build_from_row(row) {
            Ok(value) => value,
            Err(error) => {
                return Err(error);
            },
        };
        let ghost at_b = at_a.skip(A::consumed(at_a) as int);
        proof {
            B::lemma_within_row(at_b);
        }
        let b = match B::build_from_row(row) {
            Ok(value) => value,
            Err(error) => {
                assert(row.remaining() == at_a.skip(Self::consumed(at_a) as int));
                return Err(error);
            },
        };
        assert(row.remaining() == at_a.skip((A::consumed(at_a) + B::consumed(at_b)) as int));
        let ghost at_c = at_b.skip(B::consumed(at_b) as int);
        proof {
            C::lemma_within_row(at_c);
        }
        let c = match C::build_from_row(row) {
            Ok(value) => value,
            Err(error) => {
                assert(row.remaining() == at_a.skip(Self::consumed(at_a) as int));
                return Err(error);
            },
        };
        assert(row.remaining() == at_a.skip((A::consumed(at_a) + B::consumed(at_b) + C::consumed(at_c)) as int));
        let ghost at_d = at_c.skip(C::consumed(at_c) as int);
        proof {
            D::lemma_within_row(at_d);
        }
        let d = match D::build_from_row(row) {
            Ok(value) => value,
            Err(error) => {
                assert(row.remaining() == at_a.skip(Self::consumed(at_a) as int));
                return Err(error);
            },
        };
        assert(row.remaining() == at_a.skip((A::consumed(at_a) + B::consumed(at_b) + C::consumed(at_c) + D::consumed(at_d)) as int));
        let ghost at_e = at_d.skip(D::consumed(at_d) as int);
        proof {
            E::lemma_within_row(at_e);
        }
        let e = match E::build_from_row(row) {
            Ok(value) => value,
            Err(error) => {
                assert(row.remaining() == at_a.skip(Self::consumed(at_a) as int));
                return Err(error);
            },
        };
        assert(row.remaining() == at_a.skip((A::consumed(at_a) + B::consumed(at_b) + C::consumed(at_c) + D::consumed(at_d) + E::consumed(at_e)) as int));
        let ghost at_f = at_e.skip(E::consumed(at_e) as int);
        proof {
            F::lemma_within_row(at_f);
        }
        let f = match F::build_from_row(row) {
            Ok(value) => value,
            Err(error) => {
                assert(row.remaining() == at_a.skip(Self::consumed(at_a) as int));
                return Err(error);
            },
        };
        assert(row.remaining() == at_a.skip((A::consumed(at_a) + B::consumed(at_b) + C::consumed(at_c) + D::consumed(at_d) + E::consumed(at_e) + F::consumed(at_f)) as int));
        Ok((a, b, c, d, e, f))
    }

    fn is_null<'a, R: Row<'a, DB>>(row: &mut R) -> (null: bool) {
        let ghost at_a = row.remaining();
        proof {
            A::lemma_within_row(at_a);
        }
        let null_a = A::is_null(row);
        let ghost at_b = at_a.skip(A::probed(at_a) as int);
        proof {
            B::lemma_within_row(at_b);
        }
        let null_b = B::is_null(row);
        assert(row.remaining() == at_a.skip((A::probed(at_a) + B::probed(at_b)) as int));
        let ghost at_c = at_b.skip(B::probed(at_b) as int);
        proof {
            C::lemma_within_row(at_c);
        }
        let null_c = C::is_null(row);
        assert(row.remaining() == at_a.skip((A::probed(at_a) + B::probed(at_b) + C::probed(at_c)) as int));
        let ghost at_d = at_c.skip(C::probed(at_c) as int);
        proof {
            D::lemma_within_row(at_d);
        }
        let null_d = D::is_null(row);
        assert(row.remaining() == at_a.skip((A::probed(at_a) + B::probed(at_b) + C::probed(at_c) + D::probed(at_d)) as int));
        let ghost at_e = at_d.skip(D::probed(at_d) as int);
        proof {
            E::lemma_within_row(at_e);
        }
        let null_e = E::is_null(row);
        assert(row.remaining() == at_a.skip((A::probed(at_a) + B::probed(at_b) + C::probed(at_c) + D::probed(at_d) + E::probed(at_e)) as int));
        let ghost at_f = at_e.skip(E::probed(at_e) as int);
        proof {
            F::lemma_within_row(at_f);
        }
        let null_f = F::is_null(row);
        assert(row.remaining() == at_a.skip((A::probed(at_a) + B::probed(at_b) + C::probed(at_c) + D::probed(at_d) + E::probed(at_e) + F::probed(at_f)) as int));
        null_a || null_b || null_c || null_d || null_e || null_f
    }
}

impl<A, B, C, D, E, F, SA, SB, SC, SD, SE, SF, DB> StaticallySizedRow<Typed<(SA, SB, SC, SD, SE, SF)>, DB> for (A, B, C, D, E, F) where
    DB: Backend,
    A: StaticallySizedRow<SA, DB>,
    B: StaticallySizedRow<SB, DB>,
    C: StaticallySizedRow<SC, DB>,
    D: StaticallySizedRow<SD, DB>,
    E: StaticallySizedRow<SE, DB>,
    F: StaticallySizedRow<SF, DB>,
 {
    const FIELD_COUNT: usize = A::FIELD_COUNT + B::FIELD_COUNT + C::FIELD_COUNT + D::FIELD_COUNT + E::FIELD_COUNT + F::FIELD_COUNT + 0;

    /// The sum of the elements' field counts.
    open spec fn field_count() -> nat {
        A::field_count() + B::field_count() + C::field_count() + D::field_count() + E::field_count() + F::field_count()
    }

    proof fn lemma_field_count() {
        A::lemma_field_count();
        B::lemma_field_count();
        C::lemma_field_count();
        D::lemma_field_count();
        E::lemma_field_count();
        F::lemma_field_count();
    }

    proof fn lemma_fixed_width(fields: Seq<FieldView<DB>>) {
        let at_a = fields;
        let in_a = fields;
        A::lemma_within_row(at_a);
        A::lemma_fixed_width(at_a);
        let at_b = at_a.skip(A::consumed(at_a) as int);
        let in_b = in_a.skip(A::probed(in_a) as int);
        B::lemma_within_row(in_b);
        B::lemma_fixed_width(in_b);
        let at_c = at_b.skip(B::consumed(at_b) as int);
        let in_c = in_b.skip(B::probed(in_b) as int);
        C::lemma_within_row(in_c);
        C::lemma_fixed_width(in_c);
        let at_d = at_c.skip(C::consumed(at_c) as int);
        let in_d = in_c.skip(C::probed(in_c) as int);
        D::lemma_within_row(in_d);
        D::lemma_fixed_width(in_d);
        let at_e = at_d.skip(D::consumed(at_d) as int);
        let in_e = in_d.skip(D::probed(in_d) as int);
        E::lemma_within_row(in_e);
        E::lemma_fixed_width(in_e);
        let at_f = at_e.skip(E::consumed(at_e) as int);
        let in_f = in_e.skip(E::probed(in_e) as int);
        F::lemma_within_row(in_f);
        F::lemma_fixed_width(in_f);
        if A::built(at_a) is Ok {
            B::lemma_within_row(at_b);
            B::lemma_fixed_width(at_b);
            if B::built(at_b) is Ok {
                C::lemma_within_row(at_c);
                C::lemma_fixed_width(at_c);
                if C::built(at_c) is Ok {
                    D::lemma_within_row(at_d);
                    D::lemma_fixed_width(at_d);
                    if D::built(at_d) is Ok {
                        E::lemma_within_row(at_e);
                        E::lemma_fixed_width(at_e);
                        if E::built(at_e) is Ok {
                            F::lemma_within_row(at_f);
                            F::lemma_fixed_width(at_f);
                        }
                    }
                }
            }
        }
    }
}

impl<A, B, C, D, E, F, G, SA, SB, SC, SD, SE, SF, SG, DB> FromSqlRow<Typed<(SA, SB, SC, SD, SE, SF, SG)>, DB> for (A, B, C, D, E, F, G) where
    DB: Backend,
    A: FromSqlRow<SA, DB> + StaticallySizedRow<SA, DB>,
    B: FromSqlRow<SB, DB> + StaticallySizedRow<SB, DB>,
    C: FromSqlRow<SC, DB> + StaticallySizedRow<SC, DB>,
    D: FromSqlRow<SD, DB> + StaticallySizedRow<SD, DB>,
    E: FromSqlRow<SE, DB> + StaticallySizedRow<SE, DB>,
    F: FromSqlRow<SF, DB> + StaticallySizedRow<SF, DB>,
    G: FromSqlRow<SG, DB>,
 {
    /// The elements in order, each built from what the ones before it left;
    /// the first failure is the tuple's.
    open spec fn built(fields: Seq<FieldView<DB>>) -> Outcome<(A::V, B::V, C::V, D::V, E::V, F::V, G::V)> {
        let at_a = fields;
        let at_b = at_a.skip(A::consumed(at_a) as int);
        let at_c = at_b.skip(B::consumed(at_b) as int);
        let at_d = at_c.skip(C::consumed(at_c) as int);
        let at_e = at_d.skip(D::consumed(at_d) as int);
        let at_f = at_e.skip(E::consumed(at_e) as int);
        let at_g = at_f.skip(F::consumed(at_f) as int);
        match A::built(at_a) {
            Err(fault) => Err(fault),
            Ok(a) => match B::built(at_b) {
                Err(fault) => Err(fault),
                Ok(b) => match C::built(at_c) {
                    Err(fault) => Err(fault),
                    Ok(c) => match D::built(at_d) {
                        Err(fault) => Err(fault),
                        Ok(d) => match E::built(at_e) {
                            Err(fault) => Err(fault),
                            Ok(e) => match F::built(at_f) {
                                Err(fault) => Err(fault),
                                Ok(f) => match G::built(at_g) {
                                    Err(fault) => Err(fault),
                                    Ok(g) => Ok((a, b, c, d, e, f, g)),
                                },
                            },
                        },
                    },
                },
            },
        }
    }

    /// What the elements moved past, up to and with the first that failed.
    open spec fn consumed(fields: Seq<FieldView<DB>>) -> nat {
        let at_a = fields;
        let at_b = at_a.skip(A::consumed(at_a) as int);
        let at_c = at_b.skip(B::consumed(at_b) as int);
        let at_d = at_c.skip(C::consumed(at_c) as int);
        let at_e = at_d.skip(D::consumed(at_d) as int);
        let at_f = at_e.skip(E::consumed(at_e) as int);
        let at_g = at_f.skip(F::consumed(at_f) as int);
        if A::built(at_a) is Err {
            A::consumed(at_a)
        } else if B::built(at_b) is Err {
            A::consumed(at_a) + B::consumed(at_b)
        } else if C::built(at_c) is Err {
            A::consumed(at_a) + B::consumed(at_b) + C::consumed(at_c)
        } else if D::built(at_d) is Err {
            A::consumed(at_a) + B::consumed(at_b) + C::consumed(at_c) + D::consumed(at_d)
        } else if E::built(at_e) is Err {
            A::consumed(at_a) + B::consumed(at_b) + C::consumed(at_c) + D::consumed(at_d) + E::consumed(at_e)
        } else if F::built(at_f) is Err {
            A::consumed(at_a) + B::consumed(at_b) + C::consumed(at_c) + D::consumed(at_d) + E::consumed(at_e) + F::consumed(at_f)
        } else {
            A::consumed(at_a) + B::consumed(at_b) + C::consumed(at_c) + D::consumed(at_d) + E::consumed(at_e) + F::consumed(at_f) + G::consumed(at_g)
        }
    }

    /// A tuple is null as soon as one of its elements is.
    open spec fn null_in(fields: Seq<FieldView<DB>>) -> bool {
        let at_a = fields;
        let at_b = at_a.skip(A::probed(at_a) as int);
        let at_c = at_b.skip(B::probed(at_b) as int);
        let at_d = at_c.skip(C::probed(at_c) as int);
        let at_e = at_d.skip(D::probed(at_d) as int);
        let at_f = at_e.skip(E::probed(at_e) as int);
        let at_g = at_f.skip(F::probed(at_f) as int);
        A::null_in(at_a) || B::null_in(at_b) || C::null_in(at_c) || D::null_in(at_d) || E::null_in(at_e) || F::null_in(at_f) || G::null_in(at_g)
    }

    open spec fn probed(fields: Seq<FieldView<DB>>) -> nat {
        let at_a = fields;
        let at_b = at_a.skip(A::probed(at_a) as int);
        let at_c = at_b.skip(B::probed(at_b) as int);
        let at_d = at_c.skip(C::probed(at_c) as int);
        let at_e = at_d.skip(D::probed(at_d) as int);
        let at_f = at_e.skip(E::probed(at_e) as int);
        let at_g = at_f.skip(F::probed(at_f) as int);
        A::probed(at_a) + B::probed(at_b) + C::probed(at_c) + D::probed(at_d) + E::probed(at_e) + F::probed(at_f) + G::probed(at_g)
    }

    proof fn lemma_within_row(fields: Seq<FieldView<DB>>) {
        let at_a = fields;
        let in_a = fields;
        A::lemma_within_row(at_a);
        let at_b = at_a.skip(A::consumed(at_a) as int);
        let in_b = in_a.skip(A::probed(in_a) as int);
        B::lemma_within_row(at_b);
        B::lemma_within_row(in_b);
        let at_c = at_b.skip(B::consumed(at_b) as int);
        let in_c = in_b.skip(B::probed(in_b) as int);
        C::lemma_within_row(at_c);
        C::lemma_within_row(in_c);
        let at_d = at_c.skip(C::consumed(at_c) as int);
        let in_d = in_c.skip(C::probed(in_c) as int);
        D::lemma_within_row(at_d);
        D::lemma_within_row(in_d);
        let at_e = at_d.skip(D::consumed(at_d) as int);
        let in_e = in_d.skip(D::probed(in_d) as int);
        E::lemma_within_row(at_e);
        E::lemma_within_row(in_e);
        let at_f = at_e.skip(E::consumed(at_e) as int);
        let in_f = in_e.skip(E::probed(in_e) as int);
        F::lemma_within_row(at_f);
        F::lemma_within_row(in_f);
        let at_g = at_f.skip(F::consumed(at_f) as int);
        let in_g = in_f.skip(F::probed(in_f) as int);
        G::lemma_within_row(at_g);
        G::lemma_within_row(in_g);
    }

    fn build_from_row<'a, R: Row<'a, DB>>(row: &mut R) -> (result: Result<Self>) {
        let ghost at_a = row.remaining();
        proof {
            A::lemma_within_row(at_a);
        }
        let a = match A::build_from_row(row) {
            Ok(value) => value,
            Err(error) => {
                return Err(error);
            },
        };
        let ghost at_b = at_a.skip(A::consumed(at_a) as int);
        proof {
            B::lemma_within_row(at_b);
        }
        let b = match B::build_from_row(row) {
            Ok(value) => value,
            Err(error) => {
                assert(row.remaining() == at_a.skip(Self::consumed(at_a) as int));
                return Err(error);
            },
        };
        assert(row.remaining() == at_a.skip((A::consumed(at_a) + B::consumed(at_b)) as int));
        let ghost at_c = at_b.skip(B::consumed(at_b) as int);
        proof {
            C::lemma_within_row(at_c);
        }
        let c = match C::build_from_row(row) {
            Ok(value) => value,
            Err(error) => {
                assert(row.remaining() == at_a.skip(Self::consumed(at_a) as int));
                return Err(error);
            },
        };
        assert(row.remaining() == at_a.skip((A::consumed(at_a) + B::consumed(at_b) + C::consumed(at_c)) as int));
        let ghost at_d = at_c.skip(C::consumed(at_c) as int);
        proof {
            D::lemma_within_row(at_d);
        }
        let d = match D::build_from_row(row) {
            Ok(value) => value,
            Err(error) => {
                assert(row.remaining() == at_a.skip(Self::consumed(at_a) as int));
                return Err(error);
            },
        };
        assert(row.remaining() == at_a.skip((A::consumed(at_a) + B::consumed(at_b) + C::consumed(at_c) + D::consumed(at_d)) as int));
        let ghost at_e = at_d.skip(D::consumed(at_d) as int);
        proof {
            E::lemma_within_row(at_e);
        }
        let e = match E::build_from_row(row) {
            Ok(value) => value,
            Err(error) => {
                assert(row.remaining() == at_a.skip(Self::consumed(at_a) as int));
                return Err(error);
            },
        };
        assert(row.remaining() == at_a.skip((A::consumed(at_a) + B::consumed(at_b) + C::consumed(at_c) + D::consumed(at_d) + E::consumed(at_e)) as int));
        let ghost at_f = at_e.skip(E::consumed(at_e) as int);
        proof {
            F::lemma_within_row(at_f);
        }
        let f = match F::build_from_row(row) {
            Ok(value) => value,
            Err(error) => {
                assert(row.remaining() == at_a.skip(Self::consumed(at_a) as int));
                return Err(error);
            },
        };
        assert(row.remaining() == at_a.skip((A::consumed(at_a) + B::consumed(at_b) + C::consumed(at_c) + D::consumed(at_d) + E::consumed(at_e) + F::consumed(at_f)) as int));
        let ghost at_g = at_f.skip(F::consumed(at_f) as int);
        proof {
            G::lemma_within_row(at_g);
        }
        let g = match G::build_from_row(row) {
            Ok(value) => value,
            Err(error) => {
                assert(row.remaining() == at_a.skip(Self::consumed(at_a) as int));
                return Err(error);
            },
        };
        assert(row.remaining() == at_a.skip((A::consumed(at_a) + B::consumed(at_b) + C::consumed(at_c) + D::consumed(at_d) + E::consumed(at_e) + F::consumed(at_f) + G::consumed(at_g)) as int));
        Ok((a, b, c, d, e, f, g))
    }

    fn is_null<'a, R: Row<'a, DB>>(row: &mut R) -> (null: bool) {
        let ghost at_a = row.remaining();
        proof {
            A::lemma_within_row(at_a);
        }
        let null_a = A::is_null(row);
        let ghost at_b = at_a.skip(A::probed(at_a) as int);
        proof {
            B::lemma_within_row(at_b);
        }
        let null_b = B::is_null(row);
        assert(row.remaining() == at_a.skip((A::probed(at_a) + B::probed(at_b)) as int));
        let ghost at_c = at_b.skip(B::probed(at_b) as int);
        proof {
            C::lemma_within_row(at_c);
        }
        let null_c = C::is_null(row);
        assert(row.remaining() == at_a.skip((A::probed(at_a) + B::probed(at_b) + C::probed(at_c)) as int));
        let ghost at_d = at_c.skip(C::probed(at_c) as int);
        proof {
            D::lemma_within_row(at_d);
        }
        let null_d = D::is_null(row);
        assert(row.remaining() == at_a.skip((A::probed(at_a) + B::probed(at_b) + C::probed(at_c) + D::probed(at_d)) as int));
        let ghost at_e = at_d.skip(D::probed(at_d) as int);
        proof {
            E::lemma_within_row(at_e);
        }
        let null_e = E::is_null(row);
        assert(row.remaining() == at_a.skip((A::probed(at_a) + B::probed(at_b) + C::probed(at_c) + D::probed(at_d) + E::probed(at_e)) as int));
        let ghost at_f = at_e.skip(E::probed(at_e) as int);
        proof {
            F::lemma_within_row(at_f);
        }
        let null_f = F::is_null(row);
        assert(row.remaining() == at_a.skip((A::probed(at_a) + B::probed(at_b) + C::probed(at_c) + D::probed(at_d) + E::probed(at_e) + F::probed(at_f)) as int));
        let ghost at_g = at_f.skip(F::probed(at_f) as int);
        proof {
            G::lemma_within_row(at_g);
        }
        let null_g = G::is_null(row);
        assert(row.remaining() == at_a.skip((A::probed(at_a) + B::probed(at_b) + C::probed(at_c) + D::probed(at_d) + E::probed(at_e) + F::probed(at_f) + G::probed(at_g)) as int));
        null_a || null_b || null_c || null_d || null_e || null_f || null_g
    }
}

impl<A, B, C, D, E, F, G, SA, SB, SC, SD, SE, SF, SG, DB> StaticallySizedRow<Typed<(SA, SB, SC, SD, SE, SF, SG)>, DB> for (A, B, C, D, E, F, G) where
    DB: Backend,
    A: StaticallySizedRow<SA, DB>,
    B: StaticallySizedRow<SB, DB>,
    C: StaticallySizedRow<SC, DB>,
    D: StaticallySizedRow<SD, DB>,
    E: StaticallySizedRow<SE, DB>,
    F: StaticallySizedRow<SF, DB>,
    G: StaticallySizedRow<SG, DB>,
 {
    const FIELD_COUNT: usize = A::FIELD_COUNT + B::FIELD_COUNT + C::FIELD_COUNT + D::FIELD_COUNT + E::FIELD_COUNT + F::FIELD_COUNT + G::FIELD_COUNT + 0;

    /// The sum of the elements' field counts.
    open spec fn field_count() -> nat {
        A::field_count() + B::field_count() + C::field_count() + D::field_count() + E::field_count() + F::field_count() + G::field_count()
    }

    proof fn lemma_field_count() {
        A::lemma_field_count();
        B::lemma_field_count();
        C::lemma_field_count();
        D::lemma_field_count();
        E::lemma_field_count();
        F::lemma_field_count();
        G::lemma_field_count();
    }

    proof fn lemma_fixed_width(fields: Seq<FieldView<DB>>) {
        let at_a = fields;
        let in_a = fields;
        A::lemma_within_row(at_a);
        A::lemma_fixed_width(at_a);
        let at_b = at_a.skip(A::consumed(at_a) as int);
        let in_b = in_a.skip(A::probed(in_a) as int);
        B::lemma_within_row(in_b);
        B::lemma_fixed_width(in_b);
        let at_c = at_b.skip(B::consumed(at_b) as int);
        let in_c = in_b.skip(B::probed(in_b) as int);
        C::lemma_within_row(in_c);
        C::lemma_fixed_width(in_c);
        let at_d = at_c.skip(C::consumed(at_c) as int);
        let in_d = in_c.skip(C::probed(in_c) as int);
        D::lemma_within_row(in_d);
        D::lemma_fixed_width(in_d);
        let at_e = at_d.skip(D::consumed(at_d) as int);
        let in_e = in_d.skip(D::probed(in_d) as int);
        E::lemma_within_row(in_e);
        E::lemma_fixed_width(in_e);
        let at_f = at_e.skip(E::consumed(at_e) as int);
        let in_f = in_e.skip(E::probed(in_e) as int);
        F::lemma_within_row(in_f);
        F::lemma_fixed_width(in_f);
        let at_g = at_f.skip(F::consumed(at_f) as int);
        let in_g = in_f.skip(F::probed(in_f) as int);
        G::lemma_within_row(in_g);
        G::lemma_fixed_width(in_g);
        if A::built(at_a) is Ok {
            B::lemma_within_row(at_b);
            B::lemma_fixed_width(at_b);
            if B::built(at_b) is Ok {
                C::lemma_within_row(at_c);
                C::lemma_fixed_width(at_c);
                if C::built(at_c) is Ok {
                    D::lemma_within_row(at_d);
                    D::lemma_fixed_width(at_d);
                    if D::built(at_d) is Ok {
                        E::lemma_within_row(at_e);
                        E::lemma_fixed_width(at_e);
                        if E::built(at_e) is Ok {
                            F::lemma_within_row(at_f);
                            F::lemma_fixed_width(at_f);
                            if F::built(at_f) is Ok {
                                G::lemma_within_row(at_g);
                                G::lemma_fixed_width(at_g);
                            }
                        }
                    }
                }
            }
        }
    }
}

impl<A, B, C, D, E, F, G, H, SA, SB, SC, SD, SE, SF, SG, SH, DB> FromSqlRow<Typed<(SA, SB, SC, SD, SE, SF, SG, SH)>, DB> for (A, B, C, D, E, F, G, H) where
    DB: Backend,
    A: FromSqlRow<SA, DB> + StaticallySizedRow<SA, DB>,
    B: FromSqlRow<SB, DB> + StaticallySizedRow<SB, DB>,
    C: FromSqlRow<SC, DB> + StaticallySizedRow<SC, DB>,
    D: FromSqlRow<SD, DB> + StaticallySizedRow<SD, DB>,
    E: FromSqlRow<SE, DB> + StaticallySizedRow<SE, DB>,
    F: FromSqlRow<SF, DB> + StaticallySizedRow<SF, DB>,
    G: FromSqlRow<SG, DB> + StaticallySizedRow<SG, DB>,
    H: FromSqlRow<SH, DB>,
 {
    /// The elements in order, each built from what the ones before it left;
    /// the first failure is the tuple's.
    open spec fn built(fields: Seq<FieldView<DB>>) -> Outcome<(A::V, B::V, C::V, D::V, E::V, F::V, G::V, H::V)> {
        let at_a = fields;
        let at_b = at_a.skip(A::consumed(at_a) as int);
        let at_c = at_b.skip(B::consumed(at_b) as int);
        let at_d = at_c.skip(C::consumed(at_c) as int);
        let at_e = at_d.skip(D::consumed(at_d) as int);
        let at_f = at_e.skip(E::consumed(at_e) as int);
        let at_g = at_f.skip(F::consumed(at_f) as int);
        let at_h = at_g.skip(G::consumed(at_g) as int);
        match A::built(at_a) {
            Err(fault) => Err(fault),
            Ok(a) => match B::built(at_b) {
                Err(fault) => Err(fault),
                Ok(b) => match C::built(at_c) {
                    Err(fault) => Err(fault),
                    Ok(c) => match D::built(at_d) {
                        Err(fault) => Err(fault),
                        Ok(d) => match E::built(at_e) {
                            Err(fault) => Err(fault),
                            Ok(e) => match F::built(at_f) {
                                Err(fault) => Err(fault),
                                Ok(f) => match G::built(at_g) {
                                    Err(fault) => Err(fault),
                                    Ok(g) => match H::built(at_h) {
                                        Err(fault) => Err(fault),
                                        Ok(h) => Ok((a, b, c, d, e, f, g, h)),
                                    },
                                },
                            },
                        },
                    },
                },
            },
        }
    }

    /// What the elements moved past, up to and with the first that failed.
    open spec fn consumed(fields: Seq<FieldView<DB>>) -> nat {
        let at_a = fields;
        let at_b = at_a.skip(A::consumed(at_a) as int);
        let at_c = at_b.skip(B::consumed(at_b) as int);
        let at_d = at_c.skip(C::consumed(at_c) as int);
        let at_e = at_d.skip(D::consumed(at_d) as int);
        let at_f = at_e.skip(E::consumed(at_e) as int);
        let at_g = at_f.skip(F::consumed(at_f) as int);
        let at_h = at_g.skip(G::consumed(at_g) as int);
        if A::built(at_a) is Err {
            A::consumed(at_a)
        } else if B::built(at_b) is Err {
            A::consumed(at_a) + B::consumed(at_b)
        } else if C::built(at_c) is Err {
            A::consumed(at_a) + B::consumed(at_b) + C::consumed(at_c)
        } else if D::built(at_d) is Err {
            A::consumed(at_a) + B::consumed(at_b) + C::consumed(at_c) + D::consumed(at_d)
        } else if E::built(at_e) is Err {
            A::consumed(at_a) + B::consumed(at_b) + C::consumed(at_c) + D::consumed(at_d) + E::consumed(at_e)
        } else if F::built(at_f) is Err {
            A::consumed(at_a) + B::consumed(at_b) + C::consumed(at_c) + D::consumed(at_d) + E::consumed(at_e) + F::consumed(at_f)
        } else if G::built(at_g) is Err {
            A::consumed(at_a) + B::consumed(at_b) + C::consumed(at_c) + D::consumed(at_d) + E::consumed(at_e) + F::consumed(at_f) + G::consumed(at_g)
        } else {
            A::consumed(at_a) + B::consumed(at_b) + C::consumed(at_c) + D::consumed(at_d) + E::consumed(at_e) + F::consumed(at_f) + G::consumed(at_g) + H::consumed(at_h)
        }
    }

    /// A tuple is null as soon as one of its elements is.
    open spec fn null_in(fields: Seq<FieldView<DB>>) -> bool {
        let at_a = fields;
        let at_b = at_a.skip(A::probed(at_a) as int);
        let at_c = at_b.skip(B::probed(at_b) as int);
        let at_d = at_c.skip(C::probed(at_c) as int);
        let at_e = at_d.skip(D::probed(at_d) as int);
        let at_f = at_e.skip(E::probed(at_e) as int);
        let at_g = at_f.skip(F::probed(at_f) as int);
        let at_h = at_g.skip(G::probed(at_g) as int);
        A::null_in(at_a) || B::null_in(at_b) || C::null_in(at_c) || D::null_in(at_d) || E::null_in(at_e) || F::null_in(at_f) || G::null_in(at_g) || H::null_in(at_h)
    }

    open spec fn probed(fields: Seq<FieldView<DB>>) -> nat {
        let at_a = fields;
        let at_b = at_a.skip(A::probed(at_a) as int);
        let at_c = at_b.skip(B::probed(at_b) as int);
        let at_d = at_c.skip(C::probed(at_c) as int);
        let at_e = at_d.skip(D::probed(at_d) as int);
        let at_f = at_e.skip(E::probed(at_e) as int);
        let at_g = at_f.skip(F::probed(at_f) as int);
        let at_h = at_g.skip(G::probed(at_g) as int);
        A::probed(at_a) + B::probed(at_b) + C::probed(at_c) + D::probed(at_d) + E::probed(at_e) + F::probed(at_f) + G::probed(at_g) + H::probed(at_h)
    }

    proof fn lemma_within_row(fields: Seq<FieldView<DB>>) {
        let at_a = fields;
        let in_a = fields;
        A::lemma_within_row(at_a);
        let at_b = at_a.skip(A::consumed(at_a) as int);
        let in_b = in_a.skip(A::probed(in_a) as int);
        B::lemma_within_row(at_b);
        B::lemma_within_row(in_b);
        let at_c = at_b.skip(B::consumed(at_b) as int);
        let in_c = in_b.skip(B::probed(in_b) as int);
        C::lemma_within_row(at_c);
        C::lemma_within_row(in_c);
        let at_d = at_c.skip(C::consumed(at_c) as int);
        let in_d = in_c.skip(C::probed(in_c) as int);
        D::lemma_within_row(at_d);
        D::lemma_within_row(in_d);
        let at_e = at_d.skip(D::consumed(at_d) as int);
        let in_e = in_d.skip(D::probed(in_d) as int);
        E::lemma_within_row(at_e);
        E::lemma_within_row(in_e);
        let at_f = at_e.skip(E::consumed(at_e) as int);
        let in_f = in_e.skip(E::probed(in_e) as int);
        F::lemma_within_row(at_f);
        F::lemma_within_row(in_f);
        let at_g = at_f.skip(F::consumed(at_f) as int);
        let in_g = in_f.skip(F::probed(in_f) as int);
        G::lemma_within_row(at_g);
        G::lemma_within_row(in_g);
        let at_h = at_g.skip(G::consumed(at_g) as int);
        let in_h = in_g.skip(G::probed(in_g) as int);
        H::lemma_within_row(at_h);
        H::lemma_within_row(in_h);
    }

    fn build_from_row<'a, R: Row<'a, DB>>(row: &mut R) -> (result: Result<Self>) {
        let ghost at_a = row.remaining();
        proof {
            A::lemma_within_row(at_a);
        }
        let a = match A::build_from_row(row) {
            Ok(value) => value,
            Err(error) => {
                return Err(error);
            },
        };
        let ghost at_b = at_a.skip(A::consumed(at_a) as int);
        proof {
            B::lemma_within_row(at_b);
        }
        let b = match B::build_from_row(row) {
            Ok(value) => value,
            Err(error) => {
                assert(row.remaining() == at_a.skip(Self::consumed(at_a) as int));
                return Err(error);
            },
        };
        assert(row.remaining() == at_a.skip((A::consumed(at_a) + B::consumed(at_b)) as int));
        let ghost at_c = at_b.skip(B::consumed(at_b) as int);
        proof {
            C::lemma_within_row(at_c);
        }
        let c = match C::build_from_row(row) {
            Ok(value) => value,
            Err(error) => {
                assert(row.remaining() == at_a.skip(Self::consumed(at_a) as int));
                return Err(error);
            },
        };
        assert(row.remaining() == at_a.skip((A::consumed(at_a) + B::consumed(at_b) + C::consumed(at_c)) as int));
        let ghost at_d = at_c.skip(C::consumed(at_c) as int);
        proof {
            D::lemma_within_row(at_d);
        }
        let d = match D::build_from_row(row) {
            Ok(value) => value,
            Err(error) => {
                assert(row.remaining() == at_a.skip(Self::consumed(at_a) as int));
                return Err(error);
            },
        };
        assert(row.remaining() == at_a.skip((A::consumed(at_a) + B::consumed(at_b) + C::consumed(at_c) + D::consumed(at_d)) as int));
        let ghost at_e = at_d.skip(D::consumed(at_d) as int);
        proof {
            E::lemma_within_row(at_e);
        }
        let e = match E::build_from_row(row) {
            Ok(value) => value,
            Err(error) => {
                assert(row.remaining() == at_a.skip(Self::consumed(at_a) as int));
                return Err(error);
            },
        };
        assert(row.remaining() == at_a.skip((A::consumed(at_a) + B::consumed(at_b) + C::consumed(at_c) + D::consumed(at_d) + E::consumed(at_e)) as int));
        let ghost at_f = at_e.skip(E::consumed(at_e) as int);
        proof {
            F::lemma_within_row(at_f);
        }
        let f = match F::build_from_row(row) {
            Ok(value) => value,
            Err(error) => {
                assert(row.remaining() == at_a.skip(Self::consumed(at_a) as int));
                return Err(error);
            },
        };
        assert(row.remaining() == at_a.skip((A::consumed(at_a) + B::consumed(at_b) + C::consumed(at_c) + D::consumed(at_d) + E::consumed(at_e) + F::consumed(at_f)) as int));
        let ghost at_g = at_f.skip(F::consumed(at_f) as int);
        proof {
            G::lemma_within_row(at_g);
        }
        let g = match G::build_from_row(row) {
            Ok(value) => value,
            Err(error) => {
                assert(row.remaining() == at_a.skip(Self::consumed(at_a) as int));
                return Err(error);
            },
        };
        assert(row.remaining() == at_a.skip((A::consumed(at_a) + B::consumed(at_b) + C::consumed(at_c) + D::consumed(at_d) + E::consumed(at_e) + F::consumed(at_f) + G::consumed(at_g)) as int));
        let ghost at_h = at_g.skip(G::consumed(at_g) as int);
        proof {
            H::lemma_within_row(at_h);
        }
        let h = match H::build_from_row(row) {
            Ok(value) => value,
            Err(error) => {
                assert(row.remaining() == at_a.skip(Self::consumed(at_a) as int));
                return Err(error);
            },
        };
        assert(row.remaining() == at_a.skip((A::consumed(at_a) + B::consumed(at_b) + C::consumed(at_c) + D::consumed(at_d) + E::consumed(at_e) + F::consumed(at_f) + G::consumed(at_g) + H::consumed(at_h)) as int));
        Ok((a, b, c, d, e, f, g, h))
    }

    fn is_null<'a, R: Row<'a, DB>>(row: &mut R) -> (null: bool) {
        let ghost at_a = row.remaining();
        proof {
            A::lemma_within_row(at_a);
        }
        let null_a = A::is_null(row);
        let ghost at_b = at_a.skip(A::probed(at_a) as int);
        proof {
            B::lemma_within_row(at_b);
        }
        let null_b = B::is_null(row);
        assert(row.remaining() == at_a.skip((A::probed(at_a) + B::probed(at_b)) as int));
        let ghost at_c = at_b.skip(B::probed(at_b) as int);
        proof {
            C::lemma_within_row(at_c);
        }
        let null_c = C::is_null(row);
        assert(row.remaining() == at_a.skip((A::probed(at_a) + B::probed(at_b) + C::probed(at_c)) as int));
        let ghost at_d = at_c.skip(C::probed(at_c) as int);
        proof {
            D::lemma_within_row(at_d);
        }
        let null_d = D::is_null(row);
        assert(row.remaining() == at_a.skip((A::probed(at_a) + B::probed(at_b) + C::probed(at_c) + D::probed(at_d)) as int));
        let ghost at_e = at_d.skip(D::probed(at_d) as int);
        proof {
            E::lemma_within_row(at_e);
        }
        let null_e = E::is_null(row);
        assert(row.remaining() == at_a.skip((A::probed(at_a) + B::probed(at_b) + C::probed(at_c) + D::probed(at_d) + E::probed(at_e)) as int));
        let ghost at_f = at_e.skip(E::probed(at_e) as int);
        proof {
            F::lemma_within_row(at_f);
        }
        let null_f = F::is_null(row);
        assert(row.remaining() == at_a.skip((A::probed(at_a) + B::probed(at_b) + C::probed(at_c) + D::probed(at_d) + E::probed(at_e) + F::probed(at_f)) as int));
        let ghost at_g = at_f.skip(F::probed(at_f) as int);
        proof {
            G::lemma_within_row(at_g);
        }
        let null_g = G::is_null(row);
        assert(row.remaining() == at_a.skip((A::probed(at_a) + B::probed(at_b) + C::probed(at_c) + D::probed(at_d) + E::probed(at_e) + F::probed(at_f) + G::probed(at_g)) as int));
        let ghost at_h = at_g.skip(G::probed(at_g) as int);
        proof {
            H::lemma_within_row(at_h);
        }
        let null_h = H::is_null(row);
        assert(row.remaining() == at_a.skip((A::probed(at_a) + B::probed(at_b) + C::probed(at_c) + D::probed(at_d) + E::probed(at_e) + F::probed(at_f) + G::probed(at_g) + H::probed(at_h)) as int));
        null_a || null_b || null_c || null_d || null_e || null_f || null_g || null_h
    }
}

impl<A, B, C, D, E, F, G, H, SA, SB, SC, SD, SE, SF, SG, SH, DB> StaticallySizedRow<Typed<(SA, SB, SC, SD, SE, SF, SG, SH)>, DB> for (A, B, C, D, E, F, G, H) where
    DB: Backend,
    A: StaticallySizedRow<SA, DB>,
    B: StaticallySizedRow<SB, DB>,
    C: StaticallySizedRow<SC, DB>,
    D: StaticallySizedRow<SD, DB>,
    E: StaticallySizedRow<SE, DB>,
    F: StaticallySizedRow<SF, DB>,
    G: StaticallySizedRow<SG, DB>,
    H: StaticallySizedRow<SH, DB>,
 {
    const FIELD_COUNT: usize = A::FIELD_COUNT + B::FIELD_COUNT + C::FIELD_COUNT + D::FIELD_COUNT + E::FIELD_COUNT + F::FIELD_COUNT + G::FIELD_COUNT + H::FIELD_COUNT + 0;

    /// The sum of the elements' field counts.
    open spec fn field_count() -> nat {
        A::field_count() + B::field_count() + C::field_count() + D::field_count() + E::field_count() + F::field_count() + G::field_count() + H::field_count()
    }

    proof fn lemma_field_count() {
        A::lemma_field_count();
        B::lemma_field_count();
        C::lemma_field_count();
        D::lemma_field_count();
        E::lemma_field_count();
        F::lemma_field_count();
        G::lemma_field_count();
        H::lemma_field_count();
    }

    proof fn lemma_fixed_width(fields: Seq<FieldView<DB>>) {
        let at_a = fields;
        let in_a = fields;
        A::lemma_within_row(at_a);
        A::lemma_fixed_width(at_a);
        let at_b = at_a.skip(A::consumed(at_a) as int);
        let in_b = in_a.skip(A::probed(in_a) as int);
        B::lemma_within_row(in_b);
        B::lemma_fixed_width(in_b);
        let at_c = at_b.skip(B::consumed(at_b) as int);
        let in_c = in_b.skip(B::probed(in_b) as int);
        C::lemma_within_row(in_c);
        C::lemma_fixed_width(in_c);
        let at_d = at_c.skip(C::consumed(at_c) as int);
        let in_d = in_c.skip(C::probed(in_c) as int);
        D::lemma_within_row(in_d);
        D::lemma_fixed_width(in_d);
        let at_e = at_d.skip(D::consumed(at_d) as int);
        let in_e = in_d.skip(D::probed(in_d) as int);
        E::lemma_within_row(in_e);
        E::lemma_fixed_width(in_e);
        let at_f = at_e.skip(E::consumed(at_e) as int);
        let in_f = in_e.skip(E::probed(in_e) as int);
        F::lemma_within_row(in_f);
        F::lemma_fixed_width(in_f);
        let at_g = at_f.skip(F::consumed(at_f) as int);
        let in_g = in_f.skip(F::probed(in_f) as int);
        G::lemma_within_row(in_g);
        G::lemma_fixed_width(in_g);
        let at_h = at_g.skip(G::consumed(at_g) as int);
        let in_h = in_g.skip(G::probed(in_g) as int);
        H::lemma_within_row(in_h);
        H::lemma_fixed_width(in_h);
        if A::built(at_a) is Ok {
            B::lemma_within_row(at_b);
            B::lemma_fixed_width(at_b);
            if B::built(at_b) is Ok {
                C::lemma_within_row(at_c);
                C::lemma_fixed_width(at_c);
                if C::built(at_c) is Ok {
                    D::lemma_within_row(at_d);
                    D::lemma_fixed_width(at_d);
                    if D::built(at_d) is Ok {
                        E::lemma_within_row(at_e);
                        E::lemma_fixed_width(at_e);
                        if E::built(at_e) is Ok {
                            F::lemma_within_row(at_f);
                            F::lemma_fixed_width(at_f);
                            if F::built(at_f) is Ok {
                                G::lemma_within_row(at_g);
                                G::lemma_fixed_width(at_g);
                                if G::built(at_g) is Ok {
                                    H::lemma_within_row(at_h);
                                    H::lemma_fixed_width(at_h);
                                }
                            }
                        }
                    }
                }
            }
        }
    }
}

impl<A, B, C, D, E, F, G, H, I, SA, SB, SC, SD, SE, SF, SG, SH, SI, DB> FromSqlRow<Typed<(SA, SB, SC, SD, SE, SF, SG, SH, SI)>, DB> for (A, B, C, D, E, F, G, H, I) where
    DB: Backend,
    A: FromSqlRow<SA, DB> + StaticallySizedRow<SA, DB>,
    B: FromSqlRow<SB, DB> + StaticallySizedRow<SB, DB>,
    C: FromSqlRow<SC, DB> + StaticallySizedRow<SC, DB>,
    D: FromSqlRow<SD, DB> + StaticallySizedRow<SD, DB>,
    E: FromSqlRow<SE, DB> + StaticallySizedRow<SE, DB>,
    F: FromSqlRow<SF, DB> + StaticallySizedRow<SF, DB>,
    G: FromSqlRow<SG, DB> + StaticallySizedRow<SG, DB>,
    H: FromSqlRow<SH, DB> + StaticallySizedRow<SH, DB>,
    I: FromSqlRow<SI, DB>,
 {
    /// The elements in order, each built from what the ones before it left;
    /// the first failure is the tuple's.
    open spec fn built(fields: Seq<FieldView<DB>>) -> Outcome<(A::V, B::V, C::V, D::V, E::V, F::V, G::V, H::V, I::V)> {
        let at_a = fields;
        let at_b = at_a.skip(A::consumed(at_a) as int);
        let at_c = at_b.skip(B::consumed(at_b) as int);
        let at_d = at_c.skip(C::consumed(at_c) as int);
        let at_e = at_d.skip(D::consumed(at_d) as int);
        let at_f = at_e.skip(E::consumed(at_e) as int);
        let at_g = at_f.skip(F::consumed(at_f) as int);
        let at_h = at_g.skip(G::consumed(at_g) as int);
        let at_i = at_h.skip(H::consumed(at_h) as int);
        match A::built(at_a) {
            Err(fault) => Err(fault),
            Ok(a) => match B::built(at_b) {
                Err(fault) => Err(fault),
                Ok(b) => match C::built(at_c) {
                    Err(fault) => Err(fault),
                    Ok(c) => match D::built(at_d) {
                        Err(fault) => Err(fault),
                        Ok(d) => match E::built(at_e) {
                            Err(fault) => Err(fault),
                            Ok(e) => match F::built(at_f) {
                                Err(fault) => Err(fault),
                                Ok(f) => match G::built(at_g) {
                                    Err(fault) => Err(fault),
                                    Ok(g) => match H::built(at_h) {
                                        Err(fault) => Err(fault),
                                        Ok(h) => match I::built(at_i) {
                                            Err(fault) => Err(fault),
                                            Ok(i) => Ok((a, b, c, d, e, f, g, h, i)),
                                        },
                                    },
                                },
                            },
                        },
                    },
                },
            },
        }
    }

    /// What the elements moved past, up to and with the first that failed.
    open spec fn consumed(fields: Seq<FieldView<DB>>) -> nat {
        let at_a = fields;
        let at_b = at_a.skip(A::consumed(at_a) as int);
        let at_c = at_b.skip(B::consumed(at_b) as int);
        let at_d = at_c.skip(C::consumed(at_c) as int);
        let at_e = at_d.skip(D::consumed(at_d) as int);
        let at_f = at_e.skip(E::consumed(at_e) as int);
        let at_g = at_f.skip(F::consumed(at_f) as int);
        let at_h = at_g.skip(G::consumed(at_g) as int);
        let at_i = at_h.skip(H::consumed(at_h) as int);
        if A::built(at_a) is Err {
            A::consumed(at_a)
        } else if B::built(at_b) is Err {
            A::consumed(at_a) + B::consumed(at_b)
        } else if C::built(at_c) is Err {
            A::consumed(at_a) + B::consumed(at_b) + C::consumed(at_c)
        } else if D::built(at_d) is Err {
            A::consumed(at_a) + B::consumed(at_b) + C::consumed(at_c) + D::consumed(at_d)
        } else if E::built(at_e) is Err {
            A::consumed(at_a) + B::consumed(at_b) + C::consumed(at_c) + D::consumed(at_d) + E::consumed(at_e)
        } else if F::built(at_f) is Err {
            A::consumed(at_a) + B::consumed(at_b) + C::consumed(at_c) + D::consumed(at_d) + E::consumed(at_e) + F::consumed(at_f)
        } else if G::built(at_g) is Err {
            A::consumed(at_a) + B::consumed(at_b) + C::consumed(at_c) + D::consumed(at_d) + E::consumed(at_e) + F::consumed(at_f) + G::consumed(at_g)
        } else if H::built(at_h) is Err {
            A::consumed(at_a) + B::consumed(at_b) + C::consumed(at_c) + D::consumed(at_d) + E::consumed(at_e) + F::consumed(at_f) + G::consumed(at_g) + H::consumed(at_h)
        } else {
            A::consumed(at_a) + B::consumed(at_b) + C::consumed(at_c) + D::consumed(at_d) + E::consumed(at_e) + F::consumed(at_f) + G::consumed(at_g) + H::consumed(at_h) + I::consumed(at_i)
        }
    }

    /// A tuple is null as soon as one of its elements is.
    open spec fn null_in(fields: Seq<FieldView<DB>>) -> bool {
        let at_a = fields;
        let at_b = at_a.skip(A::probed(at_a) as int);
        let at_c = at_b.skip(B::probed(at_b) as int);
        let at_d = at_c.skip(C::probed(at_c) as int);
        let at_e = at_d.skip(D::probed(at_d) as int);
        let at_f = at_e.skip(E::probed(at_e) as int);
        let at_g = at_f.skip(F::probed(at_f) as int);
        let at_h = at_g.skip(G::probed(at_g) as int);
        let at_i = at_h.skip(H::probed(at_h) as int);
        A::null_in(at_a) || B::null_in(at_b) || C::null_in(at_c) || D::null_in(at_d) || E::null_in(at_e) || F::null_in(at_f) || G::null_in(at_g) || H::null_in(at_h) || I::null_in(at_i)
    }

    open spec fn probed(fields: Seq<FieldView<DB>>) -> nat {
        let at_a = fields;
        let at_b = at_a.skip(A::probed(at_a) as int);
        let at_c = at_b.skip(B::probed(at_b) as int);
        let at_d = at_c.skip(C::probed(at_c) as int);
        let at_e = at_d.skip(D::probed(at_d) as int);
        let at_f = at_e.skip(E::probed(at_e) as int);
        let at_g = at_f.skip(F::probed(at_f) as int);
        let at_h = at_g.skip(G::probed(at_g) as int);
        let at_i = at_h.skip(H::probed(at_h) as int);
        A::probed(at_a) + B::probed(at_b) + C::probed(at_c) + D::probed(at_d) + E::probed(at_e) + F::probed(at_f) + G::probed(at_g) + H::probed(at_h) + I::probed(at_i)
    }

    proof fn lemma_within_row(fields: Seq<FieldView<DB>>) {
        let at_a = fields;
        let in_a = fields;
        A::lemma_within_row(at_a);
        let at_b = at_a.skip(A::consumed(at_a) as int);
        let in_b = in_a.skip(A::probed(in_a) as int);
        B::lemma_within_row(at_b);
        B::lemma_within_row(in_b);
        let at_c = at_b.skip(B::consumed(at_b) as int);
        let in_c = in_b.skip(B::probed(in_b) as int);
        C::lemma_within_row(at_c);
        C::lemma_within_row(in_c);
        let at_d = at_c.skip(C::consumed(at_c) as int);
        let in_d = in_c.skip(C::probed(in_c) as int);
        D::lemma_within_row(at_d);
        D::lemma_within_row(in_d);
        let at_e = at_d.skip(D::consumed(at_d) as int);
        let in_e = in_d.skip(D::probed(in_d) as int);
        E::lemma_within_row(at_e);
        E::lemma_within_row(in_e);
        let at_f = at_e.skip(E::consumed(at_e) as int);
        let in_f = in_e.skip(E::probed(in_e) as int);
        F::lemma_within_row(at_f);
        F::lemma_within_row(in_f);
        let at_g = at_f.skip(F::consumed(at_f) as int);
        let in_g = in_f.skip(F::probed(in_f) as int);
        G::lemma_within_row(at_g);
        G::lemma_within_row(in_g);
        let at_h = at_g.skip(G::consumed(at_g) as int);
        let in_h = in_g.skip(G::probed(in_g) as int);
        H::lemma_within_row(at_h);
        H::lemma_within_row(in_h);
        let at_i = at_h.skip(H::consumed(at_h) as int);
        let in_i = in_h.skip(H::probed(in_h) as int);
        I::lemma_within_row(at_i);
        I::lemma_within_row(in_i);
    }

    fn build_from_row<'a, R: Row<'a, DB>>(row: &mut R) -> (result: Result<Self>) {
        let ghost at_a = row.remaining();
        proof {
            A::lemma_within_row(at_a);
        }
        let a = match A::build_from_row(row) {
            Ok(value) => value,
            Err(error) => {
                return Err(error);
            },
        };
        let ghost at_b = at_a.skip(A::consumed(at_a) as int);
        proof {
            B::lemma_within_row(at_b);
        }
        let b = match B::build_from_row(row) {
            Ok(value) => value,
            Err(error) => {
                assert(row.remaining() == at_a.skip(Self::consumed(at_a) as int));
                return Err(error);
            },
        };
        assert(row.remaining() == at_a.skip((A::consumed(at_a) + B::consumed(at_b)) as int));
        let ghost at_c = at_b.skip(B::consumed(at_b) as int);
        proof {
            C::lemma_within_row(at_c);
        }
        let c = match C::build_from_row(row) {
            Ok(value) => value,
            Err(error) => {
                assert(row.remaining() == at_a.skip(Self::consumed(at_a) as int));
                return Err(error);
            },
        };
        assert(row.remaining() == at_a.skip((A::consumed(at_a) + B::consumed(at_b) + C::consumed(at_c)) as int));
        let ghost at_d = at_c.skip(C::consumed(at_c) as int);
        proof {
            D::lemma_within_row(at_d);
        }
        let d = match D::build_from_row(row) {
            Ok(value) => value,
            Err(error) => {
                assert(row.remaining() == at_a.skip(Self::consumed(at_a) as int));
                return Err(error);
            },
        };
        assert(row.remaining() == at_a.skip((A::consumed(at_a) + B::consumed(at_b) + C::consumed(at_c) + D::consumed(at_d)) as int));
        let ghost at_e = at_d.skip(D::consumed(at_d) as int);
        proof {
            E::lemma_within_row(at_e);
        }
        let e = match E::build_from_row(row) {
            Ok(value) => value,
            Err(error) => {
                assert(row.remaining() == at_a.skip(Self::consumed(at_a) as int));
                return Err(error);
            },
        };
        assert(row.remaining() == at_a.skip((A::consumed(at_a) + B::consumed(at_b) + C::consumed(at_c) + D::consumed(at_d) + E::consumed(at_e)) as int));
        let ghost at_f = at_e.skip(E::consumed(at_e) as int);
        proof {
            F::lemma_within_row(at_f);
        }
        let f = match F::build_from_row(row) {
            Ok(value) => value,
            Err(error) => {
                assert(row.remaining() == at_a.skip(Self::consumed(at_a) as int));
                return Err(error);
            },
        };
        assert(row.remaining() == at_a.skip((A::consumed(at_a) + B::consumed(at_b) + C::consumed(at_c) + D::consumed(at_d) + E::consumed(at_e) + F::consumed(at_f)) as int));
        let ghost at_g = at_f.skip(F::consumed(at_f) as int);
        proof {
            G::lemma_within_row(at_g);
        }
        let g = match G::build_from_row(row) {
            Ok(value) => value,
            Err(error) => {
                assert(row.remaining() == at_a.skip(Self::consumed(at_a) as int));
                return Err(error);
            },
        };
        assert(row.remaining() == at_a.skip((A::consumed(at_a) + B::consumed(at_b) + C::consumed(at_c) + D::consumed(at_d) + E::consumed(at_e) + F::consumed(at_f) + G::consumed(at_g)) as int));
        let ghost at_h = at_g.skip(G::consumed(at_g) as int);
        proof {
            H::lemma_within_row(at_h);
        }
        let h = match H::build_from_row(row) {
            Ok(value) => value,
            Err(error) => {
                assert(row.remaining() == at_a.skip(Self::consumed(at_a) as int));
                return Err(error);
            },
        };
        assert(row.remaining() == at_a.skip((A::consumed(at_a) + B::consumed(at_b) + C::consumed(at_c) + D::consumed(at_d) + E::consumed(at_e) + F::consumed(at_f) + G::consumed(at_g) + H::consumed(at_h)) as int));
        let ghost at_i = at_h.skip(H::consumed(at_h) as int);
        proof {
            I::lemma_within_row(at_i);
        }
        let i = match I::build_from_row(row) {
            Ok(value) => value,
            Err(error) => {
                assert(row.remaining() == at_a.skip(Self::consumed(at_a) as int));
                return Err(error);
            },
        };
        assert(row.remaining() == at_a.skip((A::consumed(at_a) + B::consumed(at_b) + C::consumed(at_c) + D::consumed(at_d) + E::consumed(at_e) + F::consumed(at_f) + G::consumed(at_g) + H::consumed(at_h) + I::consumed(at_i)) as int));
        Ok((a, b, c, d, e, f, g, h, i))
    }

    fn is_null<'a, R: Row<'a, DB>>(row: &mut R) -> (null: bool) {
        let ghost at_a = row.remaining();
        proof {
            A::lemma_within_row(at_a);
        }
        let null_a = A::is_null(row);
        let ghost at_b = at_a.skip(A::probed(at_a) as int);
        proof {
            B::lemma_within_row(at_b);
        }
        let null_b = B::is_null(row);
        assert(row.remaining() == at_a.skip((A::probed(at_a) + B::probed(at_b)) as int));
        let ghost at_c = at_b.skip(B::probed(at_b) as int);
        proof {
            C::lemma_within_row(at_c);
        }
        let null_c = C::is_null(row);
        assert(row.remaining() == at_a.skip((A::probed(at_a) + B::probed(at_b) + C::probed(at_c)) as int));
        let ghost at_d = at_c.skip(C::probed(at_c) as int);
        proof {
            D::lemma_within_row(at_d);
        }
        let null_d = D::is_null(row);
        assert(row.remaining() == at_a.skip((A::probed(at_a) + B::probed(at_b) + C::probed(at_c) + D::probed(at_d)) as int));
        let ghost at_e = at_d.skip(D::probed(at_d) as int);
        proof {
            E::lemma_within_row(at_e);
        }
        let null_e = E::is_null(row);
        assert(row.remaining() == at_a.skip((A::probed(at_a) + B::probed(at_b) + C::probed(at_c) + D::probed(at_d) + E::probed(at_e)) as int));
        let ghost at_f = at_e.skip(E::probed(at_e) as int);
        proof {
            F::lemma_within_row(at_f);
        }
        let null_f = F::is_null(row);
        assert(row.remaining() == at_a.skip((A::probed(at_a) + B::probed(at_b) + C::probed(at_c) + D::probed(at_d) + E::probed(at_e) + F::probed(at_f)) as int));
        let ghost at_g = at_f.skip(F::probed(at_f) as int);
        proof {
            G::lemma_within_row(at_g);
        }
        let null_g = G::is_null(row);
        assert(row.remaining() == at_a.skip((A::probed(at_a) + B::probed(at_b) + C::probed(at_c) + D::probed(at_d) + E::probed(at_e) + F::probed(at_f) + G::probed(at_g)) as int));
        let ghost at_h = at_g.skip(G::probed(at_g) as int);
        proof {
            H::lemma_within_row(at_h);
        }
        let null_h = H::is_null(row);
        assert(row.remaining() == at_a.skip((A::probed(at_a) + B::probed(at_b) + C::probed(at_c) + D::probed(at_d) + E::probed(at_e) + F::probed(at_f) + G::probed(at_g) + H::probed(at_h)) as int));
        let ghost at_i = at_h.skip(H::probed(at_h) as int);
        proof {
            I::lemma_within_row(at_i);
        }
        let null_i = I::is_null(row);
        assert(row.remaining() == at_a.skip((A::probed(at_a) + B::probed(at_b) + C::probed(at_c) + D::probed(at_d) + E::probed(at_e) + F::probed(at_f) + G::probed(at_g) + H::probed(at_h) + I::probed(at_i)) as int));
        null_a || null_b || null_c || null_d || null_e || null_f || null_g || null_h || null_i
    }
}

impl<A, B, C, D, E, F, G, H, I, SA, SB, SC, SD, SE, SF, SG, SH, SI, DB> StaticallySizedRow<Typed<(SA, SB, SC, SD, SE, SF, SG, SH, SI)>, DB> for (A, B, C, D, E, F, G, H, I) where
    DB: Backend,
    A: StaticallySizedRow<SA, DB>,
    B: StaticallySizedRow<SB, DB>,
    C: StaticallySizedRow<SC, DB>,
    D: StaticallySizedRow<SD, DB>,
    E: StaticallySizedRow<SE, DB>,
    F: StaticallySizedRow<SF, DB>,
    G: StaticallySizedRow<SG, DB>,
    H: StaticallySizedRow<SH, DB>,
    I: StaticallySizedRow<SI, DB>,
 {
    const FIELD_COUNT: usize = A::FIELD_COUNT + B::FIELD_COUNT + C::FIELD_COUNT + D::FIELD_COUNT + E::FIELD_COUNT + F::FIELD_COUNT + G::FIELD_COUNT + H::FIELD_COUNT + I::FIELD_COUNT + 0;

    /// The sum of the elements' field counts.
    open spec fn field_count() -> nat {
        A::field_count() + B::field_count() + C::field_count() + D::field_count() + E::field_count() + F::field_count() + G::field_count() + H::field_count() + I::field_count()
    }

    proof fn lemma_field_count() {
        A::lemma_field_count();
        B::lemma_field_count();
        C::lemma_field_count();
        D::lemma_field_count();
        E::lemma_field_count();
        F::lemma_field_count();
        G::lemma_field_count();
        H::lemma_field_count();
        I::lemma_field_count();
    }

    proof fn lemma_fixed_width(fields: Seq<FieldView<DB>>) {
        let at_a = fields;
        let in_a = fields;
        A::lemma_within_row(at_a);
        A::lemma_fixed_width(at_a);
        let at_b = at_a.skip(A::consumed(at_a) as int);
        let in_b = in_a.skip(A::probed(in_a) as int);
        B::lemma_within_row(in_b);
        B::lemma_fixed_width(in_b);
        let at_c = at_b.skip(B::consumed(at_b) as int);
        let in_c = in_b.skip(B::probed(in_b) as int);
        C::lemma_within_row(in_c);
        C::lemma_fixed_width(in_c);
        let at_d = at_c.skip(C::consumed(at_c) as int);
        let in_d = in_c.skip(C::probed(in_c) as int);
        D::lemma_within_row(in_d);
        D::lemma_fixed_width(in_d);
        let at_e = at_d.skip(D::consumed(at_d) as int);
        let in_e = in_d.skip(D::probed(in_d) as int);
        E::lemma_within_row(in_e);
        E::lemma_fixed_width(in_e);
        let at_f = at_e.skip(E::consumed(at_e) as int);
        let in_f = in_e.skip(E::probed(in_e) as int);
        F::lemma_within_row(in_f);
        F::lemma_fixed_width(in_f);
        let at_g = at_f.skip(F::consumed(at_f) as int);
        let in_g = in_f.skip(F::probed(in_f) as int);
        G::lemma_within_row(in_g);
        G::lemma_fixed_width(in_g);
        let at_h = at_g.skip(G::consumed(at_g) as int);
        let in_h = in_g.skip(G::probed(in_g) as int);
        H::lemma_within_row(in_h);
        H::lemma_fixed_width(in_h);
        let at_i = at_h.skip(H::consumed(at_h) as int);
        let in_i = in_h.skip(H::probed(in_h) as int);
        I::lemma_within_row(in_i);
        I::lemma_fixed_width(in_i);
        if A::built(at_a) is Ok {
            B::lemma_within_row(at_b);
            B::lemma_fixed_width(at_b);
            if B::built(at_b) is Ok {
                C::lemma_within_row(at_c);
                C::lemma_fixed_width(at_c);
                if C::built(at_c) is Ok {
                    D::lemma_within_row(at_d);
                    D::lemma_fixed_width(at_d);
                    if D::built(at_d) is Ok {
                        E::lemma_within_row(at_e);
                        E::lemma_fixed_width(at_e);
                        if E::built(at_e) is Ok {
                            F::lemma_within_row(at_f);
                            F::lemma_fixed_width(at_f);
                            if F::built(at_f) is Ok {
                                G::lemma_within_row(at_g);
                                G::lemma_fixed_width(at_g);
                                if G::built(at_g) is Ok {
                                    H::lemma_within_row(at_h);
                                    H::lemma_fixed_width(at_h);
                                    if H::built(at_h) is Ok {
                                        I::lemma_within_row(at_i);
                                        I::lemma_fixed_width(at_i);
                                    }
                                }
                            }
                        }
                    }
                }
            }
        }
    }
}

impl<A, B, C, D, E, F, G, H, I, J, SA, SB, SC, SD, SE, SF, SG, SH, SI, SJ, DB> FromSqlRow<Typed<(SA, SB, SC, SD, SE, SF, SG, SH, SI, SJ)>, DB> for (A, B, C, D, E, F, G, H, I, J) where
    DB: Backend,
    A: FromSqlRow<SA, DB> + StaticallySizedRow<SA, DB>,
    B: FromSqlRow<SB, DB> + StaticallySizedRow<SB, DB>,
    C: FromSqlRow<SC, DB> + StaticallySizedRow<SC, DB>,
    D: FromSqlRow<SD, DB> + StaticallySizedRow<SD, DB>,
    E: FromSqlRow<SE, DB> + StaticallySizedRow<SE, DB>,
    F: FromSqlRow<SF, DB> + StaticallySizedRow<SF, DB>,
    G: FromSqlRow<SG, DB> + StaticallySizedRow<SG, DB>,
    H: FromSqlRow<SH, DB> + StaticallySizedRow<SH, DB>,
    I: FromSqlRow<SI, DB> + StaticallySizedRow<SI, DB>,
    J: FromSqlRow<SJ, DB>,
 {
    /// The elements in order, each built from what the ones before it left;
    /// the first failure is the tuple's.
    open spec fn built(fields: Seq<FieldView<DB>>) -> Outcome<(A::V, B::V, C::V, D::V, E::V, F::V, G::V, H::V, I::V, J::V)> {
        let at_a = fields;
        let at_b = at_a.skip(A::consumed(at_a) as int);
        let at_c = at_b.skip(B::consumed(at_b) as int);
        let at_d = at_c.skip(C::consumed(at_c) as int);
        let at_e = at_d.skip(D::consumed(at_d) as int);
        let at_f = at_e.skip(E::consumed(at_e) as int);
        let at_g = at_f.skip(F::consumed(at_f) as int);
        let at_h = at_g.skip(G::consumed(at_g) as int);
        let at_i = at_h.skip(H::consumed(at_h) as int);
        let at_j = at_i.skip(I::consumed(at_i) as int);
        match A::built(at_a) {
            Err(fault) => Err(fault),
            Ok(a) => match B::built(at_b) {
                Err(fault) => Err(fault),
                Ok(b) => match C::built(at_c) {
                    Err(fault) => Err(fault),
                    Ok(c) => match D::built(at_d) {
                        Err(fault) => Err(fault),
                        Ok(d) => match E::built(at_e) {
                            Err(fault) => Err(fault),
                            Ok(e) => match F::built(at_f) {
                                Err(fault) => Err(fault),
                                Ok(f) => match G::built(at_g) {
                                    Err(fault) => Err(fault),
                                    Ok(g) => match H::built(at_h) {
                                        Err(fault) => Err(fault),
                                        Ok(h) => match I::built(at_i) {
                                            Err(fault) => Err(fault),
                                            Ok(i) => match J::built(at_j) {
                                                Err(fault) => Err(fault),
                                                Ok(j) => Ok((a, b, c, d, e, f, g, h, i, j)),
                                            },
                                        },
                                    },
                                },
                            },
                        },
                    },
                },
            },
        }
    }

    /// What the elements moved past, up to and with the first that failed.
    open spec fn consumed(fields: Seq<FieldView<DB>>) -> nat {
        let at_a = fields;
        let at_b = at_a.skip(A::consumed(at_a) as int);
        let at_c = at_b.skip(B::consumed(at_b) as int);
        let at_d = at_c.skip(C::consumed(at_c) as int);
        let at_e = at_d.skip(D::consumed(at_d) as int);
        let at_f = at_e.skip(E::consumed(at_e) as int);
        let at_g = at_f.skip(F::consumed(at_f) as int);
        let at_h = at_g.skip(G::consumed(at_g) as int);
        let at_i = at_h.skip(H::consumed(at_h) as int);
        let at_j = at_i.skip(I::consumed(at_i) as int);
        if A::built(at_a) is Err {
            A::consumed(at_a)
        } else if B::built(at_b) is Err {
            A::consumed(at_a) + B::consumed(at_b)
        } else if C::built(at_c) is Err {
            A::consumed(at_a) + B::consumed(at_b) + C::consumed(at_c)
        } else if D::built(at_d) is Err {
            A::consumed(at_a) + B::consumed(at_b) + C::consumed(at_c) + D::consumed(at_d)
        } else if E::built(at_e) is Err {
            A::consumed(at_a) + B::consumed(at_b) + C::consumed(at_c) + D::consumed(at_d) + E::consumed(at_e)
        } else if F::built(at_f) is Err {
            A::consumed(at_a) + B::consumed(at_b) + C::consumed(at_c) + D::consumed(at_d) + E::consumed(at_e) + F::consumed(at_f)
        } else if G::built(at_g) is Err {
            A::consumed(at_a) + B::consumed(at_b) + C::consumed(at_c) + D::consumed(at_d) + E::consumed(at_e) + F::consumed(at_f) + G::consumed(at_g)
        } else if H::built(at_h) is Err {
            A::consumed(at_a) + B::consumed(at_b) + C::consumed(at_c) + D::consumed(at_d) + E::consumed(at_e) + F::consumed(at_f) + G::consumed(at_g) + H::consumed(at_h)
        } else if I::built(at_i) is Err {
            A::consumed(at_a) + B::consumed(at_b) + C::consumed(at_c) + D::consumed(at_d) + E::consumed(at_e) + F::consumed(at_f) + G::consumed(at_g) + H::consumed(at_h) + I::consumed(at_i)
        } else {
            A::consumed(at_a) + B::consumed(at_b) + C::consumed(at_c) + D::consumed(at_d) + E::consumed(at_e) + F::consumed(at_f) + G::consumed(at_g) + H::consumed(at_h) + I::consumed(at_i) + J::consumed(at_j)
        }
    }

    /// A tuple is null as soon as one of its elements is.
    open spec fn null_in(fields: Seq<FieldView<DB>>) -> bool {
        let at_a = fields;
        let at_b = at_a.skip(A::probed(at_a) as int);
        let at_c = at_b.skip(B::probed(at_b) as int);
        let at_d = at_c.skip(C::probed(at_c) as int);
        let at_e = at_d.skip(D::probed(at_d) as int);
        let at_f = at_e.skip(E::probed(at_e) as int);
        let at_g = at_f.skip(F::probed(at_f) as int);
        let at_h = at_g.skip(G::probed(at_g) as int);
        let at_i = at_h.skip(H::probed(at_h) as int);
        let at_j = at_i.skip(I::probed(at_i) as int);
        A::null_in(at_a) || B::null_in(at_b) || C::null_in(at_c) || D::null_in(at_d) || E::null_in(at_e) || F::null_in(at_f) || G::null_in(at_g) || H::null_in(at_h) || I::null_in(at_i) || J::null_in(at_j)
    }

    open spec fn probed(fields: Seq<FieldView<DB>>) -> nat {
        let at_a = fields;
        let at_b = at_a.skip(A::probed(at_a) as int);
        let at_c = at_b.skip(B::probed(at_b) as int);
        let at_d = at_c.skip(C::probed(at_c) as int);
        let at_e = at_d.skip(D::probed(at_d) as int);
        let at_f = at_e.skip(E::probed(at_e) as int);
        let at_g = at_f.skip(F::probed(at_f) as int);
        let at_h = at_g.skip(G::probed(at_g) as int);
        let at_i = at_h.skip(H::probed(at_h) as int);
        let at_j = at_i.skip(I::probed(at_i) as int);
        A::probed(at_a) + B::probed(at_b) + C::probed(at_c) + D::probed(at_d) + E::probed(at_e) + F::probed(at_f) + G::probed(at_g) + H::probed(at_h) + I::probed(at_i) + J::probed(at_j)
    }

    proof fn lemma_within_row(fields: Seq<FieldView<DB>>) {
        let at_a = fields;
        let in_a = fields;
        A::lemma_within_row(at_a);
        let at_b = at_a.skip(A::consumed(at_a) as int);
        let in_b = in_a.skip(A::probed(in_a) as int);
        B::lemma_within_row(at_b);
        B::lemma_within_row(in_b);
        let at_c = at_b.skip(B::consumed(at_b) as int);
        let in_c = in_b.skip(B::probed(in_b) as int);
        C::lemma_within_row(at_c);
        C::lemma_within_row(in_c);
        let at_d = at_c.skip(C::consumed(at_c) as int);
        let in_d = in_c.skip(C::probed(in_c) as int);
        D::lemma_within_row(at_d);
        D::lemma_within_row(in_d);
        let at_e = at_d.skip(D::consumed(at_d) as int);
        let in_e = in_d.skip(D::probed(in_d) as int);
        E::lemma_within_row(at_e);
        E::lemma_within_row(in_e);
        let at_f = at_e.skip(E::consumed(at_e) as int);
        let in_f = in_e.skip(E::probed(in_e) as int);
        F::lemma_within_row(at_f);
        F::lemma_within_row(in_f);
        let at_g = at_f.skip(F::consumed(at_f) as int);
        let in_g = in_f.skip(F::probed(in_f) as int);
        G::lemma_within_row(at_g);
        G::lemma_within_row(in_g);
        let at_h = at_g.skip(G::consumed(at_g) as int);
        let in_h = in_g.skip(G::probed(in_g) as int);
        H::lemma_within_row(at_h);
        H::lemma_within_row(in_h);
        let at_i = at_h.skip(H::consumed(at_h) as int);
        let in_i = in_h.skip(H::probed(in_h) as int);
        I::lemma_within_row(at_i);
        I::lemma_within_row(in_i);
        let at_j = at_i.skip(I::consumed(at_i) as int);
        let in_j = in_i.skip(I::probed(in_i) as int);
        J::lemma_within_row(at_j);
        J::lemma_within_row(in_j);
    }

    fn build_from_row<'a, R: Row<'a, DB>>(row: &mut R) -> (result: Result<Self>) {
        let ghost at_a = row.remaining();
        proof {
            A::lemma_within_row(at_a);
        }
        let a = match A::build_from_row(row) {
            Ok(value) => value,
            Err(error) => {
                return Err(error);
            },
        };
        let ghost at_b = at_a.skip(A::consumed(at_a) as int);
        proof {
            B::lemma_within_row(at_b);
        }
        let b = match B::build_from_row(row) {
            Ok(value) => value,
            Err(error) => {
                assert(row.remaining() == at_a.skip(Self::consumed(at_a) as int));
                return Err(error);
            },
        };
        assert(row.remaining() == at_a.skip((A::consumed(at_a) + B::consumed(at_b)) as int));
        let ghost at_c = at_b.skip(B::consumed(at_b) as int);
        proof {
            C::lemma_within_row(at_c);
        }
        let c = match C::build_from_row(row) {
            Ok(value) => value,
            Err(error) => {
                assert(row.remaining() == at_a.skip(Self::consumed(at_a) as int));
                return Err(error);
            },
        };
        assert(row.remaining() == at_a.skip((A::consumed(at_a) + B::consumed(at_b) + C::consumed(at_c)) as int));
        let ghost at_d = at_c.skip(C::consumed(at_c) as int);
        proof {
            D::lemma_within_row(at_d);
        }
        let d = match D::build_from_row(row) {
            Ok(value) => value,
            Err(error) => {
                assert(row.remaining() == at_a.skip(Self::consumed(at_a) as int));
                return Err(error);
            },
        };
        assert(row.remaining() == at_a.skip((A::consumed(at_a) + B::consumed(at_b) + C::consumed(at_c) + D::consumed(at_d)) as int));
        let ghost at_e = at_d.skip(D::consumed(at_d) as int);
        proof {
            E::lemma_within_row(at_e);
        }
        let e = match E::build_from_row(row) {
            Ok(value) => value,
            Err(error) => {
                assert(row.remaining() == at_a.skip(Self::consumed(at_a) as int));
                return Err(error);
            },
        };
        assert(row.remaining() == at_a.skip((A::consumed(at_a) + B::consumed(at_b) + C::consumed(at_c) + D::consumed(at_d) + E::consumed(at_e)) as int));
        let ghost at_f = at_e.skip(E::consumed(at_e) as int);
        proof {
            F::lemma_within_row(at_f);
        }
        let f = match F::build_from_row(row) {
            Ok(value) => value,
            Err(error) => {
                assert(row.remaining() == at_a.skip(Self::consumed(at_a) as int));
                return Err(error);
            },
        };
        assert(row.remaining() == at_a.skip((A::consumed(at_a) + B::consumed(at_b) + C::consumed(at_c) + D::consumed(at_d) + E::consumed(at_e) + F::consumed(at_f)) as int));
        let ghost at_g = at_f.skip(F::consumed(at_f) as int);
        proof {
            G::lemma_within_row(at_g);
        }
        let g = match G::build_from_row(row) {
            Ok(value) => value,
            Err(error) => {
                assert(row.remaining() == at_a.skip(Self::consumed(at_a) as int));
                return Err(error);
            },
        };
        assert(row.remaining() == at_a.skip((A::consumed(at_a) + B::consumed(at_b) + C::consumed(at_c) + D::consumed(at_d) + E::consumed(at_e) + F::consumed(at_f) + G::consumed(at_g)) as int));
        let ghost at_h = at_g.skip(G::consumed(at_g) as int);
        proof {
            H::lemma_within_row(at_h);
        }
        let h = match H::build_from_row(row) {
            Ok(value) => value,
            Err(error) => {
                assert(row.remaining() == at_a.skip(Self::consumed(at_a) as int));
                return Err(error);
            },
        };
        assert(row.remaining() == at_a.skip((A::consumed(at_a) + B::consumed(at_b) + C::consumed(at_c) + D::consumed(at_d) + E::consumed(at_e) + F::consumed(at_f) + G::consumed(at_g) + H::consumed(at_h)) as int));
        let ghost at_i = at_h.skip(H::consumed(at_h) as int);
        proof {
            I::lemma_within_row(at_i);
        }
        let i = match I::build_from_row(row) {
            Ok(value) => value,
            Err(error) => {
                assert(row.remaining() == at_a.skip(Self::consumed(at_a) as int));
                return Err(error);
            },
        };
        assert(row.remaining() == at_a.skip((A::consumed(at_a) + B::consumed(at_b) + C::consumed(at_c) + D::consumed(at_d) + E::consumed(at_e) + F::consumed(at_f) + G::consumed(at_g) + H::consumed(at_h) + I::consumed(at_i)) as int));
        let ghost at_j = at_i.skip(I::consumed(at_i) as int);
        proof {
            J::lemma_within_row(at_j);
        }
        let j = match J::build_from_row(row) {
            Ok(value) => value,
            Err(error) => {
                assert(row.remaining() == at_a.skip(Self::consumed(at_a) as int));
                return Err(error);
            },
        };
        assert(row.remaining() == at_a.skip((A::consumed(at_a) + B::consumed(at_b) + C::consumed(at_c) + D::consumed(at_d) + E::consumed(at_e) + F::consumed(at_f) + G::consumed(at_g) + H::consumed(at_h) + I::consumed(at_i) + J::consumed(at_j)) as int));
        Ok((a, b, c, d, e, f, g, h, i, j))
    }

    fn is_null<'a, R: Row<'a, DB>>(row: &mut R) -> (null: bool) {
        let ghost at_a = row.remaining();
        proof {
            A::lemma_within_row(at_a);
        }
        let null_a = A::is_null(row);
        let ghost at_b = at_a.skip(A::probed(at_a) as int);
        proof {
            B::lemma_within_row(at_b);
        }
        let null_b = B::is_null(row);
        assert(row.remaining() == at_a.skip((A::probed(at_a) + B::probed(at_b)) as int));
        let ghost at_c = at_b.skip(B::probed(at_b) as int);
        proof {
            C::lemma_within_row(at_c);
        }
        let null_c = C::is_null(row);
        assert(row.remaining() == at_a.skip((A::probed(at_a) + B::probed(at_b) + C::probed(at_c)) as int));
        let ghost at_d = at_c.skip(C::probed(at_c) as int);
        proof {
            D::lemma_within_row(at_d);
        }
        let null_d = D::is_null(row);
        assert(row.remaining() == at_a.skip((A::probed(at_a) + B::probed(at_b) + C::probed(at_c) + D::probed(at_d)) as int));
        let ghost at_e = at_d.skip(D::probed(at_d) as int);
        proof {
            E::lemma_within_row(at_e);
        }
        let null_e = E::is_null(row);
        assert(row.remaining() == at_a.skip((A::probed(at_a) + B::probed(at_b) + C::probed(at_c) + D::probed(at_d) + E::probed(at_e)) as int));
        let ghost at_f = at_e.skip(E::probed(at_e) as int);
        proof {
            F::lemma_within_row(at_f);
        }
        let null_f = F::is_null(row);
        assert(row.remaining() == at_a.skip((A::probed(at_a) + B::probed(at_b) + C::probed(at_c) + D::probed(at_d) + E::probed(at_e) + F::probed(at_f)) as int));
        let ghost at_g = at_f.skip(F::probed(at_f) as int);
        proof {
            G::lemma_within_row(at_g);
        }
        let null_g = G::is_null(row);
        assert(row.remaining() == at_a.skip((A::probed(at_a) + B::probed(at_b) + C::probed(at_c) + D::probed(at_d) + E::probed(at_e) + F::probed(at_f) + G::probed(at_g)) as int));
        let ghost at_h = at_g.skip(G::probed(at_g) as int);
        proof {
            H::lemma_within_row(at_h);
        }
        let null_h = H::is_null(row);
        assert(row.remaining() == at_a.skip((A::probed(at_a) + B::probed(at_b) + C::probed(at_c) + D::probed(at_d) + E::probed(at_e) + F::probed(at_f) + G::probed(at_g) + H::probed(at_h)) as int));
        let ghost at_i = at_h.skip(H::probed(at_h) as int);
        proof {
            I::lemma_within_row(at_i);
        }
        let null_i = I::is_null(row);
        assert(row.remaining() == at_a.skip((A::probed(at_a) + B::probed(at_b) + C::probed(at_c) + D::probed(at_d) + E::probed(at_e) + F::probed(at_f) + G::probed(at_g) + H::probed(at_h) + I::probed(at_i)) as int));
        let ghost at_j = at_i.skip(I::probed(at_i) as int);
        proof {
            J::lemma_within_row(at_j);
        }
        let null_j = J::is_null(row);
        assert(row.remaining() == at_a.skip((A::probed(at_a) + B::probed(at_b) + C::probed(at_c) + D::probed(at_d) + E::probed(at_e) + F::probed(at_f) + G::probed(at_g) + H::probed(at_h) + I::probed(at_i) + J::probed(at_j)) as int));
        null_a || null_b || null_c || null_d || null_e || null_f || null_g || null_h || null_i || null_j
    }
}

impl<A, B, C, D, E, F, G, H, I, J, SA, SB, SC, SD, SE, SF, SG, SH, SI, SJ, DB> StaticallySizedRow<Typed<(SA, SB, SC, SD, SE, SF, SG, SH, SI, SJ)>, DB> for (A, B, C, D, E, F, G, H, I, J) where
    DB: Backend,
    A: StaticallySizedRow<SA, DB>,
    B: StaticallySizedRow<SB, DB>,
    C: StaticallySizedRow<SC, DB>,
    D: StaticallySizedRow<SD, DB>,
    E: StaticallySizedRow<SE, DB>,
    F: StaticallySizedRow<SF, DB>,
    G: StaticallySizedRow<SG, DB>,
    H: StaticallySizedRow<SH, DB>,
    I: StaticallySizedRow<SI, DB>,
    J: StaticallySizedRow<SJ, DB>,
 {
    const FIELD_COUNT: usize = A::FIELD_COUNT + B::FIELD_COUNT + C::FIELD_COUNT + D::FIELD_COUNT + E::FIELD_COUNT + F::FIELD_COUNT + G::FIELD_COUNT + H::FIELD_COUNT + I::FIELD_COUNT + J::FIELD_COUNT + 0;

    /// The sum of the elements' field counts.
    open spec fn field_count() -> nat {
        A::field_count() + B::field_count() + C::field_count() + D::field_count() + E::field_count() + F::field_count() + G::field_count() + H::field_count() + I::field_count() + J::field_count()
    }

    proof fn lemma_field_count() {
        A::lemma_field_count();
        B::lemma_field_count();
        C::lemma_field_count();
        D::lemma_field_count();
        E::lemma_field_count();
        F::lemma_field_count();
        G::lemma_field_count();
        H::lemma_field_count();
        I::lemma_field_count();
        J::lemma_field_count();
    }

    proof fn lemma_fixed_width(fields: Seq<FieldView<DB>>) {
        let at_a = fields;
        let in_a = fields;
        A::lemma_within_row(at_a);
        A::lemma_fixed_width(at_a);
        let at_b = at_a.skip(A::consumed(at_a) as int);
        let in_b = in_a.skip(A::probed(in_a) as int);
        B::lemma_within_row(in_b);
        B::lemma_fixed_width(in_b);
        let at_c = at_b.skip(B::consumed(at_b) as int);
        let in_c = in_b.skip(B::probed(in_b) as int);
        C::lemma_within_row(in_c);
        C::lemma_fixed_width(in_c);
        let at_d = at_c.skip(C::consumed(at_c) as int);
        let in_d = in_c.skip(C::probed(in_c) as int);
        D::lemma_within_row(in_d);
        D::lemma_fixed_width(in_d);
        let at_e = at_d.skip(D::consumed(at_d) as int);
        let in_e = in_d.skip(D::probed(in_d) as int);
        E::lemma_within_row(in_e);
        E::lemma_fixed_width(in_e);
        let at_f = at_e.skip(E::consumed(at_e) as int);
        let in_f = in_e.skip(E::probed(in_e) as int);
        F::lemma_within_row(in_f);
        F::lemma_fixed_width(in_f);
        let at_g = at_f.skip(F::consumed(at_f) as int);
        let in_g = in_f.skip(F::probed(in_f) as int);
        G::lemma_within_row(in_g);
        G::lemma_fixed_width(in_g);
        let at_h = at_g.skip(G::consumed(at_g) as int);
        let in_h = in_g.skip(G::probed(in_g) as int);
        H::lemma_within_row(in_h);
        H::lemma_fixed_width(in_h);
        let at_i = at_h.skip(H::consumed(at_h) as int);
        let in_i = in_h.skip(H::probed(in_h) as int);
        I::lemma_within_row(in_i);
        I::lemma_fixed_width(in_i);
        let at_j = at_i.skip(I::consumed(at_i) as int);
        let in_j = in_i.skip(I::probed(in_i) as int);
        J::lemma_within_row(in_j);
        J::lemma_fixed_width(in_j);
        if A::built(at_a) is Ok {
            B::lemma_within_row(at_b);
            B::lemma_fixed_width(at_b);
            if B::built(at_b) is Ok {
                C::lemma_within_row(at_c);
                C::lemma_fixed_width(at_c);
                if C::built(at_c) is Ok {
                    D::lemma_within_row(at_d);
                    D::lemma_fixed_width(at_d);
                    if D::built(at_d) is Ok {
                        E::lemma_within_row(at_e);
                        E::lemma_fixed_width(at_e);
                        if E::built(at_e) is Ok {
                            F::lemma_within_row(at_f);
                            F::lemma_fixed_width(at_f);
                            if F::built(at_f) is Ok {
                                G::lemma_within_row(at_g);
                                G::lemma_fixed_width(at_g);
                                if G::built(at_g) is Ok {
                                    H::lemma_within_row(at_h);
                                    H::lemma_fixed_width(at_h);
                                    if H::built(at_h) is Ok {
                                        I::lemma_within_row(at_i);
                                        I::lemma_fixed_width(at_i);
                                        if I::built(at_i) is Ok {
                                            J::lemma_within_row(at_j);
                                            J::lemma_fixed_width(at_j);
                                        }
                                    }
                                }
                            }
                        }
                    }
                }
            }
        }
    }
}

impl<A, B, C, D, E, F, G, H, I, J, K, SA, SB, SC, SD, SE, SF, SG, SH, SI, SJ, SK, DB> FromSqlRow<Typed<(SA, SB, SC, SD, SE, SF, SG, SH, SI, SJ, SK)>, DB> for (A, B, C, D, E, F, G, H, I, J, K) where
    DB: Backend,
    A: FromSqlRow<SA, DB> + StaticallySizedRow<SA, DB>,
    B: FromSqlRow<SB, DB> + StaticallySizedRow<SB, DB>,
    C: FromSqlRow<SC, DB> + StaticallySizedRow<SC, DB>,
    D: FromSqlRow<SD, DB> + StaticallySizedRow<SD, DB>,
    E: FromSqlRow<SE, DB> + StaticallySizedRow<SE, DB>,
    F: FromSqlRow<SF, DB> + StaticallySizedRow<SF, DB>,
    G: FromSqlRow<SG, DB> + StaticallySizedRow<SG, DB>,
    H: FromSqlRow<SH, DB> + StaticallySizedRow<SH, DB>,
    I: FromSqlRow<SI, DB> + StaticallySizedRow<SI, DB>,
    J: FromSqlRow<SJ, DB> + StaticallySizedRow<SJ, DB>,
    K: FromSqlRow<SK, DB>,
 {
    /// The elements in order, each built from what the ones before it left;
    /// the first failure is the tuple's.
    open spec fn built(fields: Seq<FieldView<DB>>) -> Outcome<(A::V, B::V, C::V, D::V, E::V, F::V, G::V, H::V, I::V, J::V, K::V)> {
        let at_a = fields;
        let at_b = at_a.skip(A::consumed(at_a) as int);
        let at_c = at_b.skip(B::consumed(at_b) as int);
        let at_d = at_c.skip(C::consumed(at_c) as int);
        let at_e = at_d.skip(D::consumed(at_d) as int);
        let at_f = at_e.skip(E::consumed(at_e) as int);
        let at_g = at_f.skip(F::consumed(at_f) as int);
        let at_h = at_g.skip(G::consumed(at_g) as int);
        let at_i = at_h.skip(H::consumed(at_h) as int);
        let at_j = at_i.skip(I::consumed(at_i) as int);
        let at_k = at_j.skip(J::consumed(at_j) as int);
        match A::built(at_a) {
            Err(fault) => Err(fault),
            Ok(a) => match B::built(at_b) {
                Err(fault) => Err(fault),
                Ok(b) => match C::built(at_c) {
                    Err(fault) => Err(fault),
                    Ok(c) => match D::built(at_d) {
                        Err(fault) => Err(fault),
                        Ok(d) => match E::built(at_e) {
                            Err(fault) => Err(fault),
                            Ok(e) => match F::built(at_f) {
                                Err(fault) => Err(fault),
                                Ok(f) => match G::built(at_g) {
                                    Err(fault) => Err(fault),
                                    Ok(g) => match H::built(at_h) {
                                        Err(fault) => Err(fault),
                                        Ok(h) => match I::built(at_i) {
                                            Err(fault) => Err(fault),
                                            Ok(i) => match J::built(at_j) {
                                                Err(fault) => Err(fault),
                                                Ok(j) => match K::built(at_k) {
                                                    Err(fault) => Err(fault),
                                                    Ok(k) => Ok((a, b, c, d, e, f, g, h, i, j, k)),
                                                },
                                            },
                                        },
                                    },
                                },
                            },
                        },
                    },
                },
            },
        }
    }

    /// What the elements moved past, up to and with the first that failed.
    open spec fn consumed(fields: Seq<FieldView<DB>>) -> nat {
        let at_a = fields;
        let at_b = at_a.skip(A::consumed(at_a) as int);
        let at_c = at_b.skip(B::consumed(at_b) as int);
        let at_d = at_c.skip(C::consumed(at_c) as int);
        let at_e = at_d.skip(D::consumed(at_d) as int);
        let at_f = at_e.skip(E::consumed(at_e) as int);
        let at_g = at_f.skip(F::consumed(at_f) as int);
        let at_h = at_g.skip(G::consumed(at_g) as int);
        let at_i = at_h.skip(H::consumed(at_h) as int);
        let at_j = at_i.skip(I::consumed(at_i) as int);
        let at_k = at_j.skip(J::consumed(at_j) as int);
        if A::built(at_a) is Err {
            A::consumed(at_a)
        } else if B::built(at_b) is Err {
            A::consumed(at_a) + B::consumed(at_b)
        } else if C::built(at_c) is Err {
            A::consumed(at_a) + B::consumed(at_b) + C::consumed(at_c)
        } else if D::built(at_d) is Err {
            A::consumed(at_a) + B::consumed(at_b) + C::consumed(at_c) + D::consumed(at_d)
        } else if E::built(at_e) is Err {
            A::consumed(at_a) + B::consumed(at_b) + C::consumed(at_c) + D::consumed(at_d) + E::consumed(at_e)
        } else if F::built(at_f) is Err {
            A::consumed(at_a) + B::consumed(at_b) + C::consumed(at_c) + D::consumed(at_d) + E::consumed(at_e) + F::consumed(at_f)
        } else if G::built(at_g) is Err {
            A::consumed(at_a) + B::consumed(at_b) + C::consumed(at_c) + D::consumed(at_d) + E::consumed(at_e) + F::consumed(at_f) + G::consumed(at_g)
        } else if H::built(at_h) is Err {
            A::consumed(at_a) + B::consumed(at_b) + C::consumed(at_c) + D::consumed(at_d) + E::consumed(at_e) + F::consumed(at_f) + G::consumed(at_g) + H::consumed(at_h)
        } else if I::built(at_i) is Err {
            A::consumed(at_a) + B::consumed(at_b) + C::consumed(at_c) + D::consumed(at_d) + E::consumed(at_e) + F::consumed(at_f) + G::consumed(at_g) + H::consumed(at_h) + I::consumed(at_i)
        } else if J::built(at_j) is Err {
            A::consumed(at_a) + B::consumed(at_b) + C::consumed(at_c) + D::consumed(at_d) + E::consumed(at_e) + F::consumed(at_f) + G::consumed(at_g) + H::consumed(at_h) + I::consumed(at_i) + J::consumed(at_j)
        } else {
            A::consumed(at_a) + B::consumed(at_b) + C::consumed(at_c) + D::consumed(at_d) + E::consumed(at_e) + F::consumed(at_f) + G::consumed(at_g) + H::consumed(at_h) + I::consumed(at_i) + J::consumed(at_j) + K::consumed(at_k)
        }
    }

    /// A tuple is null as soon as one of its elements is.
    open spec fn null_in(fields: Seq<FieldView<DB>>) -> bool {
        let at_a = fields;
        let at_b = at_a.skip(A::probed(at_a) as int);
        let at_c = at_b.skip(B::probed(at_b) as int);
        let at_d = at_c.skip(C::probed(at_c) as int);
        let at_e = at_d.skip(D::probed(at_d) as int);
        let at_f = at_e.skip(E::probed(at_e) as int);
        let at_g = at_f.skip(F::probed(at_f) as int);
        let at_h = at_g.skip(G::probed(at_g) as int);
        let at_i = at_h.skip(H::probed(at_h) as int);
        let at_j = at_i.skip(I::probed(at_i) as int);
        let at_k = at_j.skip(J::probed(at_j) as int);
        A::null_in(at_a) || B::null_in(at_b) || C::null_in(at_c) || D::null_in(at_d) || E::null_in(at_e) || F::null_in(at_f) || G::null_in(at_g) || H::null_in(at_h) || I::null_in(at_i) || J::null_in(at_j) || K::null_in(at_k)
    }

    open spec fn probed(fields: Seq<FieldView<DB>>) -> nat {
        let at_a = fields;
        let at_b = at_a.skip(A::probed(at_a) as int);
        let at_c = at_b.skip(B::probed(at_b) as int);
        let at_d = at_c.skip(C::probed(at_c) as int);
        let at_e = at_d.skip(D::probed(at_d) as int);
        let at_f = at_e.skip(E::probed(at_e) as int);
        let at_g = at_f.skip(F::probed(at_f) as int);
        let at_h = at_g.skip(G::probed(at_g) as int);
        let at_i = at_h.skip(H::probed(at_h) as int);
        let at_j = at_i.skip(I::probed(at_i) as int);
        let at_k = at_j.skip(J::probed(at_j) as int);
        A::probed(at_a) + B::probed(at_b) + C::probed(at_c) + D::probed(at_d) + E::probed(at_e) + F::probed(at_f) + G::probed(at_g) + H::probed(at_h) + I::probed(at_i) + J::probed(at_j) + K::probed(at_k)
    }

    proof fn lemma_within_row(fields: Seq<FieldView<DB>>) {
        let at_a = fields;
        let in_a = fields;
        A::lemma_within_row(at_a);
        let at_b = at_a.skip(A::consumed(at_a) as int);
        let in_b = in_a.skip(A::probed(in_a) as int);
        B::lemma_within_row(at_b);
        B::lemma_within_row(in_b);
        let at_c = at_b.skip(B::consumed(at_b) as int);
        let in_c = in_b.skip(B::probed(in_b) as int);
        C::lemma_within_row(at_c);
        C::lemma_within_row(in_c);
        let at_d = at_c.skip(C::consumed(at_c) as int);
        let in_d = in_c.skip(C::probed(in_c) as int);
        D::lemma_within_row(at_d);
        D::lemma_within_row(in_d);
        let at_e = at_d.skip(D::consumed(at_d) as int);
        let in_e = in_d.skip(D::probed(in_d) as int);
        E::lemma_within_row(at_e);
        E::lemma_within_row(in_e);
        let at_f = at_e.skip(E::consumed(at_e) as int);
        let in_f = in_e.skip(E::probed(in_e) as int);
        F::lemma_within_row(at_f);
        F::lemma_within_row(in_f);
        let at_g = at_f.skip(F::consumed(at_f) as int);
        let in_g = in_f.skip(F::probed(in_f) as int);
        G::lemma_within_row(at_g);
        G::lemma_within_row(in_g);
        let at_h = at_g.skip(G::consumed(at_g) as int);
        let in_h = in_g.skip(G::probed(in_g) as int);
        H::lemma_within_row(at_h);
        H::lemma_within_row(in_h);
        let at_i = at_h.skip(H::consumed(at_h) as int);
        let in_i = in_h.skip(H::probed(in_h) as int);
        I::lemma_within_row(at_i);
        I::lemma_within_row(in_i);
        let at_j = at_i.skip(I::consumed(at_i) as int);
        let in_j = in_i.skip(I::probed(in_i) as int);
        J::lemma_within_row(at_j);
        J::lemma_within_row(in_j);
        let at_k = at_j.skip(J::consumed(at_j) as int);
        let in_k = in_j.skip(J::probed(in_j) as int);
        K::lemma_within_row(at_k);
        K::lemma_within_row(in_k);
    }

    fn build_from_row<'a, R: Row<'a, DB>>(row: &mut R) -> (result: Result<Self>) {
        let ghost at_a = row.remaining();
        proof {
            A::lemma_within_row(at_a);
        }
        let a = match A::build_from_row(row) {
            Ok(value) => value,
            Err(error) => {
                return Err(error);
            },
        };
        let ghost at_b = at_a.skip(A::consumed(at_a) as int);
        proof {
            B::lemma_within_row(at_b);
        }
        let b = match B::build_from_row(row) {
            Ok(value) => value,
            Err(error) => {
                assert(row.remaining() == at_a.skip(Self::consumed(at_a) as int));
                return Err(error);
            },
        };
        assert(row.remaining() == at_a.skip((A::consumed(at_a) + B::consumed(at_b)) as int));
        let ghost at_c = at_b.skip(B::consumed(at_b) as int);
        proof {
            C::lemma_within_row(at_c);
        }
        let c = match C::build_from_row(row) {
            Ok(value) => value,
            Err(error) => {
                assert(row.remaining() == at_a.skip(Self::consumed(at_a) as int));
                return Err(error);
            },
        };
        assert(row.remaining() == at_a.skip((A::consumed(at_a) + B::consumed(at_b) + C::consumed(at_c)) as int));
        let ghost at_d = at_c.skip(C::consumed(at_c) as int);
        proof {
            D::lemma_within_row(at_d);
        }
        let d = match D::build_from_row(row) {
            Ok(value) => value,
            Err(error) => {
                assert(row.remaining() == at_a.skip(Self::consumed(at_a) as int));
                return Err(error);
            },
        };
        assert(row.remaining() == at_a.skip((A::consumed(at_a) + B::consumed(at_b) + C::consumed(at_c) + D::consumed(at_d)) as int));
        let ghost at_e = at_d.skip(D::consumed(at_d) as int);
        proof {
            E::lemma_within_row(at_e);
        }
        let e = match E::build_from_row(row) {
            Ok(value) => value,
            Err(error) => {
                assert(row.remaining() == at_a.skip(Self::consumed(at_a) as int));
                return Err(error);
            },
        };
        assert(row.remaining() == at_a.skip((A::consumed(at_a) + B::consumed(at_b) + C::consumed(at_c) + D::consumed(at_d) + E::consumed(at_e)) as int));
        let ghost at_f = at_e.skip(E::consumed(at_e) as int);
        proof {
            F::lemma_within_row(at_f);
        }
        let f = match F::build_from_row(row) {
            Ok(value) => value,
            Err(error) => {
                assert(row.remaining() == at_a.skip(Self::consumed(at_a) as int));
                return Err(error);
            },
        };
        assert(row.remaining() == at_a.skip((A::consumed(at_a) + B::consumed(at_b) + C::consumed(at_c) + D::consumed(at_d) + E::consumed(at_e) + F::consumed(at_f)) as int));
        let ghost at_g = at_f.skip(F::consumed(at_f) as int);
        proof {
            G::lemma_within_row(at_g);
        }
        let g = match G::build_from_row(row) {
            Ok(value) => value,
            Err(error) => {
                assert(row.remaining() == at_a.skip(Self::consumed(at_a) as int));
                return Err(error);
            },
        };
        assert(row.remaining() == at_a.skip((A::consumed(at_a) + B::consumed(at_b) + C::consumed(at_c) + D::consumed(at_d) + E::consumed(at_e) + F::consumed(at_f) + G::consumed(at_g)) as int));
        let ghost at_h = at_g.skip(G::consumed(at_g) as int);
        proof {
            H::lemma_within_row(at_h);
        }
        let h = match H::build_from_row(row) {
            Ok(value) => value,
            Err(error) => {
                assert(row.remaining() == at_a.skip(Self::consumed(at_a) as int));
                return Err(error);
            },
        };
        assert(row.remaining() == at_a.skip((A::consumed(at_a) + B::consumed(at_b) + C::consumed(at_c) + D::consumed(at_d) + E::consumed(at_e) + F::consumed(at_f) + G::consumed(at_g) + H::consumed(at_h)) as int));
        let ghost at_i = at_h.skip(H::consumed(at_h) as int);
        proof {
            I::lemma_within_row(at_i);
        }
        let i = match I::build_from_row(row) {
            Ok(value) => value,
            Err(error) => {
                assert(row.remaining() == at_a.skip(Self::consumed(at_a) as int));
                return Err(error);
            },
        };
        assert(row.remaining() == at_a.skip((A::consumed(at_a) + B::consumed(at_b) + C::consumed(at_c) + D::consumed(at_d) + E::consumed(at_e) + F::consumed(at_f) + G::consumed(at_g) + H::consumed(at_h) + I::consumed(at_i)) as int));
        let ghost at_j = at_i.skip(I::consumed(at_i) as int);
        proof {
            J::lemma_within_row(at_j);
        }
        let j = match J::build_from_row(row) {
            Ok(value) => value,
            Err(error) => {
                assert(row.remaining() == at_a.skip(Self::consumed(at_a) as int));
                return Err(error);
            },
        };
        assert(row.remaining() == at_a.skip((A::consumed(at_a) + B::consumed(at_b) + C::consumed(at_c) + D::consumed(at_d) + E::consumed(at_e) + F::consumed(at_f) + G::consumed(at_g) + H::consumed(at_h) + I::consumed(at_i) + J::consumed(at_j)) as int));
        let ghost at_k = at_j.skip(J::consumed(at_j) as int);
        proof {
            K::lemma_within_row(at_k);
        }
        let k = match K::build_from_row(row) {
            Ok(value) => value,
            Err(error) => {
                assert(row.remaining() == at_a.skip(Self::consumed(at_a) as int));
                return Err(error);
            },
        };
        assert(row.remaining() == at_a.skip((A::consumed(at_a) + B::consumed(at_b) + C::consumed(at_c) + D::consumed(at_d) + E::consumed(at_e) + F::consumed(at_f) + G::consumed(at_g) + H::consumed(at_h) + I::consumed(at_i) + J::consumed(at_j) + K::consumed(at_k)) as int));
        Ok((a, b, c, d, e, f, g, h, i, j, k))
    }

    fn is_null<'a, R: Row<'a, DB>>(row: &mut R) -> (null: bool) {
        let ghost at_a = row.remaining();
        proof {
            A::lemma_within_row(at_a);
        }
        let null_a = A::is_null(row);
        let ghost at_b = at_a.skip(A::probed(at_a) as int);
        proof {
            B::lemma_within_row(at_b);
        }
        let null_b = B::is_null(row);
        assert(row.remaining() == at_a.skip((A::probed(at_a) + B::probed(at_b)) as int));
        let ghost at_c = at_b.skip(B::probed(at_b) as int);
        proof {
            C::lemma_within_row(at_c);
        }
        let null_c = C::is_null(row);
        assert(row.remaining() == at_a.skip((A::probed(at_a) + B::probed(at_b) + C::probed(at_c)) as int));
        let ghost at_d = at_c.skip(C::probed(at_c) as int);
        proof {
            D::lemma_within_row(at_d);
        }
        let null_d = D::is_null(row);
        assert(row.remaining() == at_a.skip((A::probed(at_a) + B::probed(at_b) + C::probed(at_c) + D::probed(at_d)) as int));
        let ghost at_e = at_d.skip(D::probed(at_d) as int);
        proof {
            E::lemma_within_row(at_e);
        }
        let null_e = E::is_null(row);
        assert(row.remaining() == at_a.skip((A::probed(at_a) + B::probed(at_b) + C::probed(at_c) + D::probed(at_d) + E::probed(at_e)) as int));
        let ghost at_f = at_e.skip(E::probed(at_e) as int);
        proof {
            F::lemma_within_row(at_f);
        }
        let null_f = F::is_null(row);
        assert(row.remaining() == at_a.skip((A::probed(at_a) + B::probed(at_b) + C::probed(at_c) + D::probed(at_d) + E::probed(at_e) + F::probed(at_f)) as int));
        let ghost at_g = at_f.skip(F::probed(at_f) as int);
        proof {
            G::lemma_within_row(at_g);
        }
        let null_g = G::is_null(row);
        assert(row.remaining() == at_a.skip((A::probed(at_a) + B::probed(at_b) + C::probed(at_c) + D::probed(at_d) + E::probed(at_e) + F::probed(at_f) + G::probed(at_g)) as int));
        let ghost at_h = at_g.skip(G::probed(at_g) as int);
        proof {
            H::lemma_within_row(at_h);
        }
        let null_h = H::is_null(row);
        assert(row.remaining() == at_a.skip((A::probed(at_a) + B::probed(at_b) + C::probed(at_c) + D::probed(at_d) + E::probed(at_e) + F::probed(at_f) + G::probed(at_g) + H::probed(at_h)) as int));
        let ghost at_i = at_h.skip(H::probed(at_h) as int);
        proof {
            I::lemma_within_row(at_i);
        }
        let null_i = I::is_null(row);
        assert(row.remaining() == at_a.skip((A::probed(at_a) + B::probed(at_b) + C::probed(at_c) + D::probed(at_d) + E::probed(at_e) + F::probed(at_f) + G::probed(at_g) + H::probed(at_h) + I::probed(at_i)) as int));
        let ghost at_j = at_i.skip(I::probed(at_i) as int);
        proof {
            J::lemma_within_row(at_j);
        }
        let null_j = J::is_null(row);
        assert(row.remaining() == at_a.skip((A::probed(at_a) + B::probed(at_b) + C::probed(at_c) + D::probed(at_d) + E::probed(at_e) + F::probed(at_f) + G::probed(at_g) + H::probed(at_h) + I::probed(at_i) + J::probed(at_j)) as int));
        let ghost at_k = at_j.skip(J::probed(at_j) as int);
        proof {
            K::lemma_within_row(at_k);
        }
        let null_k = K::is_null(row);
        assert(row.remaining() == at_a.skip((A::probed(at_a) + B::probed(at_b) + C::probed(at_c) + D::probed(at_d) + E::probed(at_e) + F::probed(at_f) + G::probed(at_g) + H::probed(at_h) + I::probed(at_i) + J::probed(at_j) + K::probed(at_k)) as int));
        null_a || null_b || null_c || null_d || null_e || null_f || null_g || null_h || null_i || null_j || null_k
    }
}

impl<A, B, C, D, E, F, G, H, I, J, K, SA, SB, SC, SD, SE, SF, SG, SH, SI, SJ, SK, DB> StaticallySizedRow<Typed<(SA, SB, SC, SD, SE, SF, SG, SH, SI, SJ, SK)>, DB> for (A, B, C, D, E, F, G, H, I, J, K) where
    DB: Backend,
    A: StaticallySizedRow<SA, DB>,
    B: StaticallySizedRow<SB, DB>,
    C: StaticallySizedRow<SC, DB>,
    D: StaticallySizedRow<SD, DB>,
    E: StaticallySizedRow<SE, DB>,
    F: StaticallySizedRow<SF, DB>,
    G: StaticallySizedRow<SG, DB>,
    H: StaticallySizedRow<SH, DB>,
    I: StaticallySizedRow<SI, DB>,
    J: StaticallySizedRow<SJ, DB>,
    K: StaticallySizedRow<SK, DB>,
 {
    const FIELD_COUNT: usize = A::FIELD_COUNT + B::FIELD_COUNT + C::FIELD_COUNT + D::FIELD_COUNT + E::FIELD_COUNT + F::FIELD_COUNT + G::FIELD_COUNT + H::FIELD_COUNT + I::FIELD_COUNT + J::FIELD_COUNT + K::FIELD_COUNT + 0;

    /// The sum of the elements' field counts.
    open spec fn field_count() -> nat {
        A::field_count() + B::field_count() + C::field_count() + D::field_count() + E::field_count() + F::field_count() + G::field_count() + H::field_count() + I::field_count() + J::field_count() + K::field_count()
    }

    proof fn lemma_field_count() {
        A::lemma_field_count();
        B::lemma_field_count();
        C::lemma_field_count();
        D::lemma_field_count();
        E::lemma_field_count();
        F::lemma_field_count();
        G::lemma_field_count();
        H::lemma_field_count();
        I::lemma_field_count();
        J::lemma_field_count();
        K::lemma_field_count();
    }

    proof fn lemma_fixed_width(fields: Seq<FieldView<DB>>) {
        let at_a = fields;
        let in_a = fields;
        A::lemma_within_row(at_a);
        A::lemma_fixed_width(at_a);
        let at_b = at_a.skip(A::consumed(at_a) as int);
        let in_b = in_a.skip(A::probed(in_a) as int);
        B::lemma_within_row(in_b);
        B::lemma_fixed_width(in_b);
        let at_c = at_b.skip(B::consumed(at_b) as int);
        let in_c = in_b.skip(B::probed(in_b) as int);
        C::lemma_within_row(in_c);
        C::lemma_fixed_width(in_c);
        let at_d = at_c.skip(C::consumed(at_c) as int);
        let in_d = in_c.skip(C::probed(in_c) as int);
        D::lemma_within_row(in_d);
        D::lemma_fixed_width(in_d);
        let at_e = at_d.skip(D::consumed(at_d) as int);
        let in_e = in_d.skip(D::probed(in_d) as int);
        E::lemma_within_row(in_e);
        E::lemma_fixed_width(in_e);
        let at_f = at_e.skip(E::consumed(at_e) as int);
        let in_f = in_e.skip(E::probed(in_e) as int);
        F::lemma_within_row(in_f);
        F::lemma_fixed_width(in_f);
        let at_g = at_f.skip(F::consumed(at_f) as int);
        let in_g = in_f.skip(F::probed(in_f) as int);
        G::lemma_within_row(in_g);
        G::lemma_fixed_width(in_g);
        let at_h = at_g.skip(G::consumed(at_g) as int);
        let in_h = in_g.skip(G::probed(in_g) as int);
        H::lemma_within_row(in_h);
        H::lemma_fixed_width(in_h);
        let at_i = at_h.skip(H::consumed(at_h) as int);
        let in_i = in_h.skip(H::probed(in_h) as int);
        I::lemma_within_row(in_i);
        I::lemma_fixed_width(in_i);
        let at_j = at_i.skip(I::consumed(at_i) as int);
        let in_j = in_i.skip(I::probed(in_i) as int);
        J::lemma_within_row(in_j);
        J::lemma_fixed_width(in_j);
        let at_k = at_j.skip(J::consumed(at_j) as int);
        let in_k = in_j.skip(J::probed(in_j) as int);
        K::lemma_within_row(in_k);
        K::lemma_fixed_width(in_k);
        if A::built(at_a) is Ok {
            B::lemma_within_row(at_b);
            B::lemma_fixed_width(at_b);
            if B::built(at_b) is Ok {
                C::lemma_within_row(at_c);
                C::lemma_fixed_width(at_c);
                if C::built(at_c) is Ok {
                    D::lemma_within_row(at_d);
                    D::lemma_fixed_width(at_d);
                    if D::built(at_d) is Ok {
                        E::lemma_within_row(at_e);
                        E::lemma_fixed_width(at_e);
                        if E::built(at_e) is Ok {
                            F::lemma_within_row(at_f);
                            F::lemma_fixed_width(at_f);
                            if F::built(at_f) is Ok {
                                G::lemma_within_row(at_g);
                                G::lemma_fixed_width(at_g);
                                if G::built(at_g) is Ok {
                                    H::lemma_within_row(at_h);
                                    H::lemma_fixed_width(at_h);
                                    if H::built(at_h) is Ok {
                                        I::lemma_within_row(at_i);
                                        I::lemma_fixed_width(at_i);
                                        if I::built(at_i) is Ok {
                                            J::lemma_within_row(at_j);
                                            J::lemma_fixed_width(at_j);
                                            if J::built(at_j) is Ok {
                                                K::lemma_within_row(at_k);
                                                K::lemma_fixed_width(at_k);
                                            }
                                        }
                                    }
                                }
                            }
                        }
                    }
                }
            }
        }
    }
}

impl<A, B, C, D, E, F, G, H, I, J, K, L, SA, SB, SC, SD, SE, SF, SG, SH, SI, SJ, SK, SL, DB> FromSqlRow<Typed<(SA, SB, SC, SD, SE, SF, SG, SH, SI, SJ, SK, SL)>, DB> for (A, B, C, D, E, F, G, H, I, J, K, L) where
    DB: Backend,
    A: FromSqlRow<SA, DB> + StaticallySizedRow<SA, DB>,
    B: FromSqlRow<SB, DB> + StaticallySizedRow<SB, DB>,
    C: FromSqlRow<SC, DB> + StaticallySizedRow<SC, DB>,
    D: FromSqlRow<SD, DB> + StaticallySizedRow<SD, DB>,
    E: FromSqlRow<SE, DB> + StaticallySizedRow<SE, DB>,
    F: FromSqlRow<SF, DB> + StaticallySizedRow<SF, DB>,
    G: FromSqlRow<SG, DB> + StaticallySizedRow<SG, DB>,
    H: FromSqlRow<SH, DB> + StaticallySizedRow<SH, DB>,
    I: FromSqlRow<SI, DB> + StaticallySizedRow<SI, DB>,
    J: FromSqlRow<SJ, DB> + StaticallySizedRow<SJ, DB>,
    K: FromSqlRow<SK, DB> + StaticallySizedRow<SK, DB>,
    L: FromSqlRow<SL, DB>,
 {
    /// The elements in order, each built from what the ones before it left;
    /// the first failure is the tuple's.
    open spec fn built(fields: Seq<FieldView<DB>>) -> Outcome<(A::V, B::V, C::V, D::V, E::V, F::V, G::V, H::V, I::V, J::V, K::V, L::V)> {
        let at_a = fields;
        let at_b = at_a.skip(A::consumed(at_a) as int);
        let at_c = at_b.skip(B::consumed(at_b) as int);
        let at_d = at_c.skip(C::consumed(at_c) as int);
        let at_e = at_d.skip(D::consumed(at_d) as int);
        let at_f = at_e.skip(E::consumed(at_e) as int);
        let at_g = at_f.skip(F::consumed(at_f) as int);
        let at_h = at_g.skip(G::consumed(at_g) as int);
        let at_i = at_h.skip(H::consumed(at_h) as int);
        let at_j = at_i.skip(I::consumed(at_i) as int);
        let at_k = at_j.skip(J::consumed(at_j) as int);
        let at_l = at_k.skip(K::consumed(at_k) as int);
        match A::built(at_a) {
            Err(fault) => Err(fault),
            Ok(a) => match B::built(at_b) {
                Err(fault) => Err(fault),
                Ok(b) => match C::built(at_c) {
                    Err(fault) => Err(fault),
                    Ok(c) => match D::built(at_d) {
                        Err(fault) => Err(fault),
                        Ok(d) => match E::built(at_e) {
                            Err(fault) => Err(fault),
                            Ok(e) => match F::built(at_f) {
                                Err(fault) => Err(fault),
                                Ok(f) => match G::built(at_g) {
                                    Err(fault) => Err(fault),
                                    Ok(g) => match H::built(at_h) {
                                        Err(fault) => Err(fault),
                                        Ok(h) => match I::built(at_i) {
                                            Err(fault) => Err(fault),
                                            Ok(i) => match J::built(at_j) {
                                                Err(fault) => Err(fault),
                                                Ok(j) => match K::built(at_k) {
                                                    Err(fault) => Err(fault),
                                                    Ok(k) => match L::built(at_l) {
                                                        Err(fault) => Err(fault),
                                                        Ok(l) => Ok((a, b, c, d, e, f, g, h, i, j, k, l)),
                                                    },
                                                },
                                            },
                                        },
                                    },
                                },
                            },
                        },
                    },
                },
            },
        }
    }

    /// What the elements moved past, up to and with the first that failed.
    open spec fn consumed(fields: Seq<FieldView<DB>>) -> nat {
        let at_a = fields;
        let at_b = at_a.skip(A::consumed(at_a) as int);
        let at_c = at_b.skip(B::consumed(at_b) as int);
        let at_d = at_c.skip(C::consumed(at_c) as int);
        let at_e = at_d.skip(D::consumed(at_d) as int);
        let at_f = at_e.skip(E::consumed(at_e) as int);
        let at_g = at_f.skip(F::consumed(at_f) as int);
        let at_h = at_g.skip(G::consumed(at_g) as int);
        let at_i = at_h.skip(H::consumed(at_h) as int);
        let at_j = at_i.skip(I::consumed(at_i) as int);
        let at_k = at_j.skip(J::consumed(at_j) as int);
        let at_l = at_k.skip(K::consumed(at_k) as int);
        if A::built(at_a) is Err {
            A::consumed(at_a)
        } else if B::built(at_b) is Err {
            A::consumed(at_a) + B::consumed(at_b)
        } else if C::built(at_c) is Err {
            A::consumed(at_a) + B::consumed(at_b) + C::consumed(at_c)
        } else if D::built(at_d) is Err {
            A::consumed(at_a) + B::consumed(at_b) + C::consumed(at_c) + D::consumed(at_d)
        } else if E::built(at_e) is Err {
            A::consumed(at_a) + B::consumed(at_b) + C::consumed(at_c) + D::consumed(at_d) + E::consumed(at_e)
        } else if F::built(at_f) is Err {
            A::consumed(at_a) + B::consumed(at_b) + C::consumed(at_c) + D::consumed(at_d) + E::consumed(at_e) + F::consumed(at_f)
        } else if G::built(at_g) is Err {
            A::consumed(at_a) + B::consumed(at_b) + C::consumed(at_c) + D::consumed(at_d) + E::consumed(at_e) + F::consumed(at_f) + G::consumed(at_g)
        } else if H::built(at_h) is Err {
            A::consumed(at_a) + B::consumed(at_b) + C::consumed(at_c) + D::consumed(at_d) + E::consumed(at_e) + F::consumed(at_f) + G::consumed(at_g) + H::consumed(at_h)
        } else if I::built(at_i) is Err {
            A::consumed(at_a) + B::consumed(at_b) + C::consumed(at_c) + D::consumed(at_d) + E::consumed(at_e) + F::consumed(at_f) + G::consumed(at_g) + H::consumed(at_h) + I::consumed(at_i)
        } else if J::built(at_j) is Err {
            A::consumed(at_a) + B::consumed(at_b) + C::consumed(at_c) + D::consumed(at_d) + E::consumed(at_e) + F::consumed(at_f) + G::consumed(at_g) + H::consumed(at_h) + I::consumed(at_i) + J::consumed(at_j)
        } else if K::built(at_k) is Err {
            A::consumed(at_a) + B::consumed(at_b) + C::consumed(at_c) + D::consumed(at_d) + E::consumed(at_e) + F::consumed(at_f) + G::consumed(at_g) + H::consumed(at_h) + I::consumed(at_i) + J::consumed(at_j) + K::consumed(at_k)
        } else {
            A::consumed(at_a) + B::consumed(at_b) + C::consumed(at_c) + D::consumed(at_d) + E::consumed(at_e) + F::consumed(at_f) + G::consumed(at_g) + H::consumed(at_h) + I::consumed(at_i) + J::consumed(at_j) + K::consumed(at_k) + L::consumed(at_l)
        }
    }

    /// A tuple is null as soon as one of its elements is.
    open spec fn null_in(fields: Seq<FieldView<DB>>) -> bool {
        let at_a = fields;
        let at_b = at_a.skip(A::probed(at_a) as int);
        let at_c = at_b.skip(B::probed(at_b) as int);
        let at_d = at_c.skip(C::probed(at_c) as int);
        let at_e = at_d.skip(D::probed(at_d) as int);
        let at_f = at_e.skip(E::probed(at_e) as int);
        let at_g = at_f.skip(F::probed(at_f) as int);
        let at_h = at_g.skip(G::probed(at_g) as int);
        let at_i = at_h.skip(H::probed(at_h) as int);
        let at_j = at_i.skip(I::probed(at_i) as int);
        let at_k = at_j.skip(J::probed(at_j) as int);
        let at_l = at_k.skip(K::probed(at_k) as int);
        A::null_in(at_a) || B::null_in(at_b) || C::null_in(at_c) || D::null_in(at_d) || E::null_in(at_e) || F::null_in(at_f) || G::null_in(at_g) || H::null_in(at_h) || I::null_in(at_i) || J::null_in(at_j) || K::null_in(at_k) || L::null_in(at_l)
    }

    open spec fn probed(fields: Seq<FieldView<DB>>) -> nat {
        let at_a = fields;
        let at_b = at_a.skip(A::probed(at_a) as int);
        let at_c = at_b.skip(B::probed(at_b) as int);
        let at_d = at_c.skip(C::probed(at_c) as int);
        let at_e = at_d.skip(D::probed(at_d) as int);
        let at_f = at_e.skip(E::probed(at_e) as int);
        let at_g = at_f.skip(F::probed(at_f) as int);
        let at_h = at_g.skip(G::probed(at_g) as int);
        let at_i = at_h.skip(H::probed(at_h) as int);
        let at_j = at_i.skip(I::probed(at_i) as int);
        let at_k = at_j.skip(J::probed(at_j) as int);
        let at_l = at_k.skip(K::probed(at_k) as int);
        A::probed(at_a) + B::probed(at_b) + C::probed(at_c) + D::probed(at_d) + E::probed(at_e) + F::probed(at_f) + G::probed(at_g) + H::probed(at_h) + I::probed(at_i) + J::probed(at_j) + K::probed(at_k) + L::probed(at_l)
    }

    proof fn lemma_within_row(fields: Seq<FieldView<DB>>) {
        let at_a = fields;
        let in_a = fields;
        A::lemma_within_row(at_a);
        let at_b = at_a.skip(A::consumed(at_a) as int);
        let in_b = in_a.skip(A::probed(in_a) as int);
        B::lemma_within_row(at_b);
        B::lemma_within_row(in_b);
        let at_c = at_b.skip(B::consumed(at_b) as int);
        let in_c = in_b.skip(B::probed(in_b) as int);
        C::lemma_within_row(at_c);
        C::lemma_within_row(in_c);
        let at_d = at_c.skip(C::consumed(at_c) as int);
        let in_d = in_c.skip(C::probed(in_c) as int);
        D::lemma_within_row(at_d);
        D::lemma_within_row(in_d);
        let at_e = at_d.skip(D::consumed(at_d) as int);
        let in_e = in_d.skip(D::probed(in_d) as int);
        E::lemma_within_row(at_e);
        E::lemma_within_row(in_e);
        let at_f = at_e.skip(E::consumed(at_e) as int);
        let in_f = in_e.skip(E::probed(in_e) as int);
        F::lemma_within_row(at_f);
        F::lemma_within_row(in_f);
        let at_g = at_f.skip(F::consumed(at_f) as int);
        let in_g = in_f.skip(F::probed(in_f) as int);
        G::lemma_within_row(at_g);
        G::lemma_within_row(in_g);
        let at_h = at_g.skip(G::consumed(at_g) as int);
        let in_h = in_g.skip(G::probed(in_g) as int);
        H::lemma_within_row(at_h);
        H::lemma_within_row(in_h);
        let at_i = at_h.skip(H::consumed(at_h) as int);
        let in_i = in_h.skip(H::probed(in_h) as int);
        I::lemma_within_row(at_i);
        I::lemma_within_row(in_i);
        let at_j = at_i.skip(I::consumed(at_i) as int);
        let in_j = in_i.skip(I::probed(in_i) as int);
        J::lemma_within_row(at_j);
        J::lemma_within_row(in_j);
        let at_k = at_j.skip(J::consumed(at_j) as int);
        let in_k = in_j.skip(J::probed(in_j) as int);
        K::lemma_within_row(at_k);
        K::lemma_within_row(in_k);
        let at_l = at_k.skip(K::consumed(at_k) as int);
        let in_l = in_k.skip(K::probed(in_k) as int);
        L::lemma_within_row(at_l);
        L::lemma_within_row(in_l);
    }

    fn build_from_row<'a, R: Row<'a, DB>>(row: &mut R) -> (result: Result<Self>) {
        let ghost at_a = row.remaining();
        proof {
            A::lemma_within_row(at_a);
        }
        let a = match A::build_from_row(row) {
            Ok(value) => value,
            Err(error) => {
                return Err(error);
            },
        };
        let ghost at_b = at_a.skip(A::consumed(at_a) as int);
        proof {
            B::lemma_within_row(at_b);
        }
        let b = match B::build_from_row(row) {
            Ok(value) => value,
            Err(error) => {
                assert(row.remaining() == at_a.skip(Self::consumed(at_a) as int));
                return Err(error);
            },
        };
        assert(row.remaining() == at_a.skip((A::consumed(at_a) + B::consumed(at_b)) as int));
        let ghost at_c = at_b.skip(B::consumed(at_b) as int);
        proof {
            C::lemma_within_row(at_c);
        }
        let c = match C::build_from_row(row) {
            Ok(value) => value,
            Err(error) => {
                assert(row.remaining() == at_a.skip(Self::consumed(at_a) as int));
                return Err(error);
            },
        };
        assert(row.remaining() == at_a.skip((A::consumed(at_a) + B::consumed(at_b) + C::consumed(at_c)) as int));
        let ghost at_d = at_c.skip(C::consumed(at_c) as int);
        proof {
            D::lemma_within_row(at_d);
        }
        let d = match D::build_from_row(row) {
            Ok(value) => value,
            Err(error) => {
                assert(row.remaining() == at_a.skip(Self::consumed(at_a) as int));
                return Err(error);
            },
        };
        assert(row.remaining() == at_a.skip((A::consumed(at_a) + B::consumed(at_b) + C::consumed(at_c) + D::consumed(at_d)) as int));
        let ghost at_e = at_d.skip(D::consumed(at_d) as int);
        proof {
            E::lemma_within_row(at_e);
        }
        let e = match E::build_from_row(row) {
            Ok(value) => value,
            Err(error) => {
                assert(row.remaining() == at_a.skip(Self::consumed(at_a) as int));
                return Err(error);
            },
        };
        assert(row.remaining() == at_a.skip((A::consumed(at_a) + B::consumed(at_b) + C::consumed(at_c) + D::consumed(at_d) + E::consumed(at_e)) as int));
        let ghost at_f = at_e.skip(E::consumed(at_e) as int);
        proof {
            F::lemma_within_row(at_f);
        }
        let f = match F::build_from_row(row) {
            Ok(value) => value,
            Err(error) => {
                assert(row.remaining() == at_a.skip(Self::consumed(at_a) as int));
                return Err(error);
            },
        };
        assert(row.remaining() == at_a.skip((A::consumed(at_a) + B::consumed(at_b) + C::consumed(at_c) + D::consumed(at_d) + E::consumed(at_e) + F::consumed(at_f)) as int));
        let ghost at_g = at_f.skip(F::consumed(at_f) as int);
        proof {
            G::lemma_within_row(at_g);
        }
        let g = match G::build_from_row(row) {
            Ok(value) => value,
            Err(error) => {
                assert(row.remaining() == at_a.skip(Self::consumed(at_a) as int));
                return Err(error);
            },
        };
        assert(row.remaining() == at_a.skip((A::consumed(at_a) + B::consumed(at_b) + C::consumed(at_c) + D::consumed(at_d) + E::consumed(at_e) + F::consumed(at_f) + G::consumed(at_g)) as int));
        let ghost at_h = at_g.skip(G::consumed(at_g) as int);
        proof {
            H::lemma_within_row(at_h);
        }
        let h = match H::build_from_row(row) {
            Ok(value) => value,
            Err(error) => {
                assert(row.remaining() == at_a.skip(Self::consumed(at_a) as int));
                return Err(error);
            },
        };
        assert(row.remaining() == at_a.skip((A::consumed(at_a) + B::consumed(at_b) + C::consumed(at_c) + D::consumed(at_d) + E::consumed(at_e) + F::consumed(at_f) + G::consumed(at_g) + H::consumed(at_h)) as int));
        let ghost at_i = at_h.skip(H::consumed(at_h) as int);
        proof {
            I::lemma_within_row(at_i);
        }
        let i = match I::build_from_row(row) {
            Ok(value) => value,
            Err(error) => {
                assert(row.remaining() == at_a.skip(Self::consumed(at_a) as int));
                return Err(error);
            },
        };
        assert(row.remaining() == at_a.skip((A::consumed(at_a) + B::consumed(at_b) + C::consumed(at_c) + D::consumed(at_d) + E::consumed(at_e) + F::consumed(at_f) + G::consumed(at_g) + H::consumed(at_h) + I::consumed(at_i)) as int));
        let ghost at_j = at_i.skip(I::consumed(at_i) as int);
        proof {
            J::lemma_within_row(at_j);
        }
        let j = match J::build_from_row(row) {
            Ok(value) => value,
            Err(error) => {
                assert(row.remaining() == at_a.skip(Self::consumed(at_a) as int));
                return Err(error);
            },
        };
        assert(row.remaining() == at_a.skip((A::consumed(at_a) + B::consumed(at_b) + C::consumed(at_c) + D::consumed(at_d) + E::consumed(at_e) + F::consumed(at_f) + G::consumed(at_g) + H::consumed(at_h) + I::consumed(at_i) + J::consumed(at_j)) as int));
        let ghost at_k = at_j.skip(J::consumed(at_j) as int);
        proof {
            K::lemma_within_row(at_k);
        }
        let k = match K::build_from_row(row) {
            Ok(value) => value,
            Err(error) => {
                assert(row.remaining() == at_a.skip(Self::consumed(at_a) as int));
                return Err(error);
            },
        };
        assert(row.remaining() == at_a.skip((A::consumed(at_a) + B::consumed(at_b) + C::consumed(at_c) + D::consumed(at_d) + E::consumed(at_e) + F::consumed(at_f) + G::consumed(at_g) + H::consumed(at_h) + I::consumed(at_i) + J::consumed(at_j) + K::consumed(at_k)) as int));
        let ghost at_l = at_k.skip(K::consumed(at_k) as int);
        proof {
            L::lemma_within_row(at_l);
        }
        let l = match L::build_from_row(row) {
            Ok(value) => value,
            Err(error) => {
                assert(row.remaining() == at_a.skip(Self::consumed(at_a) as int));
                return Err(error);
            },
        };
        assert(row.remaining() == at_a.skip((A::consumed(at_a) + B::consumed(at_b) + C::consumed(at_c) + D::consumed(at_d) + E::consumed(at_e) + F::consumed(at_f) + G::consumed(at_g) + H::consumed(at_h) + I::consumed(at_i) + J::consumed(at_j) + K::consumed(at_k) + L::consumed(at_l)) as int));
        Ok((a, b, c, d, e, f, g, h, i, j, k, l))
    }

    fn is_null<'a, R: Row<'a, DB>>(row: &mut R) -> (null: bool) {
        let ghost at_a = row.remaining();
        proof {
            A::lemma_within_row(at_a);
        }
        let null_a = A::is_null(row);
        let ghost at_b = at_a.skip(A::probed(at_a) as int);
        proof {
            B::lemma_within_row(at_b);
        }
        let null_b = B::is_null(row);
        assert(row.remaining() == at_a.skip((A::probed(at_a) + B::probed(at_b)) as int));
        let ghost at_c = at_b.skip(B::probed(at_b) as int);
        proof {
            C::lemma_within_row(at_c);
        }
        let null_c = C::is_null(row);
        assert(row.remaining() == at_a.skip((A::probed(at_a) + B::probed(at_b) + C::probed(at_c)) as int));
        let ghost at_d = at_c.skip(C::probed(at_c) as int);
        proof {
            D::lemma_within_row(at_d);
        }
        let null_d = D::is_null(row);
        assert(row.remaining() == at_a.skip((A::probed(at_a) + B::probed(at_b) + C::probed(at_c) + D::probed(at_d)) as int));
        let ghost at_e = at_d.skip(D::probed(at_d) as int);
        proof {
            E::lemma_within_row(at_e);
        }
        let null_e = E::is_null(row);
        assert(row.remaining() == at_a.skip((A::probed(at_a) + B::probed(at_b) + C::probed(at_c) + D::probed(at_d) + E::probed(at_e)) as int));
        let ghost at_f = at_e.skip(E::probed(at_e) as int);
        proof {
            F::lemma_within_row(at_f);
        }
        let null_f = F::is_null(row);
        assert(row.remaining() == at_a.skip((A::probed(at_a) + B::probed(at_b) + C::probed(at_c) + D::probed(at_d) + E::probed(at_e) + F::probed(at_f)) as int));
        let ghost at_g = at_f.skip(F::probed(at_f) as int);
        proof {
            G::lemma_within_row(at_g);
        }
        let null_g = G::is_null(row);
        assert(row.remaining() == at_a.skip((A::probed(at_a) + B::probed(at_b) + C::probed(at_c) + D::probed(at_d) + E::probed(at_e) + F::probed(at_f) + G::probed(at_g)) as int));
        let ghost at_h = at_g.skip(G::probed(at_g) as int);
        proof {
            H::lemma_within_row(at_h);
        }
        let null_h = H::is_null(row);
        assert(row.remaining() == at_a.skip((A::probed(at_a) + B::probed(at_b) + C::probed(at_c) + D::probed(at_d) + E::probed(at_e) + F::probed(at_f) + G::probed(at_g) + H::probed(at_h)) as int));
        let ghost at_i = at_h.skip(H::probed(at_h) as int);
        proof {
            I::lemma_within_row(at_i);
        }
        let null_i = I::is_null(row);
        assert(row.remaining() == at_a.skip((A::probed(at_a) + B::probed(at_b) + C::probed(at_c) + D::probed(at_d) + E::probed(at_e) + F::probed(at_f) + G::probed(at_g) + H::probed(at_h) + I::probed(at_i)) as int));
        let ghost at_j = at_i.skip(I::probed(at_i) as int);
        proof {
            J::lemma_within_row(at_j);
        }
        let null_j = J::is_null(row);
        assert(row.remaining() == at_a.skip((A::probed(at_a) + B::probed(at_b) + C::probed(at_c) + D::probed(at_d) + E::probed(at_e) + F::probed(at_f) + G::probed(at_g) + H::probed(at_h) + I::probed(at_i) + J::probed(at_j)) as int));
        let ghost at_k = at_j.skip(J::probed(at_j) as int);
        proof {
            K::lemma_within_row(at_k);
        }
        let null_k = K::is_null(row);
        assert(row.remaining() == at_a.skip((A::probed(at_a) + B::probed(at_b) + C::probed(at_c) + D::probed(at_d) + E::probed(at_e) + F::probed(at_f) + G::probed(at_g) + H::probed(at_h) + I::probed(at_i) + J::probed(at_j) + K::probed(at_k)) as int));
        let ghost at_l = at_k.skip(K::probed(at_k) as int);
        proof {
            L::lemma_within_row(at_l);
        }
        let null_l = L::is_null(row);
        assert(row.remaining() == at_a.skip((A::probed(at_a) + B::probed(at_b) + C::probed(at_c) + D::probed(at_d) + E::probed(at_e) + F::probed(at_f) + G::probed(at_g) + H::probed(at_h) + I::probed(at_i) + J::probed(at_j) + K::probed(at_k) + L::probed(at_l)) as int));
        null_a || null_b || null_c || null_d || null_e || null_f || null_g || null_h || null_i || null_j || null_k || null_l
    }
}

impl<A, B, C, D, E, F, G, H, I, J, K, L, SA, SB, SC, SD, SE, SF, SG, SH, SI, SJ, SK, SL, DB> StaticallySizedRow<Typed<(SA, SB, SC, SD, SE, SF, SG, SH, SI, SJ, SK, SL)>, DB> for (A, B, C, D, E, F, G, H, I, J, K, L) where
    DB: Backend,
    A: StaticallySizedRow<SA, DB>,
    B: StaticallySizedRow<SB, DB>,
    C: StaticallySizedRow<SC, DB>,
    D: StaticallySizedRow<SD, DB>,
    E: StaticallySizedRow<SE, DB>,
    F: StaticallySizedRow<SF, DB>,
    G: StaticallySizedRow<SG, DB>,
    H: StaticallySizedRow<SH, DB>,
    I: StaticallySizedRow<SI, DB>,
    J: StaticallySizedRow<SJ, DB>,
    K: StaticallySizedRow<SK, DB>,
    L: StaticallySizedRow<SL, DB>,
 {
    const FIELD_COUNT: usize = A::FIELD_COUNT + B::FIELD_COUNT + C::FIELD_COUNT + D::FIELD_COUNT + E::FIELD_COUNT + F::FIELD_COUNT + G::FIELD_COUNT + H::FIELD_COUNT + I::FIELD_COUNT + J::FIELD_COUNT + K::FIELD_COUNT + L::FIELD_COUNT + 0;

    /// The sum of the elements' field counts.
    open spec fn field_count() -> nat {
        A::field_count() + B::field_count() + C::field_count() + D::field_count() + E::field_count() + F::field_count() + G::field_count() + H::field_count() + I::field_count() + J::field_count() + K::field_count() + L::field_count()
    }

    proof fn lemma_field_count() {
        A::lemma_field_count();
        B::lemma_field_count();
        C::lemma_field_count();
        D::lemma_field_count();
        E::lemma_field_count();
        F::lemma_field_count();
        G::lemma_field_count();
        H::lemma_field_count();
        I::lemma_field_count();
        J::lemma_field_count();
        K::lemma_field_count();
        L::lemma_field_count();
    }

    proof fn lemma_fixed_width(fields: Seq<FieldView<DB>>) {
        let at_a = fields;
        let in_a = fields;
        A::lemma_within_row(at_a);
        A::lemma_fixed_width(at_a);
        let at_b = at_a.skip(A::consumed(at_a) as int);
        let in_b = in_a.skip(A::probed(in_a) as int);
        B::lemma_within_row(in_b);
        B::lemma_fixed_width(in_b);
        let at_c = at_b.skip(B::consumed(at_b) as int);
        let in_c = in_b.skip(B::probed(in_b) as int);
        C::lemma_within_row(in_c);
        C::lemma_fixed_width(in_c);
        let at_d = at_c.skip(C::consumed(at_c) as int);
        let in_d = in_c.skip(C::probed(in_c) as int);
        D::lemma_within_row(in_d);
        D::lemma_fixed_width(in_d);
        let at_e = at_d.skip(D::consumed(at_d) as int);
        let in_e = in_d.skip(D::probed(in_d) as int);
        E::lemma_within_row(in_e);
        E::lemma_fixed_width(in_e);
        let at_f = at_e.skip(E::consumed(at_e) as int);
        let in_f = in_e.skip(E::probed(in_e) as int);
        F::lemma_within_row(in_f);
        F::lemma_fixed_width(in_f);
        let at_g = at_f.skip(F::consumed(at_f) as int);
        let in_g = in_f.skip(F::probed(in_f) as int);
        G::lemma_within_row(in_g);
        G::lemma_fixed_width(in_g);
        let at_h = at_g.skip(G::consumed(at_g) as int);
        let in_h = in_g.skip(G::probed(in_g) as int);
        H::lemma_within_row(in_h);
        H::lemma_fixed_width(in_h);
        let at_i = at_h.skip(H::consumed(at_h) as int);
        let in_i = in_h.skip(H::probed(in_h) as int);
        I::lemma_within_row(in_i);
        I::lemma_fixed_width(in_i);
        let at_j = at_i.skip(I::consumed(at_i) as int);
        let in_j = in_i.skip(I::probed(in_i) as int);
        J::lemma_within_row(in_j);
        J::lemma_fixed_width(in_j);
        let at_k = at_j.skip(J::consumed(at_j) as int);
        let in_k = in_j.skip(J::probed(in_j) as int);
        K::lemma_within_row(in_k);
        K::lemma_fixed_width(in_k);
        let at_l = at_k.skip(K::consumed(at_k) as int);
        let in_l = in_k.skip(K::probed(in_k) as int);
        L::lemma_within_row(in_l);
        L::lemma_fixed_width(in_l);
        if A::built(at_a) is Ok {
            B::lemma_within_row(at_b);
            B::lemma_fixed_width(at_b);
            if B::built(at_b) is Ok {
                C::lemma_within_row(at_c);
                C::lemma_fixed_width(at_c);
                if C::built(at_c) is Ok {
                    D::lemma_within_row(at_d);
                    D::lemma_fixed_width(at_d);
                    if D::built(at_d) is Ok {
                        E::lemma_within_row(at_e);
                        E::lemma_fixed_width(at_e);
                        if E::built(at_e) is Ok {
                            F::lemma_within_row(at_f);
                            F::lemma_fixed_width(at_f);
                            if F::built(at_f) is Ok {
                                G::lemma_within_row(at_g);
                                G::lemma_fixed_width(at_g);
                                if G::built(at_g) is Ok {
                                    H::lemma_within_row(at_h);
                                    H::lemma_fixed_width(at_h);
                                    if H::built(at_h) is Ok {
                                        I::lemma_within_row(at_i);
                                        I::lemma_fixed_width(at_i);
                                        if I::built(at_i) is Ok {
                                            J::lemma_within_row(at_j);
                                            J::lemma_fixed_width(at_j);
                                            if J::built(at_j) is Ok {
                                                K::lemma_within_row(at_k);
                                                K::lemma_fixed_width(at_k);
                                                if K::built(at_k) is Ok {
                                                    L::lemma_within_row(at_l);
                                                    L::lemma_fixed_width(at_l);
                                                }
                                            }
                                        }
                                    }
                                }
                            }
                        }
                    }
                }
            }
        }
    }
}

impl<A, DB> HasRowMetadata<(Typed<A>,)> for DB where
    DB: Backend + HasRowMetadata<A>,
 {
    /// The descriptions of the elements' columns, one element after the other.
    open spec fn row_types() -> Seq<DB::TypeMetadata> {
        <DB as HasRowMetadata<A>>::row_types()
    }

    fn mysql_row_metadata(out: &mut Vec<DB::TypeMetadata>, lookup: &DB::MetadataLookup) {
        <DB as HasRowMetadata<A>>::mysql_row_metadata(out, lookup);
        assert(out@ =~= old(out)@ + (<DB as HasRowMetadata<A>>::row_types()));
    }
}

impl<A, B, DB> HasRowMetadata<(Typed<A>, Typed<B>)> for DB where
    DB: Backend + HasRowMetadata<A> + HasRowMetadata<B>,
 {
    /// The descriptions of the elements' columns, one element after the other.
    open spec fn row_types() -> Seq<DB::TypeMetadata> {
        <DB as HasRowMetadata<A>>::row_types() + <DB as HasRowMetadata<B>>::row_types()
    }

    fn mysql_row_metadata(out: &mut Vec<DB::TypeMetadata>, lookup: &DB::MetadataLookup) {
        <DB as HasRowMetadata<A>>::mysql_row_metadata(out, lookup);
        <DB as HasRowMetadata<B>>::mysql_row_metadata(out, lookup);
        assert(out@ =~= old(out)@ + (<DB as HasRowMetadata<A>>::row_types() + <DB as HasRowMetadata<B>>::row_types()));
    }
}

impl<A, B, C, DB> HasRowMetadata<(Typed<A>, Typed<B>, Typed<C>)> for DB where
    DB: Backend + HasRowMetadata<A> + HasRowMetadata<B> + HasRowMetadata<C>,
 {
    /// The descriptions of the elements' columns, one element after the other.
    open spec fn row_types() -> Seq<DB::TypeMetadata> {
        <DB as HasRowMetadata<A>>::row_types() + <DB as HasRowMetadata<B>>::row_types() + <DB as HasRowMetadata<C>>::row_types()
    }

    fn mysql_row_metadata(out: &mut Vec<DB::TypeMetadata>, lookup: &DB::MetadataLookup) {
        <DB as HasRowMetadata<A>>::mysql_row_metadata(out, lookup);
        <DB as HasRowMetadata<B>>::mysql_row_metadata(out, lookup);
        <DB as HasRowMetadata<C>>::mysql_row_metadata(out, lookup);
        assert(out@ =~= old(out)@ + (<DB as HasRowMetadata<A>>::row_types() + <DB as HasRowMetadata<B>>::row_types() + <DB as HasRowMetadata<C>>::row_types()));
    }
}

impl<A, B, C, D, DB> HasRowMetadata<(Typed<A>, Typed<B>, Typed<C>, Typed<D>)> for DB where
    DB: Backend + HasRowMetadata<A> + HasRowMetadata<B> + HasRowMetadata<C> + HasRowMetadata<D>,
 {
    /// The descriptions of the elements' columns, one element after the other.
    open spec fn row_types() -> Seq<DB::TypeMetadata> {
        <DB as HasRowMetadata<A>>::row_types() + <DB as HasRowMetadata<B>>::row_types() + <DB as HasRowMetadata<C>>::row_types() + <DB as HasRowMetadata<D>>::row_types()
    }

    fn mysql_row_metadata(out: &mut Vec<DB::TypeMetadata>, lookup: &DB::MetadataLookup) {
        <DB as HasRowMetadata<A>>::mysql_row_metadata(out, lookup);
        <DB as HasRowMetadata<B>>::mysql_row_metadata(out, lookup);
        <DB as HasRowMetadata<C>>::mysql_row_metadata(out, lookup);
        <DB as HasRowMetadata<D>>::mysql_row_metadata(out, lookup);
        assert(out@ =~= old(out)@ + (<DB as HasRowMetadata<A>>::row_types() + <DB as HasRowMetadata<B>>::row_types() + <DB as HasRowMetadata<C>>::row_types() + <DB as HasRowMetadata<D>>::row_types()));
    }
}

impl<A, B, C, D, E, DB> HasRowMetadata<(Typed<A>, Typed<B>, Typed<C>, Typed<D>, Typed<E>)> for DB where
    DB: Backend + HasRowMetadata<A> + HasRowMetadata<B> + HasRowMetadata<C> + HasRowMetadata<D> + HasRowMetadata<E>,
 {
    /// The descriptions of the elements' columns, one element after the other.
    open spec fn row_types() -> Seq<DB::TypeMetadata> {
        <DB as HasRowMetadata<A>>::row_types() + <DB as HasRowMetadata<B>>::row_types() + <DB as HasRowMetadata<C>>::row_types() + <DB as HasRowMetadata<D>>::row_types() + <DB as HasRowMetadata<E>>::row_types()
    }

    fn mysql_row_metadata(out: &mut Vec<DB::TypeMetadata>, lookup: &DB::MetadataLookup) {
        <DB as HasRowMetadata<A>>::mysql_row_metadata(out, lookup);
        <DB as HasRowMetadata<B>>::mysql_row_metadata(out, lookup);
        <DB as HasRowMetadata<C>>::mysql_row_metadata(out, lookup);
        <DB as HasRowMetadata<D>>::mysql_row_metadata(out, lookup);
        <DB as HasRowMetadata<E>>::mysql_row_metadata(out, lookup);
        assert(out@ =~= old(out)@ + (<DB as HasRowMetadata<A>>::row_types() + <DB as HasRowMetadata<B>>::row_types() + <DB as HasRowMetadata<C>>::row_types() + <DB as HasRowMetadata<D>>::row_types() + <DB as HasRowMetadata<E>>::row_types()));
    }
}

impl<A, B, C, D, E, F, DB> HasRowMetadata<(Typed<A>, Typed<B>, Typed<C>, Typed<D>, Typed<E>, Typed<F>)> for DB where
    DB: Backend + HasRowMetadata<A> + HasRowMetadata<B> + HasRowMetadata<C> + HasRowMetadata<D> + HasRowMetadata<E> + HasRowMetadata<F>,
 {
    /// The descriptions of the elements' columns, one element after the other.
    open spec fn row_types() -> Seq<DB::TypeMetadata> {
        <DB as HasRowMetadata<A>>::row_types() + <DB as HasRowMetadata<B>>::row_types() + <DB as HasRowMetadata<C>>::row_types() + <DB as HasRowMetadata<D>>::row_types() + <DB as HasRowMetadata<E>>::row_types() + <DB as HasRowMetadata<F>>::row_types()
    }

    fn mysql_row_metadata(out: &mut Vec<DB::TypeMetadata>, lookup: &DB::MetadataLookup) {
        <DB as HasRowMetadata<A>>::mysql_row_metadata(out, lookup);
        <DB as HasRowMetadata<B>>::mysql_row_metadata(out, lookup);
        <DB as HasRowMetadata<C>>::mysql_row_metadata(out, lookup);
        <DB as HasRowMetadata<D>>::mysql_row_metadata(out, lookup);
        <DB as HasRowMetadata<E>>::mysql_row_metadata(out, lookup);
        <DB as HasRowMetadata<F>>::mysql_row_metadata(out, lookup);
        assert(out@ =~= old(out)@ + (<DB as HasRowMetadata<A>>::row_types() + <DB as HasRowMetadata<B>>::row_types() + <DB as HasRowMetadata<C>>::row_types() + <DB as HasRowMetadata<D>>::row_types() + <DB as HasRowMetadata<E>>::row_types() + <DB as HasRowMetadata<F>>::row_types()));
    }
}

impl<A, B, C, D, E, F, G, DB> HasRowMetadata<(Typed<A>, Typed<B>, Typed<C>, Typed<D>, Typed<E>, Typed<F>, Typed<G>)> for DB where
    DB: Backend + HasRowMetadata<A> + HasRowMetadata<B> + HasRowMetadata<C> + HasRowMetadata<D> + HasRowMetadata<E> + HasRowMetadata<F> + HasRowMetadata<G>,
 {
    /// The descriptions of the elements' columns, one element after the other.
    open spec fn row_types() -> Seq<DB::TypeMetadata> {
        <DB as HasRowMetadata<A>>::row_types() + <DB as HasRowMetadata<B>>::row_types() + <DB as HasRowMetadata<C>>::row_types() + <DB as HasRowMetadata<D>>::row_types() + <DB as HasRowMetadata<E>>::row_types() + <DB as HasRowMetadata<F>>::row_types() + <DB as HasRowMetadata<G>>::row_types()
    }

    fn mysql_row_metadata(out: &mut Vec<DB::TypeMetadata>, lookup: &DB::MetadataLookup) {
        <DB as HasRowMetadata<A>>::mysql_row_metadata(out, lookup);
        <DB as HasRowMetadata<B>>::mysql_row_metadata(out, lookup);
        <DB as HasRowMetadata<C>>::mysql_row_metadata(out, lookup);
        <DB as HasRowMetadata<D>>::mysql_row_metadata(out, lookup);
        <DB as HasRowMetadata<E>>::mysql_row_metadata(out, lookup);
        <DB as HasRowMetadata<F>>::mysql_row_metadata(out, lookup);
        <DB as HasRowMetadata<G>>::mysql_row_metadata(out, lookup);
        assert(out@ =~= old(out)@ + (<DB as HasRowMetadata<A>>::row_types() + <DB as HasRowMetadata<B>>::row_types() + <DB as HasRowMetadata<C>>::row_types() + <DB as HasRowMetadata<D>>::row_types() + <DB as HasRowMetadata<E>>::row_types() + <DB as HasRowMetadata<F>>::row_types() + <DB as HasRowMetadata<G>>::row_types()));
    }
}

impl<A, B, C, D, E, F, G, H, DB> HasRowMetadata<(Typed<A>, Typed<B>, Typed<C>, Typed<D>, Typed<E>, Typed<F>, Typed<G>, Typed<H>)> for DB where
    DB: Backend + HasRowMetadata<A> + HasRowMetadata<B> + HasRowMetadata<C> + HasRowMetadata<D> + HasRowMetadata<E> + HasRowMetadata<F> + HasRowMetadata<G> + HasRowMetadata<H>,
 {
    /// The descriptions of the elements' columns, one element after the other.
    open spec fn row_types() -> Seq<DB::TypeMetadata> {
        <DB as HasRowMetadata<A>>::row_types() + <DB as HasRowMetadata<B>>::row_types() + <DB as HasRowMetadata<C>>::row_types() + <DB as HasRowMetadata<D>>::row_types() + <DB as HasRowMetadata<E>>::row_types() + <DB as HasRowMetadata<F>>::row_types() + <DB as HasRowMetadata<G>>::row_types() + <DB as HasRowMetadata<H>>::row_types()
    }

    fn mysql_row_metadata(out: &mut Vec<DB::TypeMetadata>, lookup: &DB::MetadataLookup) {
        <DB as HasRowMetadata<A>>::mysql_row_metadata(out, lookup);
        <DB as HasRowMetadata<B>>::mysql_row_metadata(out, lookup);
        <DB as HasRowMetadata<C>>::mysql_row_metadata(out, lookup);
        <DB as HasRowMetadata<D>>::mysql_row_metadata(out, lookup);
        <DB as HasRowMetadata<E>>::mysql_row_metadata(out, lookup);
        <DB as HasRowMetadata<F>>::mysql_row_metadata(out, lookup);
        <DB as HasRowMetadata<G>>::mysql_row_metadata(out, lookup);
        <DB as HasRowMetadata<H>>::mysql_row_metadata(out, lookup);
        assert(out@ =~= old(out)@ + (<DB as HasRowMetadata<A>>::row_types() + <DB as HasRowMetadata<B>>::row_types() + <DB as HasRowMetadata<C>>::row_types() + <DB as HasRowMetadata<D>>::row_types() + <DB as HasRowMetadata<E>>::row_types() + <DB as HasRowMetadata<F>>::row_types() + <DB as HasRowMetadata<G>>::row_types() + <DB as HasRowMetadata<H>>::row_types()));
    }
}

impl<A, B, C, D, E, F, G, H, I, DB> HasRowMetadata<(Typed<A>, Typed<B>, Typed<C>, Typed<D>, Typed<E>, Typed<F>, Typed<G>, Typed<H>, Typed<I>)> for DB where
    DB: Backend + HasRowMetadata<A> + HasRowMetadata<B> + HasRowMetadata<C> + HasRowMetadata<D> + HasRowMetadata<E> + HasRowMetadata<F> + HasRowMetadata<G> + HasRowMetadata<H> + HasRowMetadata<I>,
 {
    /// The descriptions of the elements' columns, one element after the other.
    open spec fn row_types() -> Seq<DB::TypeMetadata> {
        <DB as HasRowMetadata<A>>::row_types() + <DB as HasRowMetadata<B>>::row_types() + <DB as HasRowMetadata<C>>::row_types() + <DB as HasRowMetadata<D>>::row_types() + <DB as HasRowMetadata<E>>::row_types() + <DB as HasRowMetadata<F>>::row_types() + <DB as HasRowMetadata<G>>::row_types() + <DB as HasRowMetadata<H>>::row_types() + <DB as HasRowMetadata<I>>::row_types()
    }

    fn mysql_row_metadata(out: &mut Vec<DB::TypeMetadata>, lookup: &DB::MetadataLookup) {
        <DB as HasRowMetadata<A>>::mysql_row_metadata(out, lookup);
        <DB as HasRowMetadata<B>>::mysql_row_metadata(out, lookup);
        <DB as HasRowMetadata<C>>::mysql_row_metadata(out, lookup);
        <DB as HasRowMetadata<D>>::mysql_row_metadata(out, lookup);
        <DB as HasRowMetadata<E>>::mysql_row_metadata(out, lookup);
        <DB as HasRowMetadata<F>>::mysql_row_metadata(out, lookup);
        <DB as HasRowMetadata<G>>::mysql_row_metadata(out, lookup);
        <DB as HasRowMetadata<H>>::mysql_row_metadata(out, lookup);
        <DB as HasRowMetadata<I>>::mysql_row_metadata(out, lookup);
        assert(out@ =~= old(out)@ + (<DB as HasRowMetadata<A>>::row_types() + <DB as HasRowMetadata<B>>::row_types() + <DB as HasRowMetadata<C>>::row_types() + <DB as HasRowMetadata<D>>::row_types() + <DB as HasRowMetadata<E>>::row_types() + <DB as HasRowMetadata<F>>::row_types() + <DB as HasRowMetadata<G>>::row_types() + <DB as HasRowMetadata<H>>::row_types() + <DB as HasRowMetadata<I>>::row_types()));
    }
}

impl<A, B, C, D, E, F, G, H, I, J, DB> HasRowMetadata<(Typed<A>, Typed<B>, Typed<C>, Typed<D>, Typed<E>, Typed<F>, Typed<G>, Typed<H>, Typed<I>, Typed<J>)> for DB where
    DB: Backend + HasRowMetadata<A> + HasRowMetadata<B> + HasRowMetadata<C> + HasRowMetadata<D> + HasRowMetadata<E> + HasRowMetadata<F> + HasRowMetadata<G> + HasRowMetadata<H> + HasRowMetadata<I> + HasRowMetadata<J>,
 {
    /// The descriptions of the elements' columns, one element after the other.
    open spec fn row_types() -> Seq<DB::TypeMetadata> {
        <DB as HasRowMetadata<A>>::row_types() + <DB as HasRowMetadata<B>>::row_types() + <DB as HasRowMetadata<C>>::row_types() + <DB as HasRowMetadata<D>>::row_types() + <DB as HasRowMetadata<E>>::row_types() + <DB as HasRowMetadata<F>>::row_types() + <DB as HasRowMetadata<G>>::row_types() + <DB as HasRowMetadata<H>>::row_types() + <DB as HasRowMetadata<I>>::row_types() + <DB as HasRowMetadata<J>>::row_types()
    }

    fn mysql_row_metadata(out: &mut Vec<DB::TypeMetadata>, lookup: &DB::MetadataLookup) {
        <DB as HasRowMetadata<A>>::mysql_row_metadata(out, lookup);
        <DB as HasRowMetadata<B>>::mysql_row_metadata(out, lookup);
        <DB as HasRowMetadata<C>>::mysql_row_metadata(out, lookup);
        <DB as HasRowMetadata<D>>::mysql_row_metadata(out, lookup);
        <DB as HasRowMetadata<E>>::mysql_row_metadata(out, lookup);
        <DB as HasRowMetadata<F>>::mysql_row_metadata(out, lookup);
        <DB as HasRowMetadata<G>>::mysql_row_metadata(out, lookup);
        <DB as HasRowMetadata<H>>::mysql_row_metadata(out, lookup);
        <DB as HasRowMetadata<I>>::mysql_row_metadata(out, lookup);
        <DB as HasRowMetadata<J>>::mysql_row_metadata(out, lookup);
        assert(out@ =~= old(out)@ + (<DB as HasRowMetadata<A>>::row_types() + <DB as HasRowMetadata<B>>::row_types() + <DB as HasRowMetadata<C>>::row_types() + <DB as HasRowMetadata<D>>::row_types() + <DB as HasRowMetadata<E>>::row_types() + <DB as HasRowMetadata<F>>::row_types() + <DB as HasRowMetadata<G>>::row_types() + <DB as HasRowMetadata<H>>::row_types() + <DB as HasRowMetadata<I>>::row_types() + <DB as HasRowMetadata<J>>::row_types()));
    }
}

impl<A, B, C, D, E, F, G, H, I, J, K, DB> HasRowMetadata<(Typed<A>, Typed<B>, Typed<C>, Typed<D>, Typed<E>, Typed<F>, Typed<G>, Typed<H>, Typed<I>, Typed<J>, Typed<K>)> for DB where
    DB: Backend + HasRowMetadata<A> + HasRowMetadata<B> + HasRowMetadata<C> + HasRowMetadata<D> + HasRowMetadata<E> + HasRowMetadata<F> + HasRowMetadata<G> + HasRowMetadata<H> + HasRowMetadata<I> + HasRowMetadata<J> + HasRowMetadata<K>,
 {
    /// The descriptions of the elements' columns, one element after the other.
    open spec fn row_types() -> Seq<DB::TypeMetadata> {
        <DB as HasRowMetadata<A>>::row_types() + <DB as HasRowMetadata<B>>::row_types() + <DB as HasRowMetadata<C>>::row_types() + <DB as HasRowMetadata<D>>::row_types() + <DB as HasRowMetadata<E>>::row_types() + <DB as HasRowMetadata<F>>::row_types() + <DB as HasRowMetadata<G>>::row_types() + <DB as HasRowMetadata<H>>::row_types() + <DB as HasRowMetadata<I>>::row_types() + <DB as HasRowMetadata<J>>::row_types() + <DB as HasRowMetadata<K>>::row_types()
    }

    fn mysql_row_metadata(out: &mut Vec<DB::TypeMetadata>, lookup: &DB::MetadataLookup) {
        <DB as HasRowMetadata<A>>::mysql_row_metadata(out, lookup);
        <DB as HasRowMetadata<B>>::mysql_row_metadata(out, lookup);
        <DB as HasRowMetadata<C>>::mysql_row_metadata(out, lookup);
        <DB as HasRowMetadata<D>>::mysql_row_metadata(out, lookup);
        <DB as HasRowMetadata<E>>::mysql_row_metadata(out, lookup);
        <DB as HasRowMetadata<F>>::mysql_row_metadata(out, lookup);
        <DB as HasRowMetadata<G>>::mysql_row_metadata(out, lookup);
        <DB as HasRowMetadata<H>>::mysql_row_metadata(out, lookup);
        <DB as HasRowMetadata<I>>::mysql_row_metadata(out, lookup);
        <DB as HasRowMetadata<J>>::mysql_row_metadata(out, lookup);
        <DB as HasRowMetadata<K>>::mysql_row_metadata(out, lookup);
        assert(out@ =~= old(out)@ + (<DB as HasRowMetadata<A>>::row_types() + <DB as HasRowMetadata<B>>::row_types() + <DB as HasRowMetadata<C>>::row_types() + <DB as HasRowMetadata<D>>::row_types() + <DB as HasRowMetadata<E>>::row_types() + <DB as HasRowMetadata<F>>::row_types() + <DB as HasRowMetadata<G>>::row_types() + <DB as HasRowMetadata<H>>::row_types() + <DB as HasRowMetadata<I>>::row_types() + <DB as HasRowMetadata<J>>::row_types() + <DB as HasRowMetadata<K>>::row_types()));
    }
}

impl<A, B, C, D, E, F, G, H, I, J, K, L, DB> HasRowMetadata<(Typed<A>, Typed<B>, Typed<C>, Typed<D>, Typed<E>, Typed<F>, Typed<G>, Typed<H>, Typed<I>, Typed<J>, Typed<K>, Typed<L>)> for DB where
    DB: Backend + HasRowMetadata<A> + HasRowMetadata<B> + HasRowMetadata<C> + HasRowMetadata<D> + HasRowMetadata<E> + HasRowMetadata<F> + HasRowMetadata<G> + HasRowMetadata<H> + HasRowMetadata<I> + HasRowMetadata<J> + HasRowMetadata<K> + HasRowMetadata<L>,
 {
    /// The descriptions of the elements' columns, one element after the other.
    open spec fn row_types() -> Seq<DB::TypeMetadata> {
        <DB as HasRowMetadata<A>>::row_types() + <DB as HasRowMetadata<B>>::row_types() + <DB as HasRowMetadata<C>>::row_types() + <DB as HasRowMetadata<D>>::row_types() + <DB as HasRowMetadata<E>>::row_types() + <DB as HasRowMetadata<F>>::row_types() + <DB as HasRowMetadata<G>>::row_types() + <DB as HasRowMetadata<H>>::row_types() + <DB as HasRowMetadata<I>>::row_types() + <DB as HasRowMetadata<J>>::row_types() + <DB as HasRowMetadata<K>>::row_types() + <DB as HasRowMetadata<L>>::row_types()
    }

    fn mysql_row_metadata(out: &mut Vec<DB::TypeMetadata>, lookup: &DB::MetadataLookup) {
        <DB as HasRowMetadata<A>>::mysql_row_metadata(out, lookup);
        <DB as HasRowMetadata<B>>::mysql_row_metadata(out, lookup);
        <DB as HasRowMetadata<C>>::mysql_row_metadata(out, lookup);
        <DB as HasRowMetadata<D>>::mysql_row_metadata(out, lookup);
        <DB as HasRowMetadata<E>>::mysql_row_metadata(out, lookup);
        <DB as HasRowMetadata<F>>::mysql_row_metadata(out, lookup);
        <DB as HasRowMetadata<G>>::mysql_row_metadata(out, lookup);
        <DB as HasRowMetadata<H>>::mysql_row_metadata(out, lookup);
        <DB as HasRowMetadata<I>>::mysql_row_metadata(out, lookup);
        <DB as HasRowMetadata<J>>::mysql_row_metadata(out, lookup);
        <DB as HasRowMetadata<K>>::mysql_row_metadata(out, lookup);
        <DB as HasRowMetadata<L>>::mysql_row_metadata(out, lookup);
        assert(out@ =~= old(out)@ + (<DB as HasRowMetadata<A>>::row_types() + <DB as HasRowMetadata<B>>::row_types() + <DB as HasRowMetadata<C>>::row_types() + <DB as HasRowMetadata<D>>::row_types() + <DB as HasRowMetadata<E>>::row_types() + <DB as HasRowMetadata<F>>::row_types() + <DB as HasRowMetadata<G>>::row_types() + <DB as HasRowMetadata<H>>::row_types() + <DB as HasRowMetadata<I>>::row_types() + <DB as HasRowMetadata<J>>::row_types() + <DB as HasRowMetadata<K>>::row_types() + <DB as HasRowMetadata<L>>::row_types()));
    }
}

} // verus!
