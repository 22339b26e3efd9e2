//! User-defined SQL functions: what is checked when one is registered, and
//! what happens each time the engine calls it.

use vstd::prelude::*;
use vstd::slice::slice_subrange;
use core::marker::PhantomData;
use crate::backend::HasSqlType;
use crate::deserialize::{outcome, FromSqlRow, StaticallySizedRow};
use crate::result::{DatabaseErrorKind, Error, Failure, QueryResult};
use crate::row::{Field, FieldView, Row};
use crate::serialize::{written, IsNull, Output, ToSql};
use crate::sql_types::Typed;
use crate::sqlite::backend::{argument_value, RawArgument, Sqlite, SqliteType, SqliteValue};
use crate::round_trip::RoundTrip;
use crate::sqlite::connection::serialized_value::{engine_value, SerializedValue};

verus! {

/// The largest number of parameters that the engine lets a function declare.
pub const MAX_PARAMETERS: usize = 127;

/// The columns that an array of argument handles presents: one per
/// argument, in order, all without a name.
pub open spec fn argument_fields(args: Seq<RawArgument<'_>>) -> Seq<FieldView<Sqlite>> {
    Seq::new(args.len(), |i: int| FieldView { name: None, value: argument_value(args[i]) })
}

/// The error of a function that declares too many parameters.
pub open spec fn too_many_parameters() -> Failure {
    Failure::DatabaseError(
        DatabaseErrorKind::UnableToRegister,
        "SQLite functions cannot take more than 127 parameters"@,
    )
}

/// A scalar function that passed registration: what the engine is told of
/// it, and the function to run when the engine calls.
pub struct SqlFunction<ArgsSqlType, RetSqlType, Args, Ret, F> {
    name: String,
    arity: usize,
    deterministic: bool,
    function: F,
    types: PhantomData<(ArgsSqlType, RetSqlType, Args, Ret)>,
}

/// An aggregate function that passed registration: what the engine is told
/// of it. The aggregator `A` is made anew for each group.
pub struct SqlAggregate<ArgsSqlType, RetSqlType, Args, Ret, A> {
    name: String,
    arity: usize,
    types: PhantomData<(ArgsSqlType, RetSqlType, Args, Ret, A)>,
}

/// An aggregate over rows of `Args`: it takes the rows of a group one by one
/// and is then turned into the group's result.
pub trait SqliteAggregateFunction<Args>: Sized {
    /// The result of the aggregation.
    type Output;

    /// Takes in one more row of the group.
    fn step(&mut self, args: Args);

    /// Ends the aggregation. `aggregator` is `None` for a group without rows.
    fn finalize(aggregator: Option<Self>) -> Self::Output;
}

/// What the result `value` of a function is handed to the engine as: the
/// storage class of its SQL type, and its bytes unless it is NULL. A value
/// too large for any buffer is an error.
pub open spec fn returned<RetSqlType, Ret: ToSql<RetSqlType, Sqlite>>(
    value: Ret,
) -> Result<(SqliteType, Option<Seq<u8>>), Failure> where Sqlite: HasSqlType<RetSqlType> {
    match written(Seq::empty(), usize::MAX as nat, value.encoded()) {
        (Ok(IsNull::No), bytes) => Ok((<Sqlite as HasSqlType<RetSqlType>>::type_of(), Some(bytes))),
        (Ok(IsNull::Yes), _) => Ok((<Sqlite as HasSqlType<RetSqlType>>::type_of(), None)),
        (Err(error), _) => Err(Failure::SerializationError(error)),
    }
}

/// A result that is handed to the engine comes back, as the argument of
/// another call, as the value that the function returned.
pub proof fn lemma_result_comes_back<RetSqlType, Ret>(value: Ret) where
    Ret: RoundTrip<RetSqlType, Sqlite>,
    Sqlite: HasSqlType<RetSqlType>,

    ensures
        returned::<RetSqlType, Ret>(value) matches Ok((ty, Some(bytes))) ==> Ret::decode(
            engine_value(ty, bytes),
        ) == crate::deserialize::Outcome::<Ret::V>::Ok(value.deep_view()),
{
    value.lemma_round_trip(
        engine_value(<Sqlite as HasSqlType<RetSqlType>>::type_of(), value.encoded().unwrap()),
    );
}

/// The arity under which a function is registered is the number of argument
/// slots that building its arguments takes: called with that many
/// arguments, a successful build takes them all and leaves none.
pub proof fn lemma_build_takes_every_argument<ArgsSqlType, Args>(args: Seq<RawArgument<'_>>) where
    Args: FromSqlRow<Typed<ArgsSqlType>, Sqlite> + StaticallySizedRow<Typed<ArgsSqlType>, Sqlite>,

    requires
        args.len() == Args::field_count(),
        args.len() <= MAX_PARAMETERS,
        Args::built(argument_fields(args)) is Ok,
    ensures
        Args::FIELD_COUNT == args.len(),
        Args::consumed(argument_fields(args)) == Args::FIELD_COUNT,
        argument_fields(args).skip(Args::consumed(argument_fields(args)) as int).len() == 0,
{
    Args::lemma_field_count();
    Args::lemma_fixed_width(argument_fields(args));
}

/// What a serialized result or an error amounts to.
pub open spec fn handed_back(result: QueryResult<SerializedValue>) -> Result<
    (SqliteType, Option<Seq<u8>>),
    Failure,
> {
    match result {
        Ok(value) => Ok(
            (
                value.ty,
                match value.data {
                    Some(bytes) => Some(bytes@),
                    None => None,
                },
            ),
        ),
        Err(error) => Err(error@),
    }
}

impl<ArgsSqlType, RetSqlType, Args, Ret, F> SqlFunction<ArgsSqlType, RetSqlType, Args, Ret, F> {
    /// The name under which the function is registered.
    pub closed spec fn spec_name(&self) -> Seq<char> {
        self.name@
    }

    /// The number of parameters that the function declares.
    pub closed spec fn spec_arity(&self) -> usize {
        self.arity
    }

    /// Whether the function always gives the same result for the same
    /// arguments.
    pub closed spec fn spec_deterministic(&self) -> bool {
        self.deterministic
    }

    /// The function that runs on each call.
    pub closed spec fn spec_function(&self) -> F {
        self.function
    }

    /// The name under which the function is registered.
    pub fn name(&self) -> (name: &str)
        ensures
            name@ == self.spec_name(),
    {
        self.name.as_str()
    }

    /// The number of parameters that the function declares.
    pub fn arity(&self) -> (arity: usize)
        ensures
            arity == self.spec_arity(),
    {
        self.arity
    }

    /// Whether the function always gives the same result for the same
    /// arguments.
    pub fn deterministic(&self) -> (deterministic: bool)
        ensures
            deterministic == self.spec_deterministic(),
    {
        self.deterministic
    }
}

impl<ArgsSqlType, RetSqlType, Args, Ret, F> SqlFunction<ArgsSqlType, RetSqlType, Args, Ret, F> where
    F: Fn(Args) -> Ret,
    Args: FromSqlRow<Typed<ArgsSqlType>, Sqlite> + StaticallySizedRow<Typed<ArgsSqlType>, Sqlite>,
    Ret: ToSql<RetSqlType, Sqlite>,
    Sqlite: HasSqlType<RetSqlType>,
 {
    /// One call by the engine: builds the function's arguments from the
    /// handles, runs the function and serializes what it returns. Arguments
    /// that cannot be built are an error, and the function is not run.
    pub fn call(&self, args: &[RawArgument<'_>]) -> (result: QueryResult<SerializedValue>)
        requires
            forall|built: Args| #[trigger] call_requires(self.spec_function(), (built,)),
        ensures
            match Args::built(argument_fields(args@)) {
                Err(fault) => handed_back(result) == Err::<(SqliteType, Option<Seq<u8>>), Failure>(
                    Failure::DeserializationError(fault),
                ),
                Ok(value) => exists|built: Args, ret: Ret|
                    built.deep_view() == value && #[trigger] call_ensures(
                        self.spec_function(),
                        (built,),
                        ret,
                    ) && handed_back(result) == returned::<RetSqlType, Ret>(ret),
            },
    {
        let built = match build_sql_function_args::<ArgsSqlType, Args>(args) {
            Ok(built) => built,
            Err(error) => {
                return Err(error);
            },
        };
        let ghost witness = built;
        assert(call_requires(self.spec_function(), (built,)));
        let ret = (self.function)(built);
        let ghost returned_value = ret;
        let result = process_sql_function_result::<RetSqlType, Ret>(ret);
        assert(call_ensures(self.spec_function(), (witness,), returned_value));
        result
    }
}

/// Checks a scalar function before it is registered under `fn_name`. A
/// function whose arguments span more than `MAX_PARAMETERS` columns is
/// refused; any other is returned with what the engine must be told of it.
pub fn register<ArgsSqlType, RetSqlType, Args, Ret, F>(
    fn_name: &str,
    deterministic: bool,
    f: F,
) -> (result: QueryResult<SqlFunction<ArgsSqlType, RetSqlType, Args, Ret, F>>) where
    F: Fn(Args) -> Ret,
    Args: FromSqlRow<Typed<ArgsSqlType>, Sqlite> + StaticallySizedRow<Typed<ArgsSqlType>, Sqlite>,
    Ret: ToSql<RetSqlType, Sqlite>,
    Sqlite: HasSqlType<RetSqlType>,

    ensures
        result is Err <==> Args::FIELD_COUNT > MAX_PARAMETERS,
        result matches Err(error) ==> error@ == too_many_parameters(),
        result matches Ok(function) ==> {
            &&& function.spec_name() == fn_name@
            &&& function.spec_arity() == Args::FIELD_COUNT
            &&& function.spec_deterministic() == deterministic
            &&& function.spec_function() == f
        },
{
    let fields_needed = Args::FIELD_COUNT;
    if fields_needed > MAX_PARAMETERS {
        return Err(
            Error::DatabaseError(
                DatabaseErrorKind::UnableToRegister,
                "SQLite functions cannot take more than 127 parameters".to_owned(),
            ),
        );
    }
    Ok(
        SqlFunction {
            name: fn_name.to_owned(),
            arity: fields_needed,
            deterministic,
            function: f,
            types: PhantomData,
        },
    )
}

impl<ArgsSqlType, RetSqlType, Args, Ret, A> SqlAggregate<ArgsSqlType, RetSqlType, Args, Ret, A> {
    /// The name under which the aggregate is registered.
    pub closed spec fn spec_name(&self) -> Seq<char> {
        self.name@
    }

    /// The number of parameters that the aggregate declares.
    pub closed spec fn spec_arity(&self) -> usize {
        self.arity
    }

    /// The name under which the aggregate is registered.
    pub fn name(&self) -> (name: &str)
        ensures
            name@ == self.spec_name(),
    {
        self.name.as_str()
    }

    /// The number of parameters that the aggregate declares.
    pub fn arity(&self) -> (arity: usize)
        ensures
            arity == self.spec_arity(),
    {
        self.arity
    }
}

/// Checks an aggregate function before it is registered under `fn_name`. An
/// aggregate whose arguments span more than `MAX_PARAMETERS` columns is
/// refused; any other is returned with what the engine must be told of it.
pub fn register_aggregate<ArgsSqlType, RetSqlType, Args, Ret, A>(fn_name: &str) -> (result:
    QueryResult<SqlAggregate<ArgsSqlType, RetSqlType, Args, Ret, A>>) where
    A: SqliteAggregateFunction<Args, Output = Ret>,
    Args: FromSqlRow<Typed<ArgsSqlType>, Sqlite> + StaticallySizedRow<Typed<ArgsSqlType>, Sqlite>,
    Ret: ToSql<RetSqlType, Sqlite>,
    Sqlite: HasSqlType<RetSqlType>,

    ensures
        result is Err <==> Args::FIELD_COUNT > MAX_PARAMETERS,
        result matches Err(error) ==> error@ == too_many_parameters(),
        result matches Ok(aggregate) ==> aggregate.spec_name() == fn_name@
            && aggregate.spec_arity() == Args::FIELD_COUNT,
{
    let fields_needed = Args::FIELD_COUNT;
    if fields_needed > MAX_PARAMETERS {
        return Err(
            Error::DatabaseError(
                DatabaseErrorKind::UnableToRegister,
                "SQLite functions cannot take more than 127 parameters".to_owned(),
            ),
        );
    }
    Ok(SqlAggregate { name: fn_name.to_owned(), arity: fields_needed, types: PhantomData })
}

/// Builds the arguments of a function from the handles that the engine
/// passed.
pub fn build_sql_function_args<ArgsSqlType, Args>(args: &[RawArgument<'_>]) -> (result: Result<
    Args,
    Error,
>) where Args: FromSqlRow<Typed<ArgsSqlType>, Sqlite>
    ensures
        match Args::built(argument_fields(args@)) {
            Ok(value) => result matches Ok(built) && built.deep_view() == value,
            Err(fault) => result matches Err(error) && error@ == Failure::DeserializationError(
                fault,
            ),
        },
{
    let mut row = FunctionRow::new(args);
    match Args::build_from_row(&mut row) {
        Ok(built) => Ok(built),
        Err(error) => Err(Error::DeserializationError(error)),
    }
}

/// Serializes what a function returned, for the engine: the storage class of
/// the SQL type and the bytes, or no bytes for NULL.
pub fn process_sql_function_result<RetSqlType, Ret>(result: Ret) -> (serialized: QueryResult<
    SerializedValue,
>) where Ret: ToSql<RetSqlType, Sqlite>, Sqlite: HasSqlType<RetSqlType>
    ensures
        handed_back(serialized) == returned::<RetSqlType, Ret>(result),
{
    let mut buf = Output::new(Vec::new());
    let is_null = match result.to_sql(&mut buf) {
        Ok(is_null) => is_null,
        Err(error) => {
            return Err(Error::SerializationError(error));
        },
    };
    let bytes = if let IsNull::Yes = is_null {
        None
    } else {
        Some(buf.into_inner())
    };
    Ok(SerializedValue { ty: <Sqlite as HasSqlType<RetSqlType>>::metadata(&()), data: bytes })
}

/// The arguments of one call as a cursor: each step takes one handle off the
/// front of those that are left.
#[derive(Clone, Copy)]
pub struct FunctionRow<'a> {
    column_count: usize,
    args: &'a [RawArgument<'a>],
}

/// One argument of one call.
pub struct FunctionArgument<'a> {
    arg: RawArgument<'a>,
}

impl<'a> FunctionRow<'a> {
    /// The handles not yet taken.
    pub closed spec fn handles(&self) -> Seq<RawArgument<'a>> {
        self.args@
    }

    /// The number of arguments of the call.
    pub closed spec fn spec_column_count(&self) -> usize {
        self.column_count
    }

    /// A cursor over all of `args`.
    pub fn new(args: &'a [RawArgument<'a>]) -> (row: Self)
        ensures
            row.handles() == args@,
            row.spec_column_count() == args@.len(),
            row.remaining() == argument_fields(args@),
    {
        Self { column_count: args.len(), args }
    }

    /// The number of arguments of the call.
    pub fn column_count(&self) -> (n: usize)
        ensures
            n == self.spec_column_count(),
    {
        self.column_count
    }

    /// The bounds on the number of arguments left: both are that number.
    pub fn size_hint(&self) -> (bounds: (usize, Option<usize>))
        ensures
            bounds.0 == self.remaining().len(),
            bounds.1 == Some(bounds.0),
    {
        (self.args.len(), Some(self.args.len()))
    }
}

impl<'a> Row<'a, Sqlite> for FunctionRow<'a> {
    type Item = FunctionArgument<'a>;

    open spec fn remaining(&self) -> Seq<FieldView<Sqlite>> {
        argument_fields(self.handles())
    }

    fn next(&mut self) -> (field: Option<FunctionArgument<'a>>)
        ensures
            final(self).spec_column_count() == old(self).spec_column_count(),
            old(self).handles().len() > 0 ==> final(self).handles() == old(
                self,
            ).handles().drop_first(),
            old(self).handles().len() == 0 ==> final(self).handles() == old(self).handles(),
    {
        if self.args.len() == 0 {
            None
        } else {
            let first = self.args[0];
            self.args = slice_subrange(self.args, 1, self.args.len());
            assert(self.args@ =~= old(self).args@.drop_first());
            assert(self.remaining() =~= old(self).remaining().drop_first());
            Some(FunctionArgument { arg: first })
        }
    }

    fn len(&self) -> (n: usize) {
        self.args.len()
    }

    fn duplicate(&self) -> (copy: Self)
        ensures
            copy.handles() == self.handles(),
            copy.spec_column_count() == self.spec_column_count(),
    {
        Self { column_count: self.column_count, args: self.args }
    }
}

impl<'a> Field<'a, Sqlite> for FunctionArgument<'a> {
    closed spec fn column(&self) -> FieldView<Sqlite> {
        FieldView { name: None, value: argument_value(self.arg) }
    }

    fn column_name(&self) -> (name: Option<&str>) {
        None
    }

    fn is_null(&self) -> (null: bool) {
        self.value().is_none()
    }

    fn value(&self) -> (raw: Option<SqliteValue<'a>>) {
        SqliteValue::new(self.arg)
    }
}

} // verus!
