//! A timestamp taken in a time zone.

use vstd::prelude::*;
use crate::expression::Expression;
use crate::pg::backend::Pg;
use crate::query_builder::{AstPass, QueryFragment, Rendering};
use crate::result::QueryResult;
use crate::sql_types::{Date, NotNull, Nullable, SqlType, Timestamp, Timestamptz, Typed, VarChar};

verus! {

/// Marker trait for types which are valid in `AT TIME ZONE` expressions.
pub trait DateTimeLike {

}

impl DateTimeLike for Date {

}

impl DateTimeLike for Timestamp {

}

impl DateTimeLike for Timestamptz {

}

impl<T> DateTimeLike for Nullable<T> where T: SqlType<IsNull = NotNull> + DateTimeLike {

}

impl<T> DateTimeLike for Typed<T> where T: DateTimeLike + SqlType {

}

/// The expression `timestamp AT TIME ZONE timezone`.
#[derive(Debug, Copy, Clone)]
pub struct AtTimeZone<Ts, Tz> {
    timestamp: Ts,
    timezone: Tz,
}

/// What `AT TIME ZONE` writes between what its two sides write; the first
/// side that fails is the whole's failure.
pub open spec fn at_time_zone(timestamp: Rendering, timezone: Rendering) -> Rendering {
    match timestamp {
        Err(failure) => Err(failure),
        Ok(left) => match timezone {
            Err(failure) => Err(failure),
            Ok(right) => Ok(left + " AT TIME ZONE "@ + right),
        },
    }
}

impl<Ts, Tz> AtTimeZone<Ts, Tz> {
    /// The timestamp that is taken in a time zone.
    pub closed spec fn spec_timestamp(&self) -> Ts {
        self.timestamp
    }

    /// The time zone that the timestamp is taken in.
    pub closed spec fn spec_timezone(&self) -> Tz {
        self.timezone
    }

    /// `timestamp` taken in the time zone `timezone`.
    pub fn new(timestamp: Ts, timezone: Tz) -> (expression: Self)
        ensures
            expression.spec_timestamp() == timestamp,
            expression.spec_timezone() == timezone,
    {
        AtTimeZone { timestamp: timestamp, timezone: timezone }
    }
}

impl<Ts, Tz> Expression for AtTimeZone<Ts, Tz> where
    Ts: Expression,
    Ts::SqlType: DateTimeLike,
    Tz: Expression<SqlType = Typed<VarChar>>,
 {
    type SqlType = Typed<Timestamp>;
}

impl<Ts, Tz> QueryFragment<Pg> for AtTimeZone<Ts, Tz> where
    Ts: QueryFragment<Pg>,
    Tz: QueryFragment<Pg>,
 {
    open spec fn rendered(&self) -> Rendering {
        at_time_zone(self.spec_timestamp().rendered(), self.spec_timezone().rendered())
    }

    fn walk_ast(&self, out: &mut AstPass<Pg>) -> (result: QueryResult<()>) {
        match self.timestamp.walk_ast(out) {
            Ok(()) => {},
            Err(error) => {
                return Err(error);
            },
        }
        out.push_sql(" AT TIME ZONE ");
        match self.timezone.walk_ast(out) {
            Ok(()) => {},
            Err(error) => {
                return Err(error);
            },
        }
        assert(out@ =~= old(out)@ + (self.spec_timestamp().rendered()->Ok_0 + " AT TIME ZONE "@
            + self.spec_timezone().rendered()->Ok_0));
        Ok(())
    }
}

} // verus!
