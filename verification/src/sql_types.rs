//! Marker types that name SQL types and their nullability. They exist only to
//! select conversions; no value of them carries data.

use vstd::prelude::*;
use core::marker::PhantomData;

verus! {

/// Nullability marker: the SQL type never holds NULL.
pub struct NotNull;

/// Nullability marker: the SQL type may hold NULL.
pub struct IsNullable;

/// A marker type that names a SQL type.
pub trait SqlType {
    /// `NotNull` or `IsNullable`.
    type IsNull;
}

/// The nullable version of the SQL type `ST`. Only a type that is itself
/// `NotNull` can be wrapped, so nullability never nests.
pub struct Nullable<ST>(pub PhantomData<ST>);

impl<ST: SqlType<IsNull = NotNull>> SqlType for Nullable<ST> {
    type IsNull = IsNullable;
}

/// The SQL type with its nullability taken off.
pub trait IntoNotNullable {
    type NotNullable;
}

impl<ST: SqlType<IsNull = NotNull>> IntoNotNullable for Nullable<ST> {
    type NotNullable = ST;
}

/// The tag of a record whose columns are addressed by position and have the
/// SQL type `ST`.
pub struct Typed<ST>(pub PhantomData<ST>);

/// The tag of a record whose columns are addressed by name.
pub struct Untyped;

/// 32-bit signed integer.
pub struct Integer;

/// 64-bit signed integer.
pub struct BigInt;

/// Boolean.
pub struct Bool;

/// Character string.
pub struct Text;

/// Character string; another name for `Text`.
pub type VarChar = Text;

/// Byte string.
pub struct Binary;

/// Calendar date.
pub struct Date;

/// Date and time without a time zone.
pub struct Timestamp;

/// Date and time with a time zone.
pub struct Timestamptz;

impl SqlType for Integer {
    type IsNull = NotNull;
}

impl IntoNotNullable for Integer {
    type NotNullable = Integer;
}

impl SqlType for BigInt {
    type IsNull = NotNull;
}

impl IntoNotNullable for BigInt {
    type NotNullable = BigInt;
}

impl SqlType for Bool {
    type IsNull = NotNull;
}

impl IntoNotNullable for Bool {
    type NotNullable = Bool;
}

impl SqlType for Text {
    type IsNull = NotNull;
}

impl IntoNotNullable for Text {
    type NotNullable = Text;
}

impl SqlType for Binary {
    type IsNull = NotNull;
}

impl IntoNotNullable for Binary {
    type NotNullable = Binary;
}

impl SqlType for Date {
    type IsNull = NotNull;
}

impl IntoNotNullable for Date {
    type NotNullable = Date;
}

impl SqlType for Timestamp {
    type IsNull = NotNull;
}

impl IntoNotNullable for Timestamp {
    type NotNullable = Timestamp;
}

impl SqlType for Timestamptz {
    type IsNull = NotNull;
}

impl IntoNotNullable for Timestamptz {
    type NotNullable = Timestamptz;
}

/// How the nullability of one part of a record combines with that of the
/// rest: the whole is `NotNull` only where both are.
pub trait MixedNullable<Rest> {
    type Out;
}

impl MixedNullable<NotNull> for NotNull {
    type Out = NotNull;
}

impl MixedNullable<IsNullable> for NotNull {
    type Out = IsNullable;
}

impl MixedNullable<NotNull> for IsNullable {
    type Out = IsNullable;
}

impl MixedNullable<IsNullable> for IsNullable {
    type Out = IsNullable;
}

/// A record of one column is nullable as its column is.
impl<A> SqlType for (Typed<A>,) where A: SqlType {
    type IsNull = A::IsNull;
}

impl<A, B> SqlType for (Typed<A>, Typed<B>) where
    A: SqlType,
    (Typed<B>,): SqlType,
    A::IsNull: MixedNullable<<(Typed<B>,) as SqlType>::IsNull>,
 {
    type IsNull = <A::IsNull as MixedNullable<<(Typed<B>,) as SqlType>::IsNull>>::Out;
}

impl<A, B, C> SqlType for (Typed<A>, Typed<B>, Typed<C>) where
    A: SqlType,
    (Typed<B>, Typed<C>): SqlType,
    A::IsNull: MixedNullable<<(Typed<B>, Typed<C>) as SqlType>::IsNull>,
 {
    type IsNull = <A::IsNull as MixedNullable<<(Typed<B>, Typed<C>) as SqlType>::IsNull>>::Out;
}

impl<A, B, C, D> SqlType for (Typed<A>, Typed<B>, Typed<C>, Typed<D>) where
    A: SqlType,
    (Typed<B>, Typed<C>, Typed<D>): SqlType,
    A::IsNull: MixedNullable<<(Typed<B>, Typed<C>, Typed<D>) as SqlType>::IsNull>,
 {
    type IsNull = <A::IsNull as MixedNullable<<(Typed<B>, Typed<C>, Typed<D>) as SqlType>::IsNull>>::Out;
}

impl<A, B, C, D, E> SqlType for (Typed<A>, Typed<B>, Typed<C>, Typed<D>, Typed<E>) where
    A: SqlType,
    (Typed<B>, Typed<C>, Typed<D>, Typed<E>): SqlType,
    A::IsNull: MixedNullable<<(Typed<B>, Typed<C>, Typed<D>, Typed<E>) as SqlType>::IsNull>,
 {
    type IsNull = <A::IsNull as MixedNullable<<(Typed<B>, Typed<C>, Typed<D>, Typed<E>) as SqlType>::IsNull>>::Out;
}

impl<A, B, C, D, E, F> SqlType for (Typed<A>, Typed<B>, Typed<C>, Typed<D>, Typed<E>, Typed<F>) where
    A: SqlType,
    (Typed<B>, Typed<C>, Typed<D>, Typed<E>, Typed<F>): SqlType,
    A::IsNull: MixedNullable<<(Typed<B>, Typed<C>, Typed<D>, Typed<E>, Typed<F>) as SqlType>::IsNull>,
 {
    type IsNull = <A::IsNull as MixedNullable<<(Typed<B>, Typed<C>, Typed<D>, Typed<E>, Typed<F>) as SqlType>::IsNull>>::Out;
}

impl<A, B, C, D, E, F, G> SqlType for (Typed<A>, Typed<B>, Typed<C>, Typed<D>, Typed<E>, Typed<F>, Typed<G>) where
    A: SqlType,
    (Typed<B>, Typed<C>, Typed<D>, Typed<E>, Typed<F>, Typed<G>): SqlType,
    A::IsNull: MixedNullable<<(Typed<B>, Typed<C>, Typed<D>, Typed<E>, Typed<F>, Typed<G>) as SqlType>::IsNull>,
 {
    type IsNull = <A::IsNull as MixedNullable<<(Typed<B>, Typed<C>, Typed<D>, Typed<E>, Typed<F>, Typed<G>) as SqlType>::IsNull>>::Out;
}

impl<A, B, C, D, E, F, G, H> SqlType for (Typed<A>, Typed<B>, Typed<C>, Typed<D>, Typed<E>, Typed<F>, Typed<G>, Typed<H>) where
    A: SqlType,
    (Typed<B>, Typed<C>, Typed<D>, Typed<E>, Typed<F>, Typed<G>, Typed<H>): SqlType,
    A::IsNull: MixedNullable<<(Typed<B>, Typed<C>, Typed<D>, Typed<E>, Typed<F>, Typed<G>, Typed<H>) as SqlType>::IsNull>,
 {
    type IsNull = <A::IsNull as MixedNullable<<(Typed<B>, Typed<C>, Typed<D>, Typed<E>, Typed<F>, Typed<G>, Typed<H>) as SqlType>::IsNull>>::Out;
}

impl<A, B, C, D, E, F, G, H, I> SqlType for (Typed<A>, Typed<B>, Typed<C>, Typed<D>, Typed<E>, Typed<F>, Typed<G>, Typed<H>, Typed<I>) where
    A: SqlType,
    (Typed<B>, Typed<C>, Typed<D>, Typed<E>, Typed<F>, Typed<G>, Typed<H>, Typed<I>): SqlType,
    A::IsNull: MixedNullable<<(Typed<B>, Typed<C>, Typed<D>, Typed<E>, Typed<F>, Typed<G>, Typed<H>, Typed<I>) as SqlType>::IsNull>,
 {
    type IsNull = <A::IsNull as MixedNullable<<(Typed<B>, Typed<C>, Typed<D>, Typed<E>, Typed<F>, Typed<G>, Typed<H>, Typed<I>) as SqlType>::IsNull>>::Out;
}

impl<A, B, C, D, E, F, G, H, I, J> SqlType for (Typed<A>, Typed<B>, Typed<C>, Typed<D>, Typed<E>, Typed<F>, Typed<G>, Typed<H>, Typed<I>, Typed<J>) where
    A: SqlType,
    (Typed<B>, Typed<C>, Typed<D>, Typed<E>, Typed<F>, Typed<G>, Typed<H>, Typed<I>, Typed<J>): SqlType,
    A::IsNull: MixedNullable<<(Typed<B>, Typed<C>, Typed<D>, Typed<E>, Typed<F>, Typed<G>, Typed<H>, Typed<I>, Typed<J>) as SqlType>::IsNull>,
 {
    type IsNull = <A::IsNull as MixedNullable<<(Typed<B>, Typed<C>, Typed<D>, Typed<E>, Typed<F>, Typed<G>, Typed<H>, Typed<I>, Typed<J>) as SqlType>::IsNull>>::Out;
}

impl<A, B, C, D, E, F, G, H, I, J, K> SqlType for (Typed<A>, Typed<B>, Typed<C>, Typed<D>, Typed<E>, Typed<F>, Typed<G>, Typed<H>, Typed<I>, Typed<J>, Typed<K>) where
    A: SqlType,
    (Typed<B>, Typed<C>, Typed<D>, Typed<E>, Typed<F>, Typed<G>, Typed<H>, Typed<I>, Typed<J>, Typed<K>): SqlType,
    A::IsNull: MixedNullable<<(Typed<B>, Typed<C>, Typed<D>, Typed<E>, Typed<F>, Typed<G>, Typed<H>, Typed<I>, Typed<J>, Typed<K>) as SqlType>::IsNull>,
 {
    type IsNull = <A::IsNull as MixedNullable<<(Typed<B>, Typed<C>, Typed<D>, Typed<E>, Typed<F>, Typed<G>, Typed<H>, Typed<I>, Typed<J>, Typed<K>) as SqlType>::IsNull>>::Out;
}

impl<A, B, C, D, E, F, G, H, I, J, K, L> SqlType for (Typed<A>, Typed<B>, Typed<C>, Typed<D>, Typed<E>, Typed<F>, Typed<G>, Typed<H>, Typed<I>, Typed<J>, Typed<K>, Typed<L>) where
    A: SqlType,
    (Typed<B>, Typed<C>, Typed<D>, Typed<E>, Typed<F>, Typed<G>, Typed<H>, Typed<I>, Typed<J>, Typed<K>, Typed<L>): SqlType,
    A::IsNull: MixedNullable<<(Typed<B>, Typed<C>, Typed<D>, Typed<E>, Typed<F>, Typed<G>, Typed<H>, Typed<I>, Typed<J>, Typed<K>, Typed<L>) as SqlType>::IsNull>,
 {
    type IsNull = <A::IsNull as MixedNullable<<(Typed<B>, Typed<C>, Typed<D>, Typed<E>, Typed<F>, Typed<G>, Typed<H>, Typed<I>, Typed<J>, Typed<K>, Typed<L>) as SqlType>::IsNull>>::Out;
}

} // verus!
