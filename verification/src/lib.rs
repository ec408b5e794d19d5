//! Property based conversion between records.
//!
//! A record that shares fields with another one, each under the same name and of the same
//! type, can be turned into it: the source becomes a bag of slots, one per field, and the
//! target takes out of the bag the fields it declares, each exactly once. Which fields
//! both have is a matter of trait bounds, so a conversion that lacks a field does not
//! compile. What the values do is a matter of the contracts below: every implementation
//! that Verus accepts keeps them, and the theorems in [`run`] hold of all of them.
use crate::ident::Name;
use vstd::prelude::*;

pub mod ident;
pub mod run;

verus! {

/// The name of a property, spelled as a type.
///
/// ## Examples
///
/// - `I<D<()>>` is the identifier of the property `id`.
/// - `R<E<Q<__<B<O<D<Y<()>>>>>>>>` is the identifier of the property `req_body`.
pub trait PropIdent {
    /// The name that the identifier spells, a lower-case letter or an underscore for each
    /// symbol of the chain.
    spec fn name() -> Name;

    /// An identifier spells at least one symbol, and symbols of the alphabet only.
    proof fn lemma_name_is_spelled()
        ensures
            ident::is_name(Self::name()),
    ;
}

/// A record that can be turned into a bag of its fields.
pub trait PropertyBase {
    /// The bag: one slot for each field of the record.
    type Mid;

    /// The bag that holds the fields of `self`.
    spec fn into_mid_spec(self) -> Self::Mid;

    /// Moves every field of the record into its slot of a new bag.
    fn into_mid(self) -> (mid: Self::Mid)
        ensures
            mid == self.into_mid_spec(),
    ;
}

/// What the slots of one bag have in common: an extraction empties the slot it is made
/// on and leaves the others alone.
pub trait PropertyBag: Sized {
    /// `after` is what an extraction of the field called `name` makes of `before`.
    /// [`TakeProperty::lemma_slot_kept`] says what this means for each slot.
    spec fn emptied(before: Self, after: Self, name: Name) -> bool;
}

/// A bag with a slot for the property whose identifier is `Ident` and whose type is
/// `Type`.
pub trait TakeProperty<Ident, Type>: PropertyBag where Ident: PropIdent {
    /// What the slot holds: the value of the field until it is taken out, nothing from
    /// then on.
    spec fn slot(&self) -> Option<Type>;

    /// Takes the value out of the slot, which must still hold it. The slot is empty
    /// afterwards, so that no second call on the same bag is possible. Callers that Verus
    /// does not check are held to the same: on an empty slot an implementation stops the
    /// program rather than make up a value.
    fn take_only_once(&mut self) -> (value: Type)
        requires
            old(self).slot() is Some,
        ensures
            old(self).slot() == Some(value),
            final(self).slot() is None,
            Self::emptied(*old(self), *final(self), Ident::name()),
    ;

    /// An extraction does not touch this slot unless it is made on a field of this name,
    /// and then all it can do is empty it. Nothing ever fills a slot again.
    proof fn lemma_slot_kept(before: Self, after: Self, name: Name)
        requires
            Self::emptied(before, after, name),
        ensures
            after.slot() == before.slot() || (name == Ident::name() && after.slot() is None),
    ;
}

/// A record with a property whose identifier is `Ident` and whose type is `Type`.
///
/// A struct `Foo` with a field `foo: usize` can implement `Property<F<O<O<()>>>, usize>`.
pub trait Property<Ident, Type>: PropertyBase where
    Ident: PropIdent,
    <Self as PropertyBase>::Mid: TakeProperty<Ident, Type>,
 {
    /// The value of the property in this record.
    spec fn value(&self) -> Type;

    /// Lends the value of the property. The record stays as it is.
    fn get(&self) -> (value: &Type)
        ensures
            *value == self.value(),
    ;

    /// The bag made of a record holds, in the slot of this property, the value that the
    /// record had.
    proof fn lemma_mid_holds_value(self)
        ensures
            self.into_mid_spec().slot() == Some(self.value()),
    ;
}

/// Much like `From` of the standard library, for conversions that go property by
/// property: the source is turned into its bag, and the target is built from the
/// properties that it takes out, one extraction for each of its fields.
///
/// An implementation for a struct `Foo { foo: usize, bar: String }` is generic in the
/// source, which it bounds by `Property<F<O<O<()>>>, usize>` and
/// `Property<B<A<R<()>>>, String>`. Its `prop_from_spec` gives `foo` and `bar` as the
/// [`Property::value`] that the source has under each of the two identifiers.
pub trait PropFrom<T>: Sized {
    /// The target that the source `t` is converted to.
    spec fn prop_from_spec(t: T) -> Self;

    /// Converts the source into the target.
    fn prop_from(t: T) -> (target: Self)
        ensures
            target == Self::prop_from_spec(t),
    ;
}

/// Much like `Into` of the standard library: the conversion of [`PropFrom`], written
/// from the side of the source. Every source has it for every target that can be made
/// from it.
pub trait PropInto<T>: Sized {
    /// The target that `self` is converted to.
    spec fn prop_into_spec(self) -> T;

    /// Converts the source into the target.
    fn prop_into(self) -> (target: T)
        ensures
            target == self.prop_into_spec(),
    ;
}

impl<T, U> PropInto<U> for T where U: PropFrom<T> {
    open spec fn prop_into_spec(self) -> U {
        U::prop_from_spec(self)
    }

    fn prop_into(self) -> U
        returns
            U::prop_from_spec(self),
    {
        U::prop_from(self)
    }
}

/// Both ways of writing a conversion give the same target.
pub proof fn lemma_prop_into_is_prop_from<T, U>(source: T) where U: PropFrom<T>
    ensures
        PropInto::<U>::prop_into_spec(source) == U::prop_from_spec(source),
{
}

} // verus!
