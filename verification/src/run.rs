//! What holds of a bag over a whole conversion.
//!
//! A conversion makes one bag of its source and takes fields out of it, one after the
//! other. The states that the bag goes through form a run. The theorems here follow a
//! slot through every run: it holds the value that the record had until that value is
//! taken out, extractions of other fields do not touch it, and once empty it stays
//! empty.
use crate::ident::Name;
use crate::{PropIdent, Property, PropertyBag, PropertyBase, TakeProperty};
use vstd::prelude::*;

verus! {

/// Whether `bags` are the states of one bag under the extractions `names`: `bags[0]` is
/// the bag before the first of them, and the extraction of the field called `names[k]`
/// makes `bags[k + 1]` of `bags[k]`.
pub open spec fn is_run<M: PropertyBag>(bags: Seq<M>, names: Seq<Name>) -> bool {
    &&& bags.len() == names.len() + 1
    &&& forall|k: int|
        0 <= k < names.len() ==> M::emptied(bags[k], bags[k + 1], #[trigger] names[k])
}

/// Whether none of the first `k` extractions of `names` is made on the field `name`.
pub open spec fn not_named(names: Seq<Name>, k: int, name: Name) -> bool {
    forall|j: int| 0 <= j < k ==> #[trigger] names[j] != name
}

/// A slot never changes what it holds: at every point of a run it is either empty or as
/// it was at the start.
pub proof fn lemma_slot_is_empty_or_unchanged<M, Ident, Type>(
    bags: Seq<M>,
    names: Seq<Name>,
    k: int,
) where M: TakeProperty<Ident, Type>, Ident: PropIdent
    requires
        is_run(bags, names),
        0 <= k <= names.len(),
    ensures
        bags[k].slot() is None || bags[k].slot() == bags[0].slot(),
    decreases k,
{
    if k > 0 {
        lemma_slot_is_empty_or_unchanged::<M, Ident, Type>(bags, names, k - 1);
        M::lemma_slot_kept(bags[k - 1], bags[k], names[k - 1]);
    }
}

/// Slots are independent: extractions of fields of other names leave a slot exactly as
/// it was.
pub proof fn lemma_other_extractions_keep_slot<M, Ident, Type>(
    bags: Seq<M>,
    names: Seq<Name>,
    k: int,
) where M: TakeProperty<Ident, Type>, Ident: PropIdent
    requires
        is_run(bags, names),
        0 <= k <= names.len(),
        not_named(names, k, Ident::name()),
    ensures
        bags[k].slot() == bags[0].slot(),
    decreases k,
{
    if k > 0 {
        lemma_other_extractions_keep_slot::<M, Ident, Type>(bags, names, k - 1);
        M::lemma_slot_kept(bags[k - 1], bags[k], names[k - 1]);
    }
}

/// A slot that is empty at one point of a run is empty at every later point, whatever is
/// extracted in between.
pub proof fn lemma_empty_slot_stays_empty<M, Ident, Type>(
    bags: Seq<M>,
    names: Seq<Name>,
    j: int,
    k: int,
) where M: TakeProperty<Ident, Type>, Ident: PropIdent
    requires
        is_run(bags, names),
        0 <= j <= k <= names.len(),
        bags[j].slot() is None,
    ensures
        bags[k].slot() is None,
    decreases k - j,
{
    if j < k {
        lemma_empty_slot_stays_empty::<M, Ident, Type>(bags, names, j, k - 1);
        M::lemma_slot_kept(bags[k - 1], bags[k], names[k - 1]);
    }
}

/// Whether step `k` of a run takes the value out of the slot of the property: the slot
/// is full before the step and empty after it.
pub open spec fn is_taken_at<M, Ident, Type>(bags: Seq<M>, k: int) -> bool where
    M: TakeProperty<Ident, Type>,
    Ident: PropIdent,
 {
    &&& TakeProperty::<Ident, Type>::slot(&bags[k]) is Some
    &&& TakeProperty::<Ident, Type>::slot(&bags[k + 1]) is None
}

/// Single extraction: no run takes the value of one property out twice.
pub proof fn lemma_taken_only_once<M, Ident, Type>(
    bags: Seq<M>,
    names: Seq<Name>,
    j: int,
    k: int,
) where M: TakeProperty<Ident, Type>, Ident: PropIdent
    requires
        is_run(bags, names),
        0 <= j < k < names.len(),
        is_taken_at::<M, Ident, Type>(bags, j),
    ensures
        !is_taken_at::<M, Ident, Type>(bags, k),
{
    lemma_empty_slot_stays_empty::<M, Ident, Type>(bags, names, j + 1, k);
}

/// Field fidelity: in every run on the bag made of the record `source`, whatever the
/// slot of a property holds is the value that the property had in the record. Every
/// extraction returns what its slot holds, so a conversion takes no other value out.
pub proof fn lemma_slot_holds_value_of_source<S, Ident, Type>(
    source: S,
    bags: Seq<S::Mid>,
    names: Seq<Name>,
    k: int,
) where S: Property<Ident, Type>, S::Mid: TakeProperty<Ident, Type>, Ident: PropIdent
    requires
        is_run(bags, names),
        bags[0] == source.into_mid_spec(),
        0 <= k <= names.len(),
    ensures
        bags[k].slot() is None || bags[k].slot() == Some(source.value()),
{
    lemma_slot_is_empty_or_unchanged::<S::Mid, Ident, Type>(bags, names, k);
    source.lemma_mid_holds_value();
}

/// A property that no extraction has named yet can be taken out: its slot still holds
/// the value that the property had in the record `source`.
pub proof fn lemma_unnamed_property_can_be_taken<S, Ident, Type>(
    source: S,
    bags: Seq<S::Mid>,
    names: Seq<Name>,
    k: int,
) where S: Property<Ident, Type>, S::Mid: TakeProperty<Ident, Type>, Ident: PropIdent
    requires
        is_run(bags, names),
        bags[0] == source.into_mid_spec(),
        0 <= k <= names.len(),
        not_named(names, k, Ident::name()),
    ensures
        bags[k].slot() == Some(source.value()),
{
    lemma_other_extractions_keep_slot::<S::Mid, Ident, Type>(bags, names, k);
    source.lemma_mid_holds_value();
}

} // verus!
