//! The alphabet in which the names of properties are spelled.
//!
//! There is one symbol for each letter and one for the underscore. A symbol takes the
//! rest of the name as its parameter, and `()` ends the name: `I<D<()>>` spells `id`.
//! Two chains are one type exactly when they spell one name, symbol for symbol. The
//! symbols are never constructed: they stand in type positions only.
use crate::PropIdent;
use vstd::prelude::*;

verus! {

/// The name of a property, as the characters of the field's name.
pub type Name = Seq<char>;

/// Whether `c` stands for a symbol of the alphabet: a lower-case letter or the underscore.
pub open spec fn is_symbol(c: char) -> bool {
    c == '_' || ('a' <= c && c <= 'z')
}

/// Whether `name` can be spelled: it has at least one character, and each stands for a
/// symbol.
pub open spec fn is_name(name: Name) -> bool {
    &&& name.len() > 0
    &&& forall|i: int| 0 <= i < name.len() ==> is_symbol(#[trigger] name[i])
}

/// The symbol that spells the underscore.
pub struct __<SUCC>(std::marker::PhantomData<SUCC>);

impl<SUCC> PropIdent for __<SUCC> where SUCC: PropIdent {
    open spec fn name() -> Name {
        seq!['_'] + SUCC::name()
    }

    proof fn lemma_name_is_spelled() {
        SUCC::lemma_name_is_spelled();
    }
}

impl PropIdent for __<()> {
    open spec fn name() -> Name {
        seq!['_']
    }

    proof fn lemma_name_is_spelled() {
    }
}

/// The symbol that spells `a`.
pub struct A<SUCC>(std::marker::PhantomData<SUCC>);

impl<SUCC> PropIdent for A<SUCC> where SUCC: PropIdent {
    open spec fn name() -> Name {
        seq!['a'] + SUCC::name()
    }

    proof fn lemma_name_is_spelled() {
        SUCC::lemma_name_is_spelled();
    }
}

impl PropIdent for A<()> {
    open spec fn name() -> Name {
        seq!['a']
    }

    proof fn lemma_name_is_spelled() {
    }
}

/// The symbol that spells `b`.
pub struct B<SUCC>(std::marker::PhantomData<SUCC>);

impl<SUCC> PropIdent for B<SUCC> where SUCC: PropIdent {
    open spec fn name() -> Name {
        seq!['b'] + SUCC::name()
    }

    proof fn lemma_name_is_spelled() {
        SUCC::lemma_name_is_spelled();
    }
}

impl PropIdent for B<()> {
    open spec fn name() -> Name {
        seq!['b']
    }

    proof fn lemma_name_is_spelled() {
    }
}

/// The symbol that spells `c`.
pub struct C<SUCC>(std::marker::PhantomData<SUCC>);

impl<SUCC> PropIdent for C<SUCC> where SUCC: PropIdent {
    open spec fn name() -> Name {
        seq!['c'] + SUCC::name()
    }

    proof fn lemma_name_is_spelled() {
        SUCC::lemma_name_is_spelled();
    }
}

impl PropIdent for C<()> {
    open spec fn name() -> Name {
        seq!['c']
    }

    proof fn lemma_name_is_spelled() {
    }
}

/// The symbol that spells `d`.
pub struct D<SUCC>(std::marker::PhantomData<SUCC>);

impl<SUCC> PropIdent for D<SUCC> where SUCC: PropIdent {
    open spec fn name() -> Name {
        seq!['d'] + SUCC::name()
    }

    proof fn lemma_name_is_spelled() {
        SUCC::lemma_name_is_spelled();
    }
}

impl PropIdent for D<()> {
    open spec fn name() -> Name {
        seq!['d']
    }

    proof fn lemma_name_is_spelled() {
    }
}

/// The symbol that spells `e`.
pub struct E<SUCC>(std::marker::PhantomData<SUCC>);

impl<SUCC> PropIdent for E<SUCC> where SUCC: PropIdent {
    open spec fn name() -> Name {
        seq!['e'] + SUCC::name()
    }

    proof fn lemma_name_is_spelled() {
        SUCC::lemma_name_is_spelled();
    }
}

impl PropIdent for E<()> {
    open spec fn name() -> Name {
        seq!['e']
    }

    proof fn lemma_name_is_spelled() {
    }
}

/// The symbol that spells `f`.
pub struct F<SUCC>(std::marker::PhantomData<SUCC>);

impl<SUCC> PropIdent for F<SUCC> where SUCC: PropIdent {
    open spec fn name() -> Name {
        seq!['f'] + SUCC::name()
    }

    proof fn lemma_name_is_spelled() {
        SUCC::lemma_name_is_spelled();
    }
}

impl PropIdent for F<()> {
    open spec fn name() -> Name {
        seq!['f']
    }

    proof fn lemma_name_is_spelled() {
    }
}

/// The symbol that spells `g`.
pub struct G<SUCC>(std::marker::PhantomData<SUCC>);

impl<SUCC> PropIdent for G<SUCC> where SUCC: PropIdent {
    open spec fn name() -> Name {
        seq!['g'] + SUCC::name()
    }

    proof fn lemma_name_is_spelled() {
        SUCC::lemma_name_is_spelled();
    }
}

impl PropIdent for G<()> {
    open spec fn name() -> Name {
        seq!['g']
    }

    proof fn lemma_name_is_spelled() {
    }
}

/// The symbol that spells `h`.
pub struct H<SUCC>(std::marker::PhantomData<SUCC>);

impl<SUCC> PropIdent for H<SUCC> where SUCC: PropIdent {
    open spec fn name() -> Name {
        seq!['h'] + SUCC::name()
    }

    proof fn lemma_name_is_spelled() {
        SUCC::lemma_name_is_spelled();
    }
}

impl PropIdent for H<()> {
    open spec fn name() -> Name {
        seq!['h']
    }

    proof fn lemma_name_is_spelled() {
    }
}

/// The symbol that spells `i`.
pub struct I<SUCC>(std::marker::PhantomData<SUCC>);

impl<SUCC> PropIdent for I<SUCC> where SUCC: PropIdent {
    open spec fn name() -> Name {
        seq!['i'] + SUCC::name()
    }

    proof fn lemma_name_is_spelled() {
        SUCC::lemma_name_is_spelled();
    }
}

impl PropIdent for I<()> {
    open spec fn name() -> Name {
        seq!['i']
    }

    proof fn lemma_name_is_spelled() {
    }
}

/// The symbol that spells `j`.
pub struct J<SUCC>(std::marker::PhantomData<SUCC>);

impl<SUCC> PropIdent for J<SUCC> where SUCC: PropIdent {
    open spec fn name() -> Name {
        seq!['j'] + SUCC::name()
    }

    proof fn lemma_name_is_spelled() {
        SUCC::lemma_name_is_spelled();
    }
}

impl PropIdent for J<()> {
    open spec fn name() -> Name {
        seq!['j']
    }

    proof fn lemma_name_is_spelled() {
    }
}

/// The symbol that spells `k`.
pub struct K<SUCC>(std::marker::PhantomData<SUCC>);

impl<SUCC> PropIdent for K<SUCC> where SUCC: PropIdent {
    open spec fn name() -> Name {
        seq!['k'] + SUCC::name()
    }

    proof fn lemma_name_is_spelled() {
        SUCC::lemma_name_is_spelled();
    }
}

impl PropIdent for K<()> {
    open spec fn name() -> Name {
        seq!['k']
    }

    proof fn lemma_name_is_spelled() {
    }
}

/// The symbol that spells `l`.
pub struct L<SUCC>(std::marker::PhantomData<SUCC>);

impl<SUCC> PropIdent for L<SUCC> where SUCC: PropIdent {
    open spec fn name() -> Name {
        seq!['l'] + SUCC::name()
    }

    proof fn lemma_name_is_spelled() {
        SUCC::lemma_name_is_spelled();
    }
}

impl PropIdent for L<()> {
    open spec fn name() -> Name {
        seq!['l']
    }

    proof fn lemma_name_is_spelled() {
    }
}

/// The symbol that spells `m`.
pub struct M<SUCC>(std::marker::PhantomData<SUCC>);

impl<SUCC> PropIdent for M<SUCC> where SUCC: PropIdent {
    open spec fn name() -> Name {
        seq!['m'] + SUCC::name()
    }

    proof fn lemma_name_is_spelled() {
        SUCC::lemma_name_is_spelled();
    }
}

impl PropIdent for M<()> {
    open spec fn name() -> Name {
        seq!['m']
    }

    proof fn lemma_name_is_spelled() {
    }
}

/// The symbol that spells `n`.
pub struct N<SUCC>(std::marker::PhantomData<SUCC>);

impl<SUCC> PropIdent for N<SUCC> where SUCC: PropIdent {
    open spec fn name() -> Name {
        seq!['n'] + SUCC::name()
    }

    proof fn lemma_name_is_spelled() {
        SUCC::lemma_name_is_spelled();
    }
}

impl PropIdent for N<()> {
    open spec fn name() -> Name {
        seq!['n']
    }

    proof fn lemma_name_is_spelled() {
    }
}

/// The symbol that spells `o`.
pub struct O<SUCC>(std::marker::PhantomData<SUCC>);

impl<SUCC> PropIdent for O<SUCC> where SUCC: PropIdent {
    open spec fn name() -> Name {
        seq!['o'] + SUCC::name()
    }

    proof fn lemma_name_is_spelled() {
        SUCC::lemma_name_is_spelled();
    }
}

impl PropIdent for O<()> {
    open spec fn name() -> Name {
        seq!['o']
    }

    proof fn lemma_name_is_spelled() {
    }
}

/// The symbol that spells `p`.
pub struct P<SUCC>(std::marker::PhantomData<SUCC>);

impl<SUCC> PropIdent for P<SUCC> where SUCC: PropIdent {
    open spec fn name() -> Name {
        seq!['p'] + SUCC::name()
    }

    proof fn lemma_name_is_spelled() {
        SUCC::lemma_name_is_spelled();
    }
}

impl PropIdent for P<()> {
    open spec fn name() -> Name {
        seq!['p']
    }

    proof fn lemma_name_is_spelled() {
    }
}

/// The symbol that spells `q`.
pub struct Q<SUCC>(std::marker::PhantomData<SUCC>);

impl<SUCC> PropIdent for Q<SUCC> where SUCC: PropIdent {
    open spec fn name() -> Name {
        seq!['q'] + SUCC::name()
    }

    proof fn lemma_name_is_spelled() {
        SUCC::lemma_name_is_spelled();
    }
}

impl PropIdent for Q<()> {
    open spec fn name() -> Name {
        seq!['q']
    }

    proof fn lemma_name_is_spelled() {
    }
}

/// The symbol that spells `r`.
pub struct R<SUCC>(std::marker::PhantomData<SUCC>);

impl<SUCC> PropIdent for R<SUCC> where SUCC: PropIdent {
    open spec fn name() -> Name {
        seq!['r'] + SUCC::name()
    }

    proof fn lemma_name_is_spelled() {
        SUCC::lemma_name_is_spelled();
    }
}

impl PropIdent for R<()> {
    open spec fn name() -> Name {
        seq!['r']
    }

    proof fn lemma_name_is_spelled() {
    }
}

/// The symbol that spells `s`.
pub struct S<SUCC>(std::marker::PhantomData<SUCC>);

impl<SUCC> PropIdent for S<SUCC> where SUCC: PropIdent {
    open spec fn name() -> Name {
        seq!['s'] + SUCC::name()
    }

    proof fn lemma_name_is_spelled() {
        SUCC::lemma_name_is_spelled();
    }
}

impl PropIdent for S<()> {
    open spec fn name() -> Name {
        seq!['s']
    }

    proof fn lemma_name_is_spelled() {
    }
}

/// The symbol that spells `t`.
pub struct T<SUCC>(std::marker::PhantomData<SUCC>);

impl<SUCC> PropIdent for T<SUCC> where SUCC: PropIdent {
    open spec fn name() -> Name {
        seq!['t'] + SUCC::name()
    }

    proof fn lemma_name_is_spelled() {
        SUCC::lemma_name_is_spelled();
    }
}

impl PropIdent for T<()> {
    open spec fn name() -> Name {
        seq!['t']
    }

    proof fn lemma_name_is_spelled() {
    }
}

/// The symbol that spells `u`.
pub struct U<SUCC>(std::marker::PhantomData<SUCC>);

impl<SUCC> PropIdent for U<SUCC> where SUCC: PropIdent {
    open spec fn name() -> Name {
        seq!['u'] + SUCC::name()
    }

    proof fn lemma_name_is_spelled() {
        SUCC::lemma_name_is_spelled();
    }
}

impl PropIdent for U<()> {
    open spec fn name() -> Name {
        seq!['u']
    }

    proof fn lemma_name_is_spelled() {
    }
}

/// The symbol that spells `v`.
pub struct V<SUCC>(std::marker::PhantomData<SUCC>);

impl<SUCC> PropIdent for V<SUCC> where SUCC: PropIdent {
    open spec fn name() -> Name {
        seq!['v'] + SUCC::name()
    }

    proof fn lemma_name_is_spelled() {
        SUCC::lemma_name_is_spelled();
    }
}

impl PropIdent for V<()> {
    open spec fn name() -> Name {
        seq!['v']
    }

    proof fn lemma_name_is_spelled() {
    }
}

/// The symbol that spells `w`.
pub struct W<SUCC>(std::marker::PhantomData<SUCC>);

impl<SUCC> PropIdent for W<SUCC> where SUCC: PropIdent {
    open spec fn name() -> Name {
        seq!['w'] + SUCC::name()
    }

    proof fn lemma_name_is_spelled() {
        SUCC::lemma_name_is_spelled();
    }
}

impl PropIdent for W<()> {
    open spec fn name() -> Name {
        seq!['w']
    }

    proof fn lemma_name_is_spelled() {
    }
}

/// The symbol that spells `x`.
pub struct X<SUCC>(std::marker::PhantomData<SUCC>);

impl<SUCC> PropIdent for X<SUCC> where SUCC: PropIdent {
    open spec fn name() -> Name {
        seq!['x'] + SUCC::name()
    }

    proof fn lemma_name_is_spelled() {
        SUCC::lemma_name_is_spelled();
    }
}

impl PropIdent for X<()> {
    open spec fn name() -> Name {
        seq!['x']
    }

    proof fn lemma_name_is_spelled() {
    }
}

/// The symbol that spells `y`.
pub struct Y<SUCC>(std::marker::PhantomData<SUCC>);

impl<SUCC> PropIdent for Y<SUCC> where SUCC: PropIdent {
    open spec fn name() -> Name {
        seq!['y'] + SUCC::name()
    }

    proof fn lemma_name_is_spelled() {
        SUCC::lemma_name_is_spelled();
    }
}

impl PropIdent for Y<()> {
    open spec fn name() -> Name {
        seq!['y']
    }

    proof fn lemma_name_is_spelled() {
    }
}

/// The symbol that spells `z`.
pub struct Z<SUCC>(std::marker::PhantomData<SUCC>);

impl<SUCC> PropIdent for Z<SUCC> where SUCC: PropIdent {
    open spec fn name() -> Name {
        seq!['z'] + SUCC::name()
    }

    proof fn lemma_name_is_spelled() {
        SUCC::lemma_name_is_spelled();
    }
}

impl PropIdent for Z<()> {
    open spec fn name() -> Name {
        seq!['z']
    }

    proof fn lemma_name_is_spelled() {
    }
}

} // verus!
