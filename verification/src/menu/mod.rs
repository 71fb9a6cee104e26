pub mod character_select;
pub mod settings;
pub mod title_screen;

use vstd::prelude::*;

verus! {

/// The position after `position` in a menu of `count` options, wrapping to the first.
pub open spec fn next_position(position: nat, count: nat) -> nat {
    (position + 1) % count
}

/// The position before `position` in a menu of `count` options, wrapping to the last.
pub open spec fn previous_position(position: nat, count: nat) -> nat {
    ((position + count - 1) as nat) % count
}

/// A menu whose options are laid out in a fixed order and cycled through.
pub trait MenuOption: Sized + Copy {
    /// Number of options in the menu.
    spec fn count() -> nat;

    /// Where this option stands in the menu.
    spec fn spec_position(&self) -> nat;

    /// The text shown for this option.
    spec fn spec_label(&self) -> Seq<char>;

    /// Options are told apart by their position.
    proof fn position_identifies(a: Self, b: Self)
        requires
            a.spec_position() == b.spec_position(),
        ensures
            a == b,
    ;

    /// Every option has a place in the menu.
    proof fn position_in_menu(option: Self)
        ensures
            option.spec_position() < Self::count(),
    ;

    fn option_count() -> (r: usize)
        ensures
            r == Self::count(),
            r > 0,
    ;

    fn position(&self) -> (r: usize)
        ensures
            r == self.spec_position(),
            r < Self::count(),
    ;

    /// The option at `position`.
    fn at(position: usize) -> (r: Self)
        requires
            position < Self::count(),
        ensures
            r.spec_position() == position,
    ;

    fn get_label(&self) -> (r: &'static str)
        ensures
            r@ == self.spec_label(),
    ;

    /// All options, in menu order.
    fn get() -> (r: Vec<Self>)
        ensures
            r@.len() == Self::count(),
            forall|i: int| 0 <= i < r@.len() ==> #[trigger] r@[i].spec_position() == i,
    {
        let n = Self::option_count();
        let mut items: Vec<Self> = Vec::new();
        let mut i: usize = 0;
        while i < n
            invariant
                n == Self::count(),
                i <= n,
                items@.len() == i,
                forall|k: int| 0 <= k < i ==> #[trigger] items@[k].spec_position() == k,
            decreases n - i,
        {
            items.push(Self::at(i));
            i = i + 1;
        }
        items
    }

    /// The option after this one, wrapping from the last to the first.
    fn next(&self) -> (r: Self)
        ensures
            r.spec_position() == next_position(self.spec_position(), Self::count()),
    {
        let n = Self::option_count();
        let position = self.position();
        Self::at((position + 1) % n)
    }

    /// The option before this one, wrapping from the first to the last.
    fn previous(&self) -> (r: Self)
        ensures
            r.spec_position() == previous_position(self.spec_position(), Self::count()),
    {
        let n = Self::option_count();
        let position = self.position();
        let target = if position == 0 { n - 1 } else { position - 1 };
        proof {
            if position == 0 {
                vstd::arithmetic::div_mod::lemma_small_mod((n - 1) as nat, n as nat);
            } else {
                vstd::arithmetic::div_mod::lemma_mod_add_multiples_vanish(position - 1, n as int);
                vstd::arithmetic::div_mod::lemma_small_mod((position - 1) as nat, n as nat);
            }
        }
        Self::at(target)
    }
}

/// Moving to the next option and then to the previous one (or the other way round) comes
/// back to the option one started from.
pub proof fn menu_moves_undo_each_other<T: MenuOption>(option: T, after_next: T, after_previous: T)
    requires
        after_next.spec_position() == next_position(option.spec_position(), T::count()),
        after_previous.spec_position() == previous_position(option.spec_position(), T::count()),
    ensures
        previous_position(after_next.spec_position(), T::count()) == option.spec_position(),
        next_position(after_previous.spec_position(), T::count()) == option.spec_position(),
{
    let n = T::count() as int;
    let p = option.spec_position() as int;
    assert(n > 0 && 0 <= p < n) by {
        T::position_in_menu(option);
    }
    if p + 1 == n {
        vstd::arithmetic::div_mod::lemma_mod_self_0(n);
        vstd::arithmetic::div_mod::lemma_small_mod((n - 1) as nat, n as nat);
    } else {
        vstd::arithmetic::div_mod::lemma_small_mod((p + 1) as nat, n as nat);
        vstd::arithmetic::div_mod::lemma_mod_add_multiples_vanish(p, n);
        vstd::arithmetic::div_mod::lemma_small_mod(p as nat, n as nat);
    }
    if p == 0 {
        vstd::arithmetic::div_mod::lemma_small_mod((n - 1) as nat, n as nat);
        vstd::arithmetic::div_mod::lemma_mod_self_0(n);
    } else {
        vstd::arithmetic::div_mod::lemma_mod_add_multiples_vanish(p - 1, n);
        vstd::arithmetic::div_mod::lemma_small_mod((p - 1) as nat, n as nat);
        vstd::arithmetic::div_mod::lemma_small_mod(p as nat, n as nat);
    }
}

} // verus!
