use vstd::prelude::*;

use crate::boolean_button::BooleanButton;

verus! {

/// A pair of opposite inputs: one that increases a value and one that decreases it.
#[derive(Copy, Clone, Debug, PartialEq, Eq)]
pub struct IncDec<T> {
    pub increase: T,
    pub decrease: T,
}

impl IncDec<BooleanButton> {
    pub fn any_just_pressed(&self) -> (r: bool)
        ensures
            r == (self.increase.just_pressed_spec() || self.decrease.just_pressed_spec()),
    {
        self.increase.is_just_pressed() || self.decrease.is_just_pressed()
    }

    pub fn any_just_released(&self) -> (r: bool)
        ensures
            r == (self.increase.just_released_spec() || self.decrease.just_released_spec()),
    {
        self.increase.is_just_released() || self.decrease.is_just_released()
    }

    pub fn to_just_pressed(&self) -> (r: IncDec<bool>)
        ensures
            r.increase == self.increase.just_pressed_spec(),
            r.decrease == self.decrease.just_pressed_spec(),
    {
        IncDec { increase: self.increase.is_just_pressed(), decrease: self.decrease.is_just_pressed() }
    }

    /// Samples both buttons.
    pub fn track(&mut self)
        ensures
            final(self).increase.input == old(self).increase.input,
            final(self).increase.activated_spec() == old(self).increase.input,
            final(self).increase.just_pressed_spec() == (old(self).increase.input
                && !old(self).increase.activated_spec()),
            final(self).increase.just_released_spec() == (!old(self).increase.input
                && old(self).increase.activated_spec()),
            final(self).decrease.input == old(self).decrease.input,
            final(self).decrease.activated_spec() == old(self).decrease.input,
            final(self).decrease.just_pressed_spec() == (old(self).decrease.input
                && !old(self).decrease.activated_spec()),
            final(self).decrease.just_released_spec() == (!old(self).decrease.input
                && old(self).decrease.activated_spec()),
    {
        self.increase.track_input();
        self.decrease.track_input();
    }
}

impl IncDec<bool> {
    pub fn new(increase: bool, decrease: bool) -> (r: IncDec<bool>)
        ensures
            r.increase == increase,
            r.decrease == decrease,
    {
        IncDec { increase, decrease }
    }

    pub fn any_active(self) -> (r: bool)
        ensures
            r == (self.increase || self.decrease),
    {
        self.increase || self.decrease
    }
}

impl Default for IncDec<bool> {
    fn default() -> (r: Self)
        ensures
            !r.increase && !r.decrease,
    {
        IncDec { increase: false, decrease: false }
    }
}

impl Default for IncDec<BooleanButton> {
    fn default() -> (r: Self)
        ensures
            r.increase == BooleanButton::released(),
            r.decrease == BooleanButton::released(),
    {
        IncDec { increase: BooleanButton::new(), decrease: BooleanButton::new() }
    }
}

/// Values that can be put back to their default.
pub trait DefaultReset: Sized {
    /// The default value of the type.
    spec fn default_value() -> Self;

    fn reset(&mut self)
        ensures
            *final(self) == Self::default_value(),
    ;
}

impl DefaultReset for IncDec<bool> {
    open spec fn default_value() -> Self {
        IncDec { increase: false, decrease: false }
    }

    fn reset(&mut self) {
        *self = IncDec::default();
    }
}

impl DefaultReset for IncDec<BooleanButton> {
    open spec fn default_value() -> Self {
        IncDec { increase: BooleanButton::released(), decrease: BooleanButton::released() }
    }

    fn reset(&mut self) {
        *self = IncDec::default();
    }
}

/// A width and a height.
#[derive(Copy, Clone, Debug, PartialEq, Eq)]
pub struct Size2D<T: Copy> {
    pub width: T,
    pub height: T,
}

impl<T: Copy> Size2D<T> {
    pub fn to_tuple(self) -> (r: (T, T))
        ensures
            r == (self.width, self.height),
    {
        (self.width, self.height)
    }
}

/// A value that steps through a list of options.
pub trait OptionCursor: Sized {
    /// The value after one step forward.
    spec fn next_spec(self) -> Self;

    /// The value after one step back.
    spec fn previous_spec(self) -> Self;

    /// A step can be taken from this value.
    spec fn can_step(self) -> bool;

    spec fn maximum_reached_spec(self) -> bool;

    spec fn minimum_reached_spec(self) -> bool;

    fn next_option(&mut self)
        requires
            old(self).can_step(),
        ensures
            *final(self) == old(self).next_spec(),
    ;

    fn previous_option(&mut self)
        requires
            old(self).can_step(),
        ensures
            *final(self) == old(self).previous_spec(),
    ;

    fn has_reached_maximum_limit(&self) -> (r: bool)
        ensures
            r == self.maximum_reached_spec(),
    ;

    fn has_reached_minimum_limit(&self) -> (r: bool)
        ensures
            r == self.minimum_reached_spec(),
    ;
}

/// Field-less enums whose variants are numbered `0..count()`.
pub trait EnumOptions: Sized + Copy {
    /// The number of the variant.
    spec fn index(self) -> nat;

    /// The number of variants.
    spec fn count() -> nat;

    /// The variant with a given number.
    spec fn from_index_spec(i: nat) -> Self;

    proof fn lemma_index(self)
        ensures
            self.index() < Self::count(),
            Self::count() <= usize::MAX,
            Self::from_index_spec(self.index()) == self,
    ;

    proof fn lemma_from_index(i: nat)
        requires
            i < Self::count(),
        ensures
            Self::from_index_spec(i).index() == i,
    ;

    fn to_index(&self) -> (r: usize)
        ensures
            r == self.index(),
    ;

    fn from_index(i: usize) -> (r: Option<Self>)
        ensures
            i < Self::count() ==> r == Some(Self::from_index_spec(i as nat)),
            i >= Self::count() ==> r is None,
    ;

    fn len() -> (r: usize)
        ensures
            r == Self::count(),
            r > 0,
    ;
}

/// The variant one step after `v`, wrapping around to the first.
pub open spec fn next_variant<T: EnumOptions>(v: T) -> T {
    if v.index() + 1 < T::count() {
        T::from_index_spec(v.index() + 1)
    } else {
        T::from_index_spec(0)
    }
}

/// The variant one step before `v`, wrapping around to the last.
pub open spec fn previous_variant<T: EnumOptions>(v: T) -> T {
    if v.index() == 0 {
        T::from_index_spec((T::count() - 1) as nat)
    } else {
        T::from_index_spec((v.index() - 1) as nat)
    }
}

/// Replaces `instance` by the variant whose number `action` computes from its own; a
/// number without a variant gives the first variant.
pub fn change_enum_variant<T: EnumOptions, F: FnOnce(usize) -> usize>(instance: &mut T, action: F)
    requires
        forall|u: usize| u < T::count() ==> #[trigger] action.requires((u,)),
    ensures
        exists|n: usize|
            #[trigger] action.ensures((old(instance).index() as usize,), n) && *final(instance) == (if n
                < T::count() {
                T::from_index_spec(n as nat)
            } else {
                T::from_index_spec(0)
            }),
{
    proof {
        instance.lemma_index();
    }
    let ghost before = *instance;
    let n = action(instance.to_index());
    let changed = match T::from_index(n) {
        Some(v) => v,
        None => {
            let first = T::from_index(0);
            first.unwrap()
        },
    };
    *instance = changed;
    assert(action.ensures((before.index() as usize,), n));
}

fn following_index(u: usize) -> (r: usize)
    requires
        u < usize::MAX,
    ensures
        r == u + 1,
{
    u + 1
}

/// Moves an enum one variant forward, wrapping around.
pub fn next_enum_variant<T: EnumOptions>(instance: &mut T)
    ensures
        *final(instance) == next_variant(*old(instance)),
{
    proof {
        instance.lemma_index();
        assert forall|u: usize| u < T::count() implies #[trigger] following_index.requires((u,)) by {}
    }
    let ghost before = *instance;
    change_enum_variant(instance, following_index);
    proof {
        let n = choose|n: usize|
            #[trigger] following_index.ensures((before.index() as usize,), n) && *instance == (if n
                < T::count() {
                T::from_index_spec(n as nat)
            } else {
                T::from_index_spec(0)
            });
        assert(n == before.index() + 1);
    }
}

/// Moves an enum one variant back, wrapping around.
pub fn previous_enum_variant<T: EnumOptions>(instance: &mut T)
    ensures
        *final(instance) == previous_variant(*old(instance)),
{
    proof {
        instance.lemma_index();
    }
    let u = instance.to_index();
    let target = if u == 0 {
        T::len() - 1
    } else {
        u - 1
    };
    proof {
        T::lemma_from_index(target as nat);
    }
    *instance = T::from_index(target).unwrap();
}

/// Stepping an enum forward and then back gives the variant one started from, and so
/// does stepping back and then forward.
pub proof fn lemma_enum_steps_undo<T: EnumOptions>(v: T)
    ensures
        previous_variant(next_variant(v)) == v,
        next_variant(previous_variant(v)) == v,
{
    v.lemma_index();
    let n = next_variant(v);
    if v.index() + 1 < T::count() {
        T::lemma_from_index(v.index() + 1);
    } else {
        T::lemma_from_index(0);
    }
    let p = previous_variant(v);
    if v.index() == 0 {
        T::lemma_from_index((T::count() - 1) as nat);
    } else {
        T::lemma_from_index((v.index() - 1) as nat);
    }
}

/// Splits a number into its four bytes, most significant first.
pub fn transform_u32_to_array_of_u8(x: u32) -> (r: [u8; 4])
    ensures
        r[0] == x / 0x100_0000,
        r[1] == (x / 0x1_0000) % 0x100,
        r[2] == (x / 0x100) % 0x100,
        r[3] == x % 0x100,
{
    let b1: u8 = ((x >> 24u32) & 0xff) as u8;
    let b2: u8 = ((x >> 16u32) & 0xff) as u8;
    let b3: u8 = ((x >> 8u32) & 0xff) as u8;
    let b4: u8 = (x & 0xff) as u8;
    assert(((x >> 24u32) & 0xff) == x / 0x100_0000) by (bit_vector);
    assert(((x >> 16u32) & 0xff) == (x / 0x1_0000) % 0x100) by (bit_vector);
    assert(((x >> 8u32) & 0xff) == (x / 0x100) % 0x100) by (bit_vector);
    assert((x & 0xff) == x % 0x100) by (bit_vector);
    [b1, b2, b3, b4]
}

} // verus!
