//! The quirks as a front end shows them: one switch each.

use core::slice::Iter;
use vstd::prelude::*;
use vstd::std_specs::iter::IteratorSpec;

verus! {

/// A deviation from the classic instruction set that can be switched.
#[derive(Copy, Clone, Debug, PartialEq, Eq, Structural)]
pub enum Quirk {
    LoadStore,
    Shift,
    Draw,
    Jump,
    VfOrder,
    PartialWrapH,
    PartialWrapV,
}

impl Quirk {
    /// Place of the quirk among the switches.
    pub open spec fn spec_index(self) -> int {
        match self {
            Quirk::LoadStore => 0,
            Quirk::Shift => 1,
            Quirk::Draw => 2,
            Quirk::Jump => 3,
            Quirk::VfOrder => 4,
            Quirk::PartialWrapH => 5,
            Quirk::PartialWrapV => 6,
        }
    }

    /// Place of the quirk among the switches.
    pub fn index(self) -> (i: usize)
        ensures
            i == self.spec_index(),
            i < QuirksSettings::NUM_QUIRKS,
    {
        match self {
            Quirk::LoadStore => 0,
            Quirk::Shift => 1,
            Quirk::Draw => 2,
            Quirk::Jump => 3,
            Quirk::VfOrder => 4,
            Quirk::PartialWrapH => 5,
            Quirk::PartialWrapV => 6,
        }
    }
}

/// The state of every quirk's switch.
#[derive(Copy, Clone)]
pub struct QuirksSettings {
    quirks: [bool; 7],
}

impl View for QuirksSettings {
    type V = Seq<bool>;

    closed spec fn view(&self) -> Seq<bool> {
        self.quirks@
    }
}

impl QuirksSettings {
    pub const NUM_QUIRKS: usize = 7;

    /// Every quirk switched off.
    pub fn new() -> (r: Self)
        ensures
            r@ == Seq::new(7, |i: int| false),
    {
        let r = Self { quirks: [false; 7] };
        assert(r.quirks@ =~= Seq::new(7, |i: int| false));
        r
    }

    /// There are as many switches as quirks.
    pub proof fn lemma_len(&self)
        ensures
            self@.len() == 7,
    {
    }

    /// Whether `quirk` is switched on.
    pub fn get(&self, quirk: Quirk) -> (r: bool)
        ensures
            r == self@[quirk.spec_index()],
    {
        self.quirks[quirk.index()]
    }

    /// Whether the switch at place `i` is on.
    pub fn at(&self, i: usize) -> (r: bool)
        requires
            i < 7,
        ensures
            r == self@[i as int],
    {
        self.quirks[i]
    }

    /// The switch of `quirk`, to be set.
    pub fn get_mut(&mut self, quirk: Quirk) -> (r: &mut bool)
        ensures
            *r == old(self)@[quirk.spec_index()],
            final(self)@ == old(self)@.update(quirk.spec_index(), *final(r)),
    {
        let i = quirk.index();
        &mut self.quirks[i]
    }

    /// The switches in the order of `Quirk`.
    pub fn iter(&self) -> (r: Iter<'_, bool>)
        ensures
            IteratorSpec::remaining(&r) == self@.as_ref(),
    {
        self.quirks.as_slice().iter()
    }

    /// Sets every switch: `values`, in the order of `Quirk`.
    pub fn set_all(&mut self, values: [bool; 7])
        ensures
            final(self)@ == values@,
    {
        self.quirks = values;
    }
}

} // verus!
