//! A colorer that lets another colorer answer only every n-th time.

use vstd::prelude::*;
use crate::colors::Hsv;
use super::grid_colorer::ColorerError;
use super::Colorer;

verus! {

/// ModuloColorer invokes the underlying colorer every nth time. Every other
/// time, this will return the `base_color`. Time is counted in calls of
/// `update`.
pub struct ModuloColorer<C: Colorer> {
    base_color: Hsv,
    colorer: C,
    iteration: i32,
    modulo_n: i32,
}

impl<C: Colorer> ModuloColorer<C> {
    /// The colour given whenever the underlying colorer is not asked.
    pub closed spec fn base_color(&self) -> Hsv {
        self.base_color
    }

    /// The underlying colorer.
    pub closed spec fn colorer(&self) -> C {
        self.colorer
    }

    /// The number of updates so far, modulo `modulo_n`.
    pub closed spec fn iteration(&self) -> int {
        self.iteration as int
    }

    /// After how many updates the underlying colorer is asked again.
    pub closed spec fn modulo_n(&self) -> int {
        self.modulo_n as int
    }

    /// The invariant of every modulo colorer: it counts from zero up to, but
    /// not including, `modulo_n`.
    #[verifier::type_invariant]
    pub closed spec fn wf(&self) -> bool {
        0 <= self.iteration < self.modulo_n
    }

    /// Fails when `modulo_n` is below one, and only then. The new colorer has
    /// seen no update yet, so its first answers come from `colorer`.
    pub fn new(colorer: C, base_color: Hsv, modulo_n: i32) -> (r: Result<Self, ColorerError>)
        ensures
            modulo_n < 1 ==> r == Err::<Self, ColorerError>(ColorerError::BadModulus),
            modulo_n >= 1 ==> (r matches Ok(modulo) && {
                &&& modulo.base_color() == base_color
                &&& modulo.colorer() == colorer
                &&& modulo.iteration() == 0
                &&& modulo.modulo_n() == modulo_n
            }),
    {
        if modulo_n < 1 {
            return Err(ColorerError::BadModulus);
        }
        Ok(ModuloColorer { base_color, colorer, modulo_n, iteration: 0 })
    }
}

impl<C: Colorer> Colorer for ModuloColorer<C> {
    open spec fn may_color(&self, color: Hsv) -> bool {
        if self.iteration() == 0 {
            self.colorer().may_color(color)
        } else {
            color == self.base_color()
        }
    }

    open spec fn steps_to(&self, next: &Self) -> bool {
        &&& next.iteration() == (self.iteration() + 1) % self.modulo_n()
        &&& next.modulo_n() == self.modulo_n()
        &&& next.base_color() == self.base_color()
        &&& next.colorer() == self.colorer()
    }

    fn color(&self) -> (color: Hsv) {
        if self.iteration == 0 {
            return self.colorer.color();
        }
        self.base_color
    }

    fn update(&mut self) {
        proof {
            use_type_invariant(&*self);
            if self.iteration + 1 == self.modulo_n {
                vstd::arithmetic::div_mod::lemma_mod_self_0(self.modulo_n as int);
            } else {
                vstd::arithmetic::div_mod::lemma_small_mod(
                    (self.iteration + 1) as nat,
                    self.modulo_n as nat,
                );
            }
        }
        if self.iteration + 1 == self.modulo_n {
            self.iteration = 0;
        } else {
            self.iteration = self.iteration + 1;
        }
    }
}

/// The count of updates after `k` updates of a colorer that starts at count
/// `start`.
pub open spec fn iteration_after(start: int, modulo_n: int, k: nat) -> int
    decreases k,
{
    if k == 0 {
        start
    } else {
        (iteration_after(start, modulo_n, (k - 1) as nat) + 1) % modulo_n
    }
}

/// After `k` updates a fresh modulo colorer asks its underlying colorer
/// exactly when `k` is a multiple of `modulo_n`.
pub proof fn lemma_modulo_period(modulo_n: int, k: nat)
    requires
        modulo_n >= 1,
    ensures
        iteration_after(0, modulo_n, k) == (k as int) % modulo_n,
    decreases k,
{
    if k == 0 {
        vstd::arithmetic::div_mod::lemma_small_mod(0, modulo_n as nat);
    } else {
        lemma_modulo_period(modulo_n, (k - 1) as nat);
        vstd::arithmetic::div_mod::lemma_add_mod_noop((k - 1) as int, 1, modulo_n);
        vstd::arithmetic::div_mod::lemma_mod_twice((k - 1) as int, modulo_n);
        if modulo_n == 1 {
            vstd::arithmetic::div_mod::lemma_mod_self_0(1);
        } else {
            vstd::arithmetic::div_mod::lemma_small_mod(1, modulo_n as nat);
        }
    }
}

} // verus!
