use vstd::prelude::*;

verus! {

/// How many candidates one object may try before it is skipped.
pub const MAX_SPAWN_ATTEMPTS: usize = 100;

/// The bookkeeping of one tile's object-scattering pass.
///
/// Objects are placed one after another. Each attempt draws a candidate
/// circle, and the caller reports, for every circle accepted so far,
/// whether the candidate overlaps it. A candidate clear of all of them is
/// accepted; after [`MAX_SPAWN_ATTEMPTS`] rejected candidates the object
/// is skipped. A crowded tile thus ends with fewer objects, never with an
/// error.
pub struct ScatterPass {
    base: usize,
    count: usize,
    object: usize,
    attempt: usize,
    placed: usize,
}

/// The model of a pass: objects wanted, objects dealt with, attempts made
/// on the current object, circles accepted on the tile (by this pass and
/// by the passes before it).
pub struct ScatterState {
    pub count: nat,
    pub object: nat,
    pub attempt: nat,
    pub placed: nat,
}

/// How many attempts a pass can still make at most.
pub open spec fn attempts_left(s: ScatterState) -> int {
    (s.count - s.object) * MAX_SPAWN_ATTEMPTS - s.attempt
}

impl View for ScatterPass {
    type V = ScatterState;

    closed spec fn view(&self) -> ScatterState {
        ScatterState {
            count: self.count as nat,
            object: self.object as nat,
            attempt: self.attempt as nat,
            placed: self.placed as nat,
        }
    }
}

impl ScatterPass {
    #[verifier::type_invariant]
    spec fn in_bounds(self) -> bool {
        &&& self.object <= self.count
        &&& self.placed <= self.base + self.object
        &&& self.base + self.count <= usize::MAX
        &&& self.attempt < MAX_SPAWN_ATTEMPTS
        &&& self.object == self.count ==> self.attempt == 0
    }

    /// A pass that will try to place `count` objects on a tile where
    /// `placed` circles were accepted before.
    pub fn new(count: usize, placed: usize) -> (r: ScatterPass)
        requires
            placed + count <= usize::MAX,
        ensures
            r@ == (ScatterState { count: count as nat, object: 0, attempt: 0, placed: placed as nat }),
    {
        ScatterPass { base: placed, count, object: 0, attempt: 0, placed }
    }

    /// Whether every object has been placed or skipped.
    pub fn is_done(&self) -> (r: bool)
        ensures
            r == (self@.object == self@.count),
            self@.object <= self@.count,
            self@.attempt < MAX_SPAWN_ATTEMPTS,
    {
        proof {
            use_type_invariant(self);
        }
        self.object == self.count
    }

    /// How many circles have been accepted.
    pub fn placed(&self) -> (r: usize)
        ensures
            r == self@.placed,
    {
        self.placed
    }

    /// Records one attempt for the current object. `overlaps[i]` tells
    /// whether the candidate overlaps the `i`-th accepted circle. Returns
    /// whether the candidate is accepted.
    pub fn record_attempt(&mut self, overlaps: &Vec<bool>) -> (accepted: bool)
        requires
            old(self)@.object < old(self)@.count,
            overlaps@.len() == old(self)@.placed,
        ensures
            accepted == (forall|i: int| 0 <= i < overlaps@.len() ==> !#[trigger] overlaps@[i]),
            final(self)@.count == old(self)@.count,
            accepted ==> final(self)@ == (ScatterState {
                object: old(self)@.object + 1,
                attempt: 0,
                placed: old(self)@.placed + 1,
                ..old(self)@
            }),
            !accepted && old(self)@.attempt + 1 < MAX_SPAWN_ATTEMPTS ==> final(self)@ == (ScatterState {
                attempt: old(self)@.attempt + 1,
                ..old(self)@
            }),
            !accepted && old(self)@.attempt + 1 == MAX_SPAWN_ATTEMPTS ==> final(self)@ == (ScatterState {
                object: old(self)@.object + 1,
                attempt: 0,
                ..old(self)@
            }),
            attempts_left(final(self)@) < attempts_left(old(self)@),
            0 <= attempts_left(final(self)@),
    {
        proof {
            use_type_invariant(&*self);
        }
        let mut clear = true;
        let mut i: usize = 0;
        while i < overlaps.len()
            invariant
                i <= overlaps@.len(),
                clear == (forall|j: int| 0 <= j < i ==> !#[trigger] overlaps@[j]),
            decreases overlaps@.len() - i,
        {
            if overlaps[i] {
                clear = false;
            }
            i = i + 1;
        }
        let ghost before = self@;
        if clear {
            *self = ScatterPass { object: self.object + 1, attempt: 0, placed: self.placed + 1, ..*self };
        } else if self.attempt + 1 < MAX_SPAWN_ATTEMPTS {
            *self = ScatterPass { attempt: self.attempt + 1, ..*self };
        } else {
            *self = ScatterPass { object: self.object + 1, attempt: 0, ..*self };
        }
        proof {
            let after = self@;
            assert(attempts_left(after) < attempts_left(before)) by (nonlinear_arith)
                requires
                    after.count == before.count,
                    (after.object == before.object + 1 && after.attempt == 0 && before.attempt
                        < MAX_SPAWN_ATTEMPTS) || (after.object == before.object && after.attempt
                        == before.attempt + 1),
            ;
            assert(0 <= attempts_left(after)) by (nonlinear_arith)
                requires
                    after.object <= after.count,
                    after.attempt < MAX_SPAWN_ATTEMPTS,
                    after.object == after.count ==> after.attempt == 0,
            ;
        }
        clear
    }
}

} // verus!
