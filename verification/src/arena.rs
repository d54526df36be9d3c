use vstd::prelude::*;

verus! {

/// `bumpalo::Bump` is the backing arena: a growable memory region whose
/// allocations all share one lifetime and are released together when the
/// arena is dropped. Verus treats a value of it as opaque.
#[verifier::external_type_specification]
#[verifier::external_body]
pub struct ExBump<const MIN_ALIGN: usize>(bumpalo::Bump<MIN_ALIGN>);

/// Relies on `bumpalo::Bump::new`: constructs a fresh, empty arena.
#[verifier::external_body]
fn bump_new() -> bumpalo::Bump {
    bumpalo::Bump::new()
}

/// Relies on `bumpalo::Bump::alloc`: moves `t` into the arena and returns a
/// reference to the stored value that stays valid as long as the arena does.
/// The call aborts only if the backing region cannot grow (out of memory).
#[verifier::external_body]
fn bump_alloc<'a, T>(bump: &'a bumpalo::Bump, t: T) -> (r: &'a T)
    ensures
        *r == t,
{
    bump.alloc(t)
}

/// One computation's worth of state: the arena that owns every list cell and
/// every callable value the computation builds. Dropping the `Program`
/// releases all of them at once.
pub struct Program {
    arena: bumpalo::Bump,
}

impl Program {
    /// A fresh program state with an empty arena.
    pub fn new() -> Program {
        Program { arena: bump_new() }
    }

    /// Store `t` in the arena; the returned reference is valid as long as
    /// this `Program` is.
    pub fn allocate<'a, T>(&'a self, t: T) -> (r: &'a T)
        ensures
            *r == t,
    {
        bump_alloc(&self.arena, t)
    }
}

} // verus!
