//! The registry of live handles.
//!
//! Every handle handed across the boundary is an address that the registry
//! tracks together with the type tag of the value allocated there and the
//! cleanup that reclaims it. The registry alone decides whether an address is
//! live and of which type, and it hands each cleanup out exactly once.
//!
//! The registry owns no lock: the process-wide instance lives behind a mutex,
//! and the caller runs a released cleanup after letting go of that lock, so
//! that a cleanup that re-enters the registry cannot deadlock.

use core::any::TypeId;
use std::collections::HashMap;

use vstd::prelude::*;

use crate::error::Error;
use crate::error::ErrorView;

verus! {

/// Type tags are std's `TypeId`, carried as opaque values and compared only
/// through `same_type`.
#[verifier::external_type_specification]
#[verifier::external_body]
pub struct ExTypeId(TypeId);

/// Relies on `TypeId`'s `==`: two type tags are equal exactly when they
/// identify the same type.
#[verifier::external_body]
fn same_type(a: &TypeId, b: &TypeId) -> (r: bool)
    ensures
        r == (*a == *b),
{
    *a == *b
}

/// What the registry holds: for each live address, its type tag and cleanup.
pub type Entries<C> = Map<usize, (TypeId, C)>;

/// The outcome of validating `ptr` against `expected` in the state `m`.
pub open spec fn validate_spec<C>(m: Entries<C>, ptr: usize, expected: TypeId) -> Result<
    (),
    ErrorView,
> {
    if ptr == 0 {
        Err(ErrorView::NullParameter("pointer"@))
    } else if !m.contains_key(ptr) {
        Err(ErrorView::InvalidHandle(ptr as u64))
    } else if m[ptr].0 != expected {
        Err(ErrorView::WrongHandleType(ptr as u64))
    } else {
        Ok(())
    }
}

/// The state after tracking `ptr` with `tag` and `cleanup` in the state `m`,
/// and the cleanup that the registry does not keep: the one it replaced, or
/// the given one when `ptr` is null.
pub open spec fn track_spec<C>(m: Entries<C>, ptr: usize, tag: TypeId, cleanup: C) -> (
    Entries<C>,
    Option<C>,
) {
    if ptr == 0 {
        (m, Some(cleanup))
    } else if m.contains_key(ptr) {
        (m.insert(ptr, (tag, cleanup)), Some(m[ptr].1))
    } else {
        (m.insert(ptr, (tag, cleanup)), None)
    }
}

/// The state after freeing `ptr` in the state `m`, and the outcome: the
/// cleanup to run, nothing for null, or the error.
pub open spec fn free_spec<C>(m: Entries<C>, ptr: usize) -> (Entries<C>, Result<Option<C>, ErrorView>) {
    if ptr == 0 {
        (m, Ok(None))
    } else if !m.contains_key(ptr) {
        (m, Err(ErrorView::InvalidHandle(ptr as u64)))
    } else {
        (m.remove(ptr), Ok(Some(m[ptr].1)))
    }
}

/// An error result, seen through the error's view.
pub open spec fn result_view<T>(r: Result<T, Error>) -> Result<T, ErrorView> {
    match r {
        Ok(v) => Ok(v),
        Err(e) => Err(e@),
    }
}

/// The outcomes of `n` successive frees of `ptr`, starting from the state `m`.
pub open spec fn repeated_frees<C>(m: Entries<C>, ptr: usize, n: nat) -> Seq<
    Result<Option<C>, ErrorView>,
>
    decreases n,
{
    if n == 0 {
        Seq::empty()
    } else {
        let (next, outcome) = free_spec(m, ptr);
        seq![outcome] + repeated_frees(next, ptr, (n - 1) as nat)
    }
}

proof fn lemma_frees_of_absent<C>(m: Entries<C>, ptr: usize, n: nat)
    requires
        ptr != 0,
        !m.contains_key(ptr),
    ensures
        repeated_frees(m, ptr, n).len() == n,
        forall|i: int|
            0 <= i < n ==> #[trigger] repeated_frees(m, ptr, n)[i] == Err::<Option<C>, ErrorView>(
                ErrorView::InvalidHandle(ptr as u64),
            ),
    decreases n,
{
    if n > 0 {
        lemma_frees_of_absent(m, ptr, (n - 1) as nat);
        let rest = repeated_frees(m, ptr, (n - 1) as nat);
        assert(repeated_frees(m, ptr, n) == seq![free_spec(m, ptr).1] + rest);
        assert forall|i: int| 0 <= i < n implies #[trigger] repeated_frees(m, ptr, n)[i] == Err::<
            Option<C>,
            ErrorView,
        >(ErrorView::InvalidHandle(ptr as u64)) by {
            if i > 0 {
                assert(repeated_frees(m, ptr, n)[i] == rest[i - 1]);
            }
        }
    }
}

/// No double free: when a free of a non-null address succeeds, that first free
/// hands out the cleanup, and every later free of the same address fails with
/// `InvalidHandle`; the cleanup is handed out exactly once.
pub proof fn lemma_no_double_free<C>(m: Entries<C>, ptr: usize, n: nat)
    requires
        ptr != 0,
        free_spec(m, ptr).1 is Ok,
        n >= 1,
    ensures
        repeated_frees(m, ptr, n).len() == n,
        repeated_frees(m, ptr, n)[0] == Ok::<Option<C>, ErrorView>(Some(m[ptr].1)),
        forall|i: int|
            1 <= i < n ==> #[trigger] repeated_frees(m, ptr, n)[i] == Err::<Option<C>, ErrorView>(
                ErrorView::InvalidHandle(ptr as u64),
            ),
{
    let next = free_spec(m, ptr).0;
    lemma_frees_of_absent(next, ptr, (n - 1) as nat);
    let rest = repeated_frees(next, ptr, (n - 1) as nat);
    assert(repeated_frees(m, ptr, n) == seq![free_spec(m, ptr).1] + rest);
    assert forall|i: int| 1 <= i < n implies #[trigger] repeated_frees(m, ptr, n)[i] == Err::<
        Option<C>,
        ErrorView,
    >(ErrorView::InvalidHandle(ptr as u64)) by {
        assert(repeated_frees(m, ptr, n)[i] == rest[i - 1]);
    }
}

/// No use after free: once a free of a non-null address has succeeded,
/// validating that address against any type fails with `InvalidHandle`.
pub proof fn lemma_no_use_after_free<C>(m: Entries<C>, ptr: usize, tag: TypeId)
    requires
        ptr != 0,
        free_spec(m, ptr).1 is Ok,
    ensures
        validate_spec(free_spec(m, ptr).0, ptr, tag) == Err::<(), ErrorView>(
            ErrorView::InvalidHandle(ptr as u64),
        ),
{
}

/// Type safety: after tracking `ptr` as type `a`, validating it as another type
/// `b` fails with `WrongHandleType`, while the entry stays as tracked, so that
/// validating it as `a` still succeeds. Validation never changes the registry.
pub proof fn lemma_type_safety<C>(
    m: Entries<C>,
    ptr: usize,
    a: TypeId,
    b: TypeId,
    cleanup: C,
)
    requires
        ptr != 0,
        a != b,
    ensures
        validate_spec(track_spec(m, ptr, a, cleanup).0, ptr, b) == Err::<(), ErrorView>(
            ErrorView::WrongHandleType(ptr as u64),
        ),
        track_spec(m, ptr, a, cleanup).0[ptr] == (a, cleanup),
        validate_spec(track_spec(m, ptr, a, cleanup).0, ptr, a) == Ok::<(), ErrorView>(()),
{
}

/// Null is always safe: freeing the null address succeeds with nothing to run
/// and changes nothing, and validating it against any type fails with
/// `NullParameter`.
pub proof fn lemma_null_is_safe<C>(m: Entries<C>, tag: TypeId)
    ensures
        free_spec(m, 0) == (m, Ok::<Option<C>, ErrorView>(None)),
        validate_spec(m, 0, tag) == Err::<(), ErrorView>(ErrorView::NullParameter("pointer"@)),
{
}

/// Handles are independent: freeing one address leaves what validating or
/// freeing any other address gives unchanged.
pub proof fn lemma_free_keeps_others<C>(m: Entries<C>, freed: usize, other: usize, tag: TypeId)
    requires
        freed != other,
    ensures
        validate_spec(free_spec(m, freed).0, other, tag) == validate_spec(m, other, tag),
        free_spec(free_spec(m, freed).0, other).1 == free_spec(m, other).1,
{
}

/// Handles are independent: tracking one address leaves what validating or
/// freeing any other address gives unchanged, so callers working on distinct
/// addresses never see each other's operations, in whatever order the lock
/// admits them.
pub proof fn lemma_track_keeps_others<C>(
    m: Entries<C>,
    addr: usize,
    tag: TypeId,
    cleanup: C,
    other: usize,
    expected: TypeId,
)
    requires
        addr != other,
    ensures
        validate_spec(track_spec(m, addr, tag, cleanup).0, other, expected) == validate_spec(
            m,
            other,
            expected,
        ),
        free_spec(track_spec(m, addr, tag, cleanup).0, other).1 == free_spec(m, other).1,
{
}

/// The live handles: address, type tag and cleanup of each.
pub struct PointerRegistry<C> {
    live: HashMap<usize, (TypeId, C)>,
}

impl<C> View for PointerRegistry<C> {
    type V = Entries<C>;

    closed spec fn view(&self) -> Entries<C> {
        self.live@
    }
}

impl<C> PointerRegistry<C> {
    /// A registry that tracks nothing.
    pub fn new() -> (r: Self)
        ensures
            r@ == Map::<usize, (TypeId, C)>::empty(),
    {
        PointerRegistry { live: HashMap::new() }
    }

    /// Tracks `ptr` as a value of type `tag` that `cleanup` reclaims.
    ///
    /// A null `ptr` is never tracked, and `cleanup` comes back. Tracking an
    /// address that is already live replaces its entry and hands back the
    /// cleanup it held, so that nothing the registry owned is lost unseen.
    pub fn track(&mut self, ptr: usize, tag: TypeId, cleanup: C) -> (r: Option<C>)
        ensures
            (final(self)@, r) == track_spec(old(self)@, ptr, tag, cleanup),
    {
        broadcast use vstd::std_specs::hash::group_hash_axioms;

        if ptr == 0 {
            return Some(cleanup);
        }
        match self.live.insert(ptr, (tag, cleanup)) {
            Some((_, previous)) => Some(previous),
            None => None,
        }
    }

    /// Checks that `ptr` is live and was tracked with the type `expected`.
    ///
    /// Fails with `NullParameter` for a null address, `InvalidHandle` for one
    /// that is not live, and `WrongHandleType` for a live one of another type.
    pub fn validate(&self, ptr: usize, expected: &TypeId) -> (r: Result<(), Error>)
        ensures
            result_view(r) == validate_spec(self@, ptr, *expected),
    {
        broadcast use vstd::std_specs::hash::group_hash_axioms;

        if ptr == 0 {
            proof { reveal_strlit("pointer"); }
            return Err(Error::NullParameter(String::from_str("pointer")));
        }
        match self.live.get(&ptr) {
            Some((actual, _)) => {
                if same_type(actual, expected) {
                    Ok(())
                } else {
                    Err(Error::WrongHandleType(ptr as u64))
                }
            },
            None => Err(Error::InvalidHandle(ptr as u64)),
        }
    }

    /// Removes `ptr` and hands back its cleanup, which the caller runs once,
    /// after releasing any lock that guards the registry.
    ///
    /// A null `ptr` is a success with nothing to run; an address that is not
    /// live fails with `InvalidHandle` and changes nothing.
    pub fn free(&mut self, ptr: usize) -> (r: Result<Option<C>, Error>)
        ensures
            (final(self)@, result_view(r)) == free_spec(old(self)@, ptr),
    {
        broadcast use vstd::std_specs::hash::group_hash_axioms;

        if ptr == 0 {
            return Ok(None);
        }
        match self.live.remove(&ptr) {
            Some((_, cleanup)) => Ok(Some(cleanup)),
            None => Err(Error::InvalidHandle(ptr as u64)),
        }
    }

    /// How many handles are live; at shutdown, how many were never freed.
    pub fn len(&self) -> (r: usize)
        ensures
            r == self@.len(),
    {
        broadcast use vstd::std_specs::hash::group_hash_axioms;

        self.live.len()
    }
}

} // verus!
