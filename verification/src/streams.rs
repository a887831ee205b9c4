//! The standard-stream neutralizer: the safety-critical step of
//! daemonization.
//!
//! A daemon must disable descriptors 0, 1 and 2. Two strategies exist:
//!
//! - [`close_standard_streams`] closes the three slots. That frees the
//!   numbers 0..2, and because the kernel hands out the lowest free number,
//!   the very next files the daemon opens — for entirely unrelated purposes —
//!   silently become its "standard output" and "standard error". Any blind
//!   diagnostic write then corrupts them. The strategy is kept only for
//!   backward compatibility; [`lemma_closing_strategy_recycles_streams`]
//!   proves the corruption window it opens.
//!
//! - [`redirect_standard_streams`] rebinds the three slots to the null
//!   device, keeping the numbers occupied. [`lemma_redirected_opens_high`]
//!   proves that every descriptor opened afterwards is 3 or above, and
//!   [`lemma_redirect_idempotent`] that running the strategy twice ends in
//!   the same state as running it once.

use vstd::prelude::*;

use crate::SysError;
use crate::fd_table::{FdBinding, FdTable, is_lowest_free};

verus! {

/// The table after the closing strategy: slots 0, 1 and 2 free.
pub open spec fn streams_closed(m: Map<nat, FdBinding>) -> Map<nat, FdBinding> {
    m.remove(0).remove(1).remove(2)
}

/// The table after the redirecting strategy: slots 0, 1 and 2 bound to the
/// null device, everything else untouched.
pub open spec fn streams_redirected(m: Map<nat, FdBinding>) -> Map<nat, FdBinding> {
    m.insert(0, FdBinding::NullDevice).insert(1, FdBinding::NullDevice).insert(
        2,
        FdBinding::NullDevice,
    )
}

/// How far the closing strategy gets: the first of the slots 0, 1, 2 that is
/// already free (and so fails to close), or 3 when all three are open.
pub open spec fn first_free_stream(m: Map<nat, FdBinding>) -> int {
    if !m.dom().contains(0) {
        0
    } else if !m.dom().contains(1) {
        1
    } else if !m.dom().contains(2) {
        2
    } else {
        3
    }
}

/// The table after the closing strategy stopped before slot `k`: the slots
/// below `k` have been closed, the rest is untouched.
pub open spec fn streams_closed_below(m: Map<nat, FdBinding>, k: int) -> Map<nat, FdBinding> {
    if k <= 0 {
        m
    } else if k == 1 {
        m.remove(0)
    } else if k == 2 {
        m.remove(0).remove(1)
    } else {
        m.remove(0).remove(1).remove(2)
    }
}

/// The closing strategy: close descriptors 0, 1 and 2, in ascending order,
/// stopping at the first one that is not open. Discouraged — it frees the
/// slot numbers for reuse; see [`lemma_closing_strategy_recycles_streams`]
/// for the bug this opens, and prefer [`redirect_standard_streams`].
pub fn close_standard_streams(t: &mut FdTable) -> (r: Result<(), SysError>)
    ensures
        r is Ok <==> first_free_stream(old(t)@) == 3,
        r is Err ==> r == Result::<(), SysError>::Err(SysError::BadDescriptor),
        final(t)@ == streams_closed_below(old(t)@, first_free_stream(old(t)@)),
{
    match t.close_descriptor(0) {
        Err(e) => return Err(e),
        Ok(_) => {},
    }
    match t.close_descriptor(1) {
        Err(e) => return Err(e),
        Ok(_) => {},
    }
    match t.close_descriptor(2) {
        Err(e) => return Err(e),
        Ok(_) => {},
    }
    Ok(())
}

/// The redirecting strategy: open the null device — the kernel hands back
/// some descriptor `n` — duplicate `n` onto 0, 1 and 2 in turn, then close
/// `n` itself if it lies outside the protected range 0..2 (if `n` is 0, 1 or
/// 2 it is simultaneously one of the targets and must stay). In this model
/// every step succeeds: the null device is always there, and `n` is open
/// while it is being duplicated. The real counterpart propagates any failure
/// instead, closing `n` first when it lies outside 0..2.
pub fn redirect_standard_streams(t: &mut FdTable) -> (r: Result<(), SysError>)
    ensures
        r is Ok,
        final(t)@ == streams_redirected(old(t)@),
{
    let n = t.open_descriptor(FdBinding::NullDevice);
    match t.dup2(n, 0) {
        Err(e) => return Err(e),
        Ok(_) => {},
    }
    match t.dup2(n, 1) {
        Err(e) => return Err(e),
        Ok(_) => {},
    }
    match t.dup2(n, 2) {
        Err(e) => return Err(e),
        Ok(_) => {},
    }
    if n > 2 {
        match t.close_descriptor(n) {
            Err(e) => return Err(e),
            Ok(_) => {},
        }
    }
    proof {
        assert(t@ =~= streams_redirected(old(t)@));
    }
    Ok(())
}

/// Law: the redirecting strategy is idempotent — a second run ends in
/// exactly the state the first run left.
pub proof fn lemma_redirect_idempotent(m: Map<nat, FdBinding>)
    ensures
        streams_redirected(streams_redirected(m)) == streams_redirected(m),
{
    assert(streams_redirected(streams_redirected(m)) =~= streams_redirected(m));
}

/// Law: a table whose slots 0, 1 and 2 are all occupied hands every newly
/// opened stream a descriptor of 3 or more. This is why a daemon's files
/// stay safe whenever the standard streams are left in place or redirected,
/// never freed.
pub proof fn lemma_occupied_streams_open_high(m: Map<nat, FdBinding>, n: nat)
    requires
        m.dom().contains(0),
        m.dom().contains(1),
        m.dom().contains(2),
        is_lowest_free(m, n),
    ensures
        n >= 3,
{
}

/// Law: after the redirecting strategy, every newly opened stream receives a
/// descriptor of 3 or more, so no later open can collide with the standard
/// slots.
pub proof fn lemma_redirected_opens_high(m: Map<nat, FdBinding>, n: nat)
    requires
        is_lowest_free(streams_redirected(m), n),
    ensures
        n >= 3,
{
    lemma_occupied_streams_open_high(streams_redirected(m), n);
}

/// Law: after the closing strategy, the kernel's lowest-free policy hands
/// the next three opened streams the descriptors 0, 1 and 2, in that order —
/// whatever those streams are for. This is the descriptor-reuse bug the
/// redirecting strategy exists to prevent.
pub proof fn lemma_closing_strategy_recycles_streams(
    m: Map<nat, FdBinding>,
    b0: FdBinding,
    b1: FdBinding,
    b2: FdBinding,
    f0: nat,
    f1: nat,
    f2: nat,
)
    requires
        is_lowest_free(streams_closed(m), f0),
        is_lowest_free(streams_closed(m).insert(f0, b0), f1),
        is_lowest_free(streams_closed(m).insert(f0, b0).insert(f1, b1), f2),
    ensures
        f0 == 0,
        f1 == 1,
        f2 == 2,
{
    let c = streams_closed(m);
    assert(is_lowest_free(c, 0));
    crate::fd_table::lemma_lowest_free_unique(c, f0, 0);
    assert(is_lowest_free(c.insert(0, b0), 1));
    crate::fd_table::lemma_lowest_free_unique(c.insert(0, b0), f1, 1);
    assert(is_lowest_free(c.insert(0, b0).insert(1, b1), 2));
    crate::fd_table::lemma_lowest_free_unique(c.insert(0, b0).insert(1, b1), f2, 2);
}

} // verus!
