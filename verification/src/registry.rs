use vstd::prelude::*;

use crate::error::ErrorCode;
use crate::state::{AuthStore, MAX_CREATORS};

verus! {

/// Fact recorded when the registry is initialized.
#[derive(Clone, Copy, Debug, PartialEq, Eq, Structural)]
pub struct AuthInitialized {
    pub admin: u64,
}

/// Fact recorded when an identity is newly granted creator authorization.
#[derive(Clone, Copy, Debug, PartialEq, Eq, Structural)]
pub struct CreatorAuthorizationUpdated {
    pub creator: u64,
    pub authorized: bool,
}

/// Fact recorded when an identity's creator authorization is withdrawn.
#[derive(Clone, Copy, Debug, PartialEq, Eq, Structural)]
pub struct CreatorAuthorizationRemoved {
    pub creator: u64,
    pub authorized: bool,
}

/// Sets up the registry: the given identity becomes the administrator and
/// the creator set starts empty.  The host creates the registry record at
/// most once; a second initialization is refused before this runs.
pub fn initialize_auth(admin: u64) -> (r: (AuthStore, AuthInitialized))
    ensures
        r.0.admin == admin,
        r.0.authorized_creators@ =~= Seq::<u64>::empty(),
        r.0.wf(),
        r.1 == (AuthInitialized { admin }),
{
    let store = AuthStore { admin, authorized_creators: Vec::new() };
    (store, AuthInitialized { admin })
}

/// Whether `identity` is in the registry's creator set.
pub fn is_authorized(store: &AuthStore, identity: u64) -> (r: bool)
    ensures
        r == store.authorized_creators@.contains(identity),
{
    let n = store.authorized_creators.len();
    let mut i: usize = 0;
    while i < n
        invariant
            n == store.authorized_creators@.len(),
            i <= n,
            forall|j: int| 0 <= j < i ==> store.authorized_creators@[j] != identity,
        decreases n - i,
    {
        if store.authorized_creators[i] == identity {
            return true;
        }
        i += 1;
    }
    false
}

/// Grants `creator` authorization.  Only the administrator may call this.
/// Idempotent: if `creator` is already authorized nothing changes and no
/// fact is recorded.
pub fn update_creator_auth(store: &mut AuthStore, caller: u64, creator: u64) -> (r: Result<
    Option<CreatorAuthorizationUpdated>,
    ErrorCode,
>)
    ensures
        old(store).wf() ==> final(store).wf(),
        caller != old(store).admin ==> r == Err::<Option<CreatorAuthorizationUpdated>, ErrorCode>(
            ErrorCode::Unauthorized,
        ),
        r matches Ok(Some(fact)) ==> {
            &&& !old(store).authorized_creators@.contains(creator)
            &&& final(store).authorized_creators@ == old(store).authorized_creators@.push(creator)
            &&& fact == (CreatorAuthorizationUpdated { creator, authorized: true })
        },
        r == Ok::<Option<CreatorAuthorizationUpdated>, ErrorCode>(None) <==> (caller == old(
            store,
        ).admin && old(store).authorized_creators@.contains(creator)),
        (r is Err || r matches Ok(None)) ==> *final(store) == *old(store),
        r is Err <==> (caller != old(store).admin || (!old(store).authorized_creators@.contains(
            creator,
        ) && old(store).authorized_creators@.len() >= MAX_CREATORS)),
        r == Err::<Option<CreatorAuthorizationUpdated>, ErrorCode>(ErrorCode::CapacityExceeded)
            <==> (caller == old(store).admin && !old(store).authorized_creators@.contains(creator)
            && old(store).authorized_creators@.len() >= MAX_CREATORS),
        final(store).admin == old(store).admin,
        final(store).authorized_creators@.contains(creator) <==> (r is Ok || old(
            store,
        ).authorized_creators@.contains(creator)),
{
    if caller != store.admin {
        return Err(ErrorCode::Unauthorized);
    }
    if is_authorized(store, creator) {
        return Ok(None);
    }
    if store.authorized_creators.len() >= MAX_CREATORS {
        return Err(ErrorCode::CapacityExceeded);
    }
    store.authorized_creators.push(creator);
    proof {
        let s0 = old(store).authorized_creators@;
        let s1 = store.authorized_creators@;
        assert(s1[s0.len() as int] == creator);
        if old(store).wf() {
            assert forall|p: int, q: int| 0 <= p < q < s1.len() implies s1[p] != s1[q] by {
                if q == s0.len() {
                    assert(s1[p] == s0[p]);
                    assert(s0[p] != creator);
                } else {
                    assert(s1[p] == s0[p] && s1[q] == s0[q]);
                }
            }
        }
    }
    Ok(Some(CreatorAuthorizationUpdated { creator, authorized: true }))
}

/// Withdraws `creator`'s authorization.  Only the administrator may call
/// this.  Idempotent: if `creator` is not authorized nothing changes, no
/// fact is recorded, and the call still succeeds.
#[verifier::loop_isolation(false)]
pub fn remove_creator_auth(store: &mut AuthStore, caller: u64, creator: u64) -> (r: Result<
    Option<CreatorAuthorizationRemoved>,
    ErrorCode,
>)
    ensures
        old(store).wf() ==> final(store).wf(),
        caller != old(store).admin ==> r == Err::<Option<CreatorAuthorizationRemoved>, ErrorCode>(
            ErrorCode::Unauthorized,
        ),
        r is Err <==> caller != old(store).admin,
        r == Ok::<Option<CreatorAuthorizationRemoved>, ErrorCode>(None) <==> (caller == old(
            store,
        ).admin && !old(store).authorized_creators@.contains(creator)),
        r matches Ok(Some(fact)) ==> {
            &&& exists|i: int|
                0 <= i < old(store).authorized_creators@.len() && old(
                    store,
                ).authorized_creators@[i] == creator && final(store).authorized_creators@ == old(
                    store,
                ).authorized_creators@.remove(i)
            &&& fact == (CreatorAuthorizationRemoved { creator, authorized: false })
        },
        (r is Err || r matches Ok(None)) ==> *final(store) == *old(store),
        old(store).wf() && r is Ok ==> !final(store).authorized_creators@.contains(creator),
        forall|x: u64|
            x != creator ==> (final(store).authorized_creators@.contains(x) <==> old(
                store,
            ).authorized_creators@.contains(x)),
        final(store).admin == old(store).admin,
{
    if caller != store.admin {
        return Err(ErrorCode::Unauthorized);
    }
    let n = store.authorized_creators.len();
    let mut i: usize = 0;
    while i < n
        invariant
            *store == *old(store),
            n == store.authorized_creators@.len(),
            i <= n,
            forall|j: int| 0 <= j < i ==> store.authorized_creators@[j] != creator,
        decreases n - i,
    {
        if store.authorized_creators[i] == creator {
            let ghost before = store.authorized_creators@;
            store.authorized_creators.remove(i);
            proof {
                assert(before[i as int] == creator);
                assert(before.contains(creator));
                lemma_remove_membership(before, i as int);
            }
            return Ok(Some(CreatorAuthorizationRemoved { creator, authorized: false }));
        }
        i += 1;
    }
    Ok(None)
}

/// Removing one element keeps every other element's membership, keeps
/// distinctness, and — when the sequence was distinct — takes the removed
/// element out of the sequence entirely.
proof fn lemma_remove_membership(s: Seq<u64>, i: int)
    requires
        0 <= i < s.len(),
    ensures
        forall|x: u64| x != s[i] ==> (s.remove(i).contains(x) <==> s.contains(x)),
        (forall|p: int, q: int| 0 <= p < q < s.len() ==> s[p] != s[q]) ==> !s.remove(i).contains(
            s[i],
        ),
        (forall|p: int, q: int| 0 <= p < q < s.len() ==> s[p] != s[q]) ==> (forall|p: int, q: int|
            0 <= p < q < s.remove(i).len() ==> s.remove(i)[p] != s.remove(i)[q]),
{
    let t = s.remove(i);
    assert forall|x: u64| x != s[i] && s.contains(x) implies t.contains(x) by {
        let j = choose|j: int| 0 <= j < s.len() && s[j] == x;
        if j < i {
            assert(t[j] == x);
        } else {
            assert(t[j - 1] == x);
        }
    }
    assert forall|x: u64| t.contains(x) implies s.contains(x) by {
        let j = choose|j: int| 0 <= j < t.len() && t[j] == x;
        if j < i {
            assert(s[j] == x);
        } else {
            assert(s[j + 1] == x);
        }
    }
    if forall|p: int, q: int| 0 <= p < q < s.len() ==> s[p] != s[q] {
        assert forall|p: int| 0 <= p < t.len() implies t[p] != s[i] by {
            if p < i {
                assert(t[p] == s[p]);
            } else {
                assert(t[p] == s[p + 1]);
            }
        }
    }
}

} // verus!
