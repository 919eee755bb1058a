//! The validated-endpoint record and its TTL-bounded cache.  The cache is
//! an owned value handed to discovery and dispatch by the embedding
//! program (which may serialize access with a lock); it never persists.

use vstd::prelude::*;
use crate::text::{dec_digits, push_decimal};

verus! {

/// Seconds a cached endpoint stays usable before it must be rediscovered.
pub const ENDPOINT_TTL_SECS: u64 = 600;

/// The control-socket address derived from the process identifier:
/// `unix:/tmp/kitty-<pid>`.
pub open spec fn spec_socket_path(pid: u32) -> Seq<char> {
    "unix:/tmp/kitty-"@ + dec_digits(pid as nat)
}

/// The same address without its transport scheme: the file whose existence
/// validation checks.
pub open spec fn spec_socket_file(pid: u32) -> Seq<char> {
    "/tmp/kitty-"@ + dec_digits(pid as nat)
}

/// A discovered remote-control endpoint: the terminal process, the socket
/// address derived from it, and when it was last validated.  The record is
/// immutable once constructed.
pub struct KittyRemoteInfo {
    pub pid: u32,
    pub socket_path: String,
    pub validated_at: u64,
}

/// An endpoint is well formed when its socket address is the one its
/// process identifier derives.
pub open spec fn endpoint_wf(e: &KittyRemoteInfo) -> bool {
    e.socket_path@ == spec_socket_path(e.pid)
}

/// An endpoint is fresh at `now` when it was validated no more than the
/// TTL ago (and not in the future).
pub open spec fn spec_fresh(e: &KittyRemoteInfo, now: u64, ttl: u64) -> bool {
    e.validated_at <= now && now - e.validated_at < ttl
}

impl KittyRemoteInfo {
    /// Builds the endpoint record for a just-validated process.
    pub fn new(pid: u32, now: u64) -> (r: Self)
        ensures
            r.pid == pid,
            r.validated_at == now,
            endpoint_wf(&r),
    {
        let mut socket_path = String::from_str("unix:/tmp/kitty-");
        push_decimal(&mut socket_path, pid);
        KittyRemoteInfo { pid, socket_path, validated_at: now }
    }

    /// Whether the record is still within its TTL at `now`.
    pub fn is_valid(&self, now: u64, ttl: u64) -> (r: bool)
        ensures
            r == spec_fresh(self, now, ttl),
    {
        self.validated_at <= now && now - self.validated_at < ttl
    }

    /// The socket file to test for existence: the address without its
    /// `unix:` scheme.
    pub fn socket_file(&self) -> (r: String)
        ensures
            r@ == spec_socket_file(self.pid),
    {
        let mut f = String::from_str("/tmp/kitty-");
        push_decimal(&mut f, self.pid);
        f
    }

    /// An identical copy of the record.
    pub fn duplicate(&self) -> (r: Self)
        ensures
            r == *self,
    {
        KittyRemoteInfo {
            pid: self.pid,
            socket_path: self.socket_path.clone(),
            validated_at: self.validated_at,
        }
    }
}

/// The socket file a process identifier derives, for a candidate that has
/// no endpoint record yet.
pub fn socket_file_of(pid: u32) -> (r: String)
    ensures
        r@ == spec_socket_file(pid),
{
    let mut f = String::from_str("/tmp/kitty-");
    push_decimal(&mut f, pid);
    f
}

/// What a cache lookup yields: the stored endpoint if one is stored and
/// still fresh, else nothing.
pub open spec fn spec_candidate(
    entry: Option<KittyRemoteInfo>,
    now: u64,
    ttl: u64,
) -> Option<KittyRemoteInfo> {
    match entry {
        Some(e) => if spec_fresh(&e, now, ttl) {
            Some(e)
        } else {
            None
        },
        None => None,
    }
}

/// The store for the last validated endpoint, bounded by a TTL.
pub struct EndpointCache {
    pub entry: Option<KittyRemoteInfo>,
    pub ttl: u64,
}

impl EndpointCache {
    /// An empty cache with the given TTL.
    pub fn new(ttl: u64) -> (r: Self)
        ensures
            r.entry is None,
            r.ttl == ttl,
    {
        EndpointCache { entry: None, ttl }
    }

    /// Stores `e` unconditionally, overwriting any prior entry.
    pub fn set(&mut self, e: KittyRemoteInfo)
        ensures
            final(self).entry == Some(e),
            final(self).ttl == old(self).ttl,
    {
        self.entry = Some(e);
    }

    /// Clears the cache unconditionally.
    pub fn invalidate(&mut self)
        ensures
            final(self).entry is None,
            final(self).ttl == old(self).ttl,
    {
        self.entry = None;
    }

    /// The stored endpoint if present and not past its TTL at `now`; a
    /// stale entry is cleared and nothing is returned.  An entry older
    /// than the TTL is never returned, whatever the caller would find on
    /// re-validation.
    pub fn candidate(&mut self, now: u64) -> (r: Option<KittyRemoteInfo>)
        ensures
            r == spec_candidate(old(self).entry, now, old(self).ttl),
            final(self).ttl == old(self).ttl,
            final(self).entry == (if r is Some {
                old(self).entry
            } else {
                None::<KittyRemoteInfo>
            }),
            r matches Some(e) ==> old(self).entry == Some(e) && e.validated_at <= now && now
                - e.validated_at < old(self).ttl,
    {
        let keep = match &self.entry {
            Some(e) => e.is_valid(now, self.ttl),
            None => false,
        };
        if keep {
            match &self.entry {
                Some(e) => Some(e.duplicate()),
                None => None,
            }
        } else {
            self.entry = None;
            None
        }
    }
}

/// Empties the endpoint cache, as after a failed dispatch.
pub fn clear_kitty_cache(cache: &mut EndpointCache)
    ensures
        final(cache).entry is None,
        final(cache).ttl == old(cache).ttl,
{
    cache.invalidate();
}

/// Law: a lookup immediately after storing `e` — while `e` is within the
/// TTL — yields `e` again; the remaining re-checks are then made against
/// exactly this record.
pub proof fn lemma_cache_get_after_set(e: KittyRemoteInfo, now: u64, ttl: u64)
    requires
        e.validated_at <= now,
        now - e.validated_at < ttl,
    ensures
        spec_candidate(Some(e), now, ttl) == Some(e),
{
}

/// Law: after an invalidation a lookup yields nothing, whatever was stored
/// before and whatever the clock says.
pub proof fn lemma_cache_get_after_invalidate(now: u64, ttl: u64)
    ensures
        spec_candidate(None, now, ttl) is None,
{
}

/// Law: an entry older than the TTL is never yielded by a lookup, even if
/// re-validation would still succeed.
pub proof fn lemma_cache_stale_never_returned(e: KittyRemoteInfo, now: u64, ttl: u64)
    requires
        now >= e.validated_at + ttl || e.validated_at > now,
    ensures
        spec_candidate(Some(e), now, ttl) is None,
{
}

} // verus!
