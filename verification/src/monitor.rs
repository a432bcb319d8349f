//! Screen identifiers and the cache of attached screens.
use crate::ports::{Display, DisplayEnumerationPort, DisplayId};
use vstd::prelude::*;
use vstd::string::StringSliceAdditionalSpecFns;

verus! {

/// The FNV-1a offset basis, 32 bits.
pub const FNV_OFFSET: u32 = 0x811C_9DC5;

/// The FNV-1a prime, 32 bits.
pub const FNV_PRIME: u32 = 0x0100_0193;

/// One FNV-1a step: xor the byte in, then multiply by the prime modulo 2^32.
pub open spec fn fnv_step(hash: u32, byte: u8) -> u32 {
    (((hash ^ (byte as u32)) as nat * FNV_PRIME as nat) % 0x1_0000_0000) as u32
}

/// FNV-1a of `bytes`, starting from `hash`.
pub open spec fn fnv_feed(hash: u32, bytes: Seq<u8>) -> u32
    decreases bytes.len(),
{
    if bytes.len() == 0 {
        hash
    } else {
        fnv_step(fnv_feed(hash, bytes.drop_last()), bytes.last())
    }
}

/// The four little-endian bytes of a 32-bit integer.
pub open spec fn le_bytes(v: i32) -> Seq<u8> {
    let u = v as u32;
    seq![(u & 0xff) as u8, ((u >> 8u32) & 0xff) as u8, ((u >> 16u32) & 0xff) as u8, ((u >> 24u32) & 0xff) as u8]
}

/// The bytes a screen is identified by: its name in UTF-8 (none if nameless), then its
/// position's coordinates, each in little-endian.
pub open spec fn display_key(name: Option<Seq<u8>>, x: i32, y: i32) -> Seq<u8> {
    let name_bytes = match name {
        Some(bytes) => bytes,
        None => Seq::<u8>::empty(),
    };
    name_bytes + le_bytes(x) + le_bytes(y)
}

fn feed(hash: u32, bytes: &[u8]) -> (out: u32)
    ensures
        out == fnv_feed(hash, bytes@),
{
    let mut h: u32 = hash;
    let mut i: usize = 0;
    while i < bytes.len()
        invariant
            i <= bytes@.len(),
            h == fnv_feed(hash, bytes@.take(i as int)),
        decreases bytes@.len() - i,
    {
        assert(bytes@.take(i + 1).drop_last() =~= bytes@.take(i as int));
        h = (h ^ (bytes[i] as u32)).wrapping_mul(FNV_PRIME);
        i = i + 1;
    }
    assert(bytes@.take(i as int) =~= bytes@);
    h
}

proof fn lemma_feed_concat(hash: u32, a: Seq<u8>, b: Seq<u8>)
    ensures
        fnv_feed(hash, a + b) == fnv_feed(fnv_feed(hash, a), b),
    decreases b.len(),
{
    if b.len() == 0 {
        assert(a + b =~= a);
    } else {
        assert((a + b).drop_last() =~= a + b.drop_last());
        lemma_feed_concat(hash, a, b.drop_last());
    }
}

fn le_bytes_of(v: i32) -> (bytes: Vec<u8>)
    ensures
        bytes@ == le_bytes(v),
{
    let u: u32 = v as u32;
    let bytes: Vec<u8> = vec![
        (u & 0xff) as u8,
        ((u >> 8u32) & 0xff) as u8,
        ((u >> 16u32) & 0xff) as u8,
        ((u >> 24u32) & 0xff) as u8,
    ];
    assert(bytes@ =~= le_bytes(v));
    bytes
}

/// The identifier of a screen: FNV-1a over its name and position, so that two identical
/// screens at different places get different identifiers.
pub fn hash_display(name: Option<&str>, x: i32, y: i32) -> (id: DisplayId)
    ensures
        id.0 == fnv_feed(
            FNV_OFFSET,
            display_key(
                match name {
                    Some(s) => Some(s.spec_bytes()),
                    None => None,
                },
                x,
                y,
            ),
        ),
{
    let ghost key_name = match name {
        Some(s) => Some(s.spec_bytes()),
        None => None,
    };
    let ghost name_bytes = match key_name {
        Some(b) => b,
        None => Seq::<u8>::empty(),
    };
    let mut hash: u32 = FNV_OFFSET;
    match name {
        Some(s) => {
            hash = feed(hash, s.as_bytes());
        },
        None => {
            assert(fnv_feed(FNV_OFFSET, Seq::<u8>::empty()) == FNV_OFFSET);
        },
    }
    assert(hash == fnv_feed(FNV_OFFSET, name_bytes));
    let xs = le_bytes_of(x);
    hash = feed(hash, xs.as_slice());
    proof {
        lemma_feed_concat(FNV_OFFSET, name_bytes, le_bytes(x));
    }
    let ys = le_bytes_of(y);
    hash = feed(hash, ys.as_slice());
    proof {
        lemma_feed_concat(FNV_OFFSET, name_bytes + le_bytes(x), le_bytes(y));
    }
    DisplayId(hash)
}

/// The screens last read from the platform.
pub struct MonitorCache {
    displays: Vec<Display>,
}

impl MonitorCache {
    /// The screens held, in the order they were stored.
    pub closed spec fn held(&self) -> Seq<Display> {
        self.displays@
    }

    /// An empty cache.
    pub fn new() -> (cache: MonitorCache)
        ensures
            cache.held() == Seq::<Display>::empty(),
    {
        MonitorCache { displays: Vec::new() }
    }

    /// A copy of the screens held.
    pub fn snapshot(&self) -> (displays: Vec<Display>)
        ensures
            displays@ == self.held(),
    {
        let mut copy: Vec<Display> = Vec::new();
        let mut i: usize = 0;
        while i < self.displays.len()
            invariant
                i <= self.displays@.len(),
                copy@ == self.displays@.take(i as int),
            decreases self.displays@.len() - i,
        {
            copy.push(self.displays[i]);
            i = i + 1;
            assert(copy@ =~= self.displays@.take(i as int));
        }
        assert(self.displays@.take(i as int) =~= self.displays@);
        copy
    }

    /// Replaces the screens held by a fresh reading.
    pub fn store(&mut self, displays: Vec<Display>)
        ensures
            final(self).held() == displays@,
    {
        self.displays = displays;
    }
}

/// Where the screens are read from: the cache itself, or a handle that shares one cache
/// between the thread that refreshes it and the threads that read it.
pub trait ScreenCache {
    /// The screens the cache holds at the moment of the call.
    fn snapshot(&self) -> Vec<Display>;
}

impl ScreenCache for MonitorCache {
    fn snapshot(&self) -> (displays: Vec<Display>)
        ensures
            displays@ == self.held(),
    {
        MonitorCache::snapshot(self)
    }
}

/// The screens of the platform, read through a monitor cache at each request, so that
/// what a later refresh stores through a shared handle is what the next request returns.
pub struct TauriDisplays<C> {
    cache: C,
}

impl<C> TauriDisplays<C> {
    /// Serves the screens of `cache`; it keeps the cache as given and reads nothing yet.
    pub fn new(cache: C) -> (displays: TauriDisplays<C>)
        ensures
            displays.cache() == cache,
    {
        TauriDisplays { cache }
    }

    /// The cache the screens are read from.
    pub closed spec fn cache(&self) -> C {
        self.cache
    }
}

impl<C: ScreenCache> DisplayEnumerationPort for TauriDisplays<C> {
    /// Whatever the cache holds at the moment of the call: a shared cache may have been
    /// refreshed by another thread since the last request, so no two requests are tied.
    fn displays(&self) -> Vec<Display> {
        self.cache.snapshot()
    }
}

} // verus!
