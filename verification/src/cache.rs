//! Keyed reuse of transport handles.
//!
//! The invariant that matters here: a raw credential never appears in a
//! cache key. The key holds a fixed-width hex digest of the credential
//! instead, computed by a fully specified hash.

use vstd::prelude::*;
use vstd::string::StrSliceExecFns;

use crate::strutil::{push_char, str_eq};

verus! {

/// The FNV-1a offset basis for 64 bits.
pub const FNV_OFFSET: u64 = 0xcbf2_9ce4_8422_2325;

/// The FNV-1a prime for 64 bits.
pub const FNV_PRIME: u64 = 0x100_0000_01b3;

/// The 64-bit FNV-1a hash of a byte sequence.
pub open spec fn spec_fnv1a(bytes: Seq<u8>) -> u64
    decreases bytes.len(),
{
    if bytes.len() == 0 {
        FNV_OFFSET
    } else {
        vstd::wrapping::u64_specs::wrapping_mul(
            spec_fnv1a(bytes.drop_last()) ^ (bytes.last() as u64),
            FNV_PRIME,
        )
    }
}

/// The lowercase hex character of a nibble.
pub open spec fn spec_hex_digit(n: u64) -> char {
    if n == 0 {
        '0'
    } else if n == 1 {
        '1'
    } else if n == 2 {
        '2'
    } else if n == 3 {
        '3'
    } else if n == 4 {
        '4'
    } else if n == 5 {
        '5'
    } else if n == 6 {
        '6'
    } else if n == 7 {
        '7'
    } else if n == 8 {
        '8'
    } else if n == 9 {
        '9'
    } else if n == 10 {
        'a'
    } else if n == 11 {
        'b'
    } else if n == 12 {
        'c'
    } else if n == 13 {
        'd'
    } else if n == 14 {
        'e'
    } else {
        'f'
    }
}

/// The 16-character lowercase hex form of a 64-bit value, most
/// significant nibble first.
pub open spec fn spec_hex64(h: u64) -> Seq<char> {
    Seq::new(16, |i: int| spec_hex_digit((h >> (((15 - i) * 4) as u64)) & 0xf))
}

/// The digest that stands in for a credential inside a cache key.
pub open spec fn spec_digest(cred: Seq<char>) -> Seq<char> {
    spec_hex64(spec_fnv1a(vstd::utf8::encode_utf8(cred)))
}

/// The 64-bit FNV-1a hash of the given bytes.
fn fnv1a(bytes: &Vec<u8>) -> (r: u64)
    ensures
        r == spec_fnv1a(bytes@),
{
    let mut h: u64 = FNV_OFFSET;
    let mut i: usize = 0;
    proof {
        assert(bytes@.take(0) =~= Seq::<u8>::empty());
    }
    while i < bytes.len()
        invariant
            i <= bytes@.len(),
            h == spec_fnv1a(bytes@.take(i as int)),
        decreases bytes@.len() - i,
    {
        proof {
            assert(bytes@.take(i + 1).drop_last() =~= bytes@.take(i as int));
            assert(bytes@.take(i + 1).last() == bytes@[i as int]);
        }
        h = (h ^ (bytes[i] as u64)).wrapping_mul(FNV_PRIME);
        i += 1;
    }
    proof {
        assert(bytes@.take(bytes@.len() as int) =~= bytes@);
    }
    h
}

/// The lowercase hex character of a nibble, decided executably.
fn hex_digit(n: u64) -> (r: char)
    requires
        n < 16,
    ensures
        r == spec_hex_digit(n),
{
    if n == 0 {
        '0'
    } else if n == 1 {
        '1'
    } else if n == 2 {
        '2'
    } else if n == 3 {
        '3'
    } else if n == 4 {
        '4'
    } else if n == 5 {
        '5'
    } else if n == 6 {
        '6'
    } else if n == 7 {
        '7'
    } else if n == 8 {
        '8'
    } else if n == 9 {
        '9'
    } else if n == 10 {
        'a'
    } else if n == 11 {
        'b'
    } else if n == 12 {
        'c'
    } else if n == 13 {
        'd'
    } else if n == 14 {
        'e'
    } else {
        'f'
    }
}

/// The 16-character lowercase hex form of a 64-bit value.
fn hex64(h: u64) -> (r: String)
    ensures
        r@ == spec_hex64(h),
{
    let mut out = String::new();
    let mut k: usize = 0;
    while k < 16
        invariant
            k <= 16,
            out@.len() == k,
            forall|i: int| 0 <= i < k ==> out@[i] == spec_hex64(h)[i],
        decreases 16 - k,
    {
        let shift: u64 = ((15 - k) * 4) as u64;
        let nib: u64 = (h >> shift) & 0xf;
        proof {
            assert((h >> shift) & 0xf < 16) by (bit_vector);
        }
        let c = hex_digit(nib);
        push_char(&mut out, c);
        k += 1;
    }
    proof {
        assert(out@ =~= spec_hex64(h));
    }
    out
}

/// A keyed store of transport handles: one handle per
/// `(base URL, credential digest)` pair.
pub struct ClientCache<H> {
    /// The handles, keyed by `(base URL, credential digest)`.
    pub entries: Vec<((String, String), H)>,
}

impl<H> ClientCache<H> {
    /// An empty cache.
    pub fn new() -> (r: ClientCache<H>)
        ensures
            r.entries@ == Seq::<((String, String), H)>::empty(),
    {
        ClientCache { entries: Vec::new() }
    }

    /// The cache key of a base URL and a credential. The credential
    /// itself never enters the key: its second component is the fixed
    /// 16-character digest of the credential.
    pub fn make_key(base_url: &str, api_key: &str) -> (r: (String, String))
        ensures
            r.0@ == base_url@,
            r.1@ == spec_digest(api_key@),
            r.1@.len() == 16,
    {
        let bytes = api_key.as_bytes_vec();
        let h = fnv1a(&bytes);
        (base_url.to_owned(), hex64(h))
    }

    /// The index of the entry keyed by the pair, if one is stored.
    fn find(&self, base_url: &str, api_key: &str) -> (r: Option<usize>)
        ensures
            match r {
                Some(i) => i < self.entries@.len() && self.entries@[i as int].0.0@ == base_url@
                    && self.entries@[i as int].0.1@ == spec_digest(api_key@),
                None => forall|i: int|
                    0 <= i < self.entries@.len() ==> !(#[trigger] self.entries@[i].0.0@
                        == base_url@ && self.entries@[i].0.1@ == spec_digest(api_key@)),
            },
    {
        let key = Self::make_key(base_url, api_key);
        let mut i: usize = 0;
        while i < self.entries.len()
            invariant
                i <= self.entries@.len(),
                key.0@ == base_url@,
                key.1@ == spec_digest(api_key@),
                forall|k: int|
                    0 <= k < i ==> !(#[trigger] self.entries@[k].0.0@ == base_url@
                        && self.entries@[k].0.1@ == spec_digest(api_key@)),
            decreases self.entries@.len() - i,
        {
            if str_eq(self.entries[i].0.0.as_str(), key.0.as_str()) && str_eq(
                self.entries[i].0.1.as_str(),
                key.1.as_str(),
            ) {
                return Some(i);
            }
            i += 1;
        }
        None
    }

    /// The handle stored for the pair, if any.
    pub fn get(&self, base_url: &str, api_key: &str) -> (r: Option<&H>)
        ensures
            match r {
                Some(h) => exists|i: int|
                    0 <= i < self.entries@.len() && #[trigger] self.entries@[i].0.0@ == base_url@
                        && self.entries@[i].0.1@ == spec_digest(api_key@) && *h
                        == self.entries@[i].1,
                None => forall|i: int|
                    0 <= i < self.entries@.len() ==> !(#[trigger] self.entries@[i].0.0@
                        == base_url@ && self.entries@[i].0.1@ == spec_digest(api_key@)),
            },
    {
        match self.find(base_url, api_key) {
            Some(i) => Some(&self.entries[i].1),
            None => None,
        }
    }

    /// Stores a handle for the pair; the key holds the digest, never the
    /// credential.
    pub fn store(&mut self, base_url: &str, api_key: &str, handle: H)
        ensures
            final(self).entries@.len() == old(self).entries@.len() + 1,
            final(self).entries@.drop_last() == old(self).entries@,
            final(self).entries@.last().0.0@ == base_url@,
            final(self).entries@.last().0.1@ == spec_digest(api_key@),
            final(self).entries@.last().1 == handle,
    {
        let key = Self::make_key(base_url, api_key);
        self.entries.push((key, handle));
    }

    /// Empties the cache.
    pub fn clear(&mut self)
        ensures
            final(self).entries@ == Seq::<((String, String), H)>::empty(),
    {
        self.entries.clear();
        proof {
            assert(self.entries@ =~= Seq::<((String, String), H)>::empty());
        }
    }
}

} // verus!
