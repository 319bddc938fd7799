//! Null-terminated strings in the target's memory, and the cache of the
//! strings already read.
use vstd::prelude::*;
use vstd::utf8::{decode_utf8, valid_utf8};

use std::collections::HashMap;
use std::string::FromUtf8Error;

use crate::memory::{lemma_run_read, run, Oracle, Read, ReadMachine, Step, Width};

verus! {

broadcast use vstd::std_specs::hash::group_hash_axioms;

#[verifier::external_type_specification]
#[verifier::external_body]
pub struct ExFromUtf8Error(FromUtf8Error);

/// `String::from_utf8`: the bytes as a string where they are valid UTF-8,
/// an error otherwise.
#[verifier::external_body]
fn string_from_utf8(bytes: Vec<u8>) -> (r: Result<String, FromUtf8Error>)
    ensures
        r is Ok <==> valid_utf8(bytes@),
        r matches Ok(s) ==> s@ == decode_utf8(bytes@),
{
    String::from_utf8(bytes)
}

/// The string that `bytes` encode, or the empty string where they are not
/// valid UTF-8.
pub open spec fn utf8_or_empty(bytes: Seq<u8>) -> Seq<char> {
    if valid_utf8(bytes) {
        decode_utf8(bytes)
    } else {
        Seq::empty()
    }
}

/// Bytes read so far, the most recent first.
pub enum ByteList {
    Empty,
    Cons(u8, Box<ByteList>),
}

impl ByteList {
    /// The bytes in the order they were read.
    pub open spec fn to_seq(self) -> Seq<u8>
        decreases self,
    {
        match self {
            ByteList::Empty => Seq::empty(),
            ByteList::Cons(b, rest) => rest.to_seq().push(b),
        }
    }

    /// The bytes in the order they were read.
    pub fn into_bytes(self) -> (bytes: Vec<u8>)
        ensures
            bytes@ == self.to_seq(),
    {
        let mut reversed: Vec<u8> = Vec::new();
        let mut list = self;
        let ghost all = self.to_seq();
        loop
            invariant
                all == list.to_seq() + reversed@.reverse(),
            ensures
                all == reversed@.reverse(),
            decreases list.to_seq().len(),
        {
            match list {
                ByteList::Empty => {
                    assert(all =~= reversed@.reverse());
                    break;
                },
                ByteList::Cons(b, rest) => {
                    proof {
                        assert(reversed@.push(b).reverse() =~= seq![b] + reversed@.reverse());
                        assert(list.to_seq() =~= (*rest).to_seq().push(b));
                    }
                    reversed.push(b);
                    list = *rest;
                },
            }
        }
        assert(all =~= reversed@.reverse());
        let mut bytes: Vec<u8> = Vec::new();
        let mut i = reversed.len();
        while i > 0
            invariant
                i <= reversed@.len(),
                bytes@ =~= reversed@.reverse().subrange(0, reversed@.len() - i),
            decreases i,
        {
            i -= 1;
            bytes.push(reversed[i]);
        }
        bytes
    }

    /// The string that the bytes encode, or the empty string where they are
    /// not valid UTF-8.
    pub fn into_string(self) -> (s: String)
        ensures
            s@ == utf8_or_empty(self.to_seq()),
    {
        match string_from_utf8(self.into_bytes()) {
            Ok(s) => s,
            Err(_) => String::new(),
        }
    }
}

/// The byte at `address`.
pub open spec fn byte_read(address: u64) -> Read {
    Read { address, width: Width::U8 }
}

/// The byte that `oracle` holds at `address`.
pub open spec fn byte_at(oracle: Oracle, address: u64) -> u8 {
    oracle(byte_read(address)) as u8
}

/// The first `n` bytes at `start`.
pub open spec fn bytes_at(oracle: Oracle, start: u64, n: nat) -> Seq<u8> {
    Seq::new(n, |i: int| byte_at(oracle, start.wrapping_add(i as u64)))
}

/// The string at `start` is `n` bytes long: its byte `n` is the first zero.
pub open spec fn terminated_at(oracle: Oracle, start: u64, n: nat) -> bool {
    &&& byte_at(oracle, start.wrapping_add(n as u64)) == 0
    &&& forall|k: nat| k < n ==> #[trigger] byte_at(oracle, start.wrapping_add(k as u64)) != 0
}

/// Reads a null-terminated string, one byte at a time.
pub struct StringRead {
    /// The start of the string.
    pub start: u64,
    /// The address of the pending read.
    pub address: u64,
    /// The bytes read so far.
    pub bytes: ByteList,
}

impl StringRead {
    pub open spec fn spec_start(address: u64) -> Step<StringRead, ByteList> {
        Step::Read(StringRead { start: address, address, bytes: ByteList::Empty }, byte_read(address))
    }

    /// Starts reading the string at `address`: the machine ends with the bytes
    /// before the first zero byte (see `lemma_string_read`).
    pub fn start(address: u64) -> (step: Step<StringRead, ByteList>)
        ensures
            step == Self::spec_start(address),
    {
        Step::Read(StringRead { start: address, address, bytes: ByteList::Empty }, Read { address, width: Width::U8 })
    }
}

impl ReadMachine for StringRead {
    type Output = ByteList;

    open spec fn next(self, reply: u64) -> Step<StringRead, ByteList> {
        if reply as u8 == 0 {
            Step::Done(self.bytes)
        } else {
            Step::Read(
                StringRead {
                    start: self.start,
                    address: self.address.wrapping_add(1),
                    bytes: ByteList::Cons(reply as u8, Box::new(self.bytes)),
                },
                byte_read(self.address.wrapping_add(1)),
            )
        }
    }

    fn resume(self, reply: u64) -> (step: Step<StringRead, ByteList>) {
        let c = reply as u8;
        if c == 0 {
            Step::Done(self.bytes)
        } else {
            let address = self.address.wrapping_add(1);
            Step::Read(
                StringRead { start: self.start, address, bytes: ByteList::Cons(c, Box::new(self.bytes)) },
                Read { address, width: Width::U8 },
            )
        }
    }
}

proof fn lemma_string_read_from(oracle: Oracle, start: u64, k: nat, n: nat, bytes: ByteList)
    requires
        k <= n,
        n < 0x1_0000_0000_0000_0000,
        terminated_at(oracle, start, n),
        bytes.to_seq() == bytes_at(oracle, start, k),
    ensures
        run(
            Step::Read(
                StringRead { start, address: start.wrapping_add(k as u64), bytes },
                byte_read(start.wrapping_add(k as u64)),
            ),
            oracle,
            (n - k + 1) as nat,
        ) matches Some(result) && result.to_seq() == bytes_at(oracle, start, n),
    decreases n - k,
{
    let address = start.wrapping_add(k as u64);
    let state = StringRead { start, address, bytes };
    lemma_run_read(state, byte_read(address), oracle, (n - k + 1) as nat);
    if k == n {
        reveal_with_fuel(run, 1);
    } else {
        assert(byte_at(oracle, start.wrapping_add(k as u64)) != 0);
        let c = byte_at(oracle, address);
        let next = ByteList::Cons(c, Box::new(bytes));
        assert(address.wrapping_add(1) == start.wrapping_add((k + 1) as u64));
        assert(next.to_seq() =~= bytes_at(oracle, start, k + 1));
        lemma_string_read_from(oracle, start, k + 1, n, next);
    }
}

/// Reading a string that is `n` bytes long takes `n + 1` reads and gives its
/// `n` bytes.
pub proof fn lemma_string_read(oracle: Oracle, address: u64, n: nat)
    requires
        n < 0x1_0000_0000_0000_0000,
        terminated_at(oracle, address, n),
    ensures
        run(StringRead::spec_start(address), oracle, n + 1) matches Some(result) && result.to_seq() == bytes_at(
            oracle,
            address,
            n,
        ),
{
    assert(address.wrapping_add(0) == address);
    assert(ByteList::Empty.to_seq() =~= bytes_at(oracle, address, 0));
    lemma_string_read_from(oracle, address, 0, n, ByteList::Empty);
}

/// The strings already read, by address.
pub struct StringCache {
    pub entries: HashMap<u64, String>,
}

/// A string found in the cache, or the read that finds it.
pub enum CachedString {
    Hit(String),
    Miss(Step<StringRead, ByteList>),
}

impl StringCache {
    /// The cached strings by address.
    pub open spec fn view(&self) -> Map<u64, Seq<char>> {
        Map::new(|a: u64| self.entries@.contains_key(a), |a: u64| self.entries@[a]@)
    }

    /// An empty cache.
    pub fn new() -> (cache: StringCache)
        ensures
            cache.view() == Map::<u64, Seq<char>>::empty(),
    {
        let cache = StringCache { entries: HashMap::new() };
        assert(cache.view() =~= Map::<u64, Seq<char>>::empty());
        cache
    }

    /// The string at `address`: the cached one where there is one, otherwise
    /// the read of the string, whose result `store` records.
    pub fn read_string(&self, address: u64) -> (r: CachedString)
        ensures
            match r {
                CachedString::Hit(s) => self.view().contains_key(address) && s@ == self.view()[address],
                CachedString::Miss(step) => !self.view().contains_key(address) && step == StringRead::spec_start(
                    address,
                ),
            },
    {
        match self.entries.get(&address) {
            Some(s) => CachedString::Hit(s.clone()),
            None => CachedString::Miss(StringRead::start(address)),
        }
    }

    /// Records the string read at `address` and gives back the string cached
    /// there: the one just read, unless the address already had one, which
    /// stays.
    pub fn store(&mut self, address: u64, bytes: ByteList) -> (s: String)
        ensures
            final(self).view() == cache_store(old(self).view(), address, utf8_or_empty(bytes.to_seq())),
            final(self).view().contains_key(address),
            s@ == final(self).view()[address],
    {
        match self.entries.get(&address) {
            Some(cached) => cached.clone(),
            None => {
                let s = bytes.into_string();
                self.entries.insert(address, s.clone());
                assert(self.view() =~= old(self).view().insert(address, s@));
                s
            },
        }
    }
}

/// The cached strings after storing `s` at `address`: an address that has a
/// string keeps it.
pub open spec fn cache_store(cached: Map<u64, Seq<char>>, address: u64, s: Seq<char>) -> Map<u64, Seq<char>> {
    if cached.contains_key(address) {
        cached
    } else {
        cached.insert(address, s)
    }
}

/// The cached strings after the stores `stores`, in order.
pub open spec fn cache_after(cached: Map<u64, Seq<char>>, stores: Seq<(u64, Seq<char>)>) -> Map<u64, Seq<char>>
    decreases stores.len(),
{
    if stores.len() == 0 {
        cached
    } else {
        cache_store(cache_after(cached, stores.drop_last()), stores.last().0, stores.last().1)
    }
}

/// The string at `address` ends within the address space.
pub open spec fn is_terminated(oracle: Oracle, address: u64, n: nat) -> bool {
    n < 0x1_0000_0000_0000_0000 && terminated_at(oracle, address, n)
}

/// The length of the string at `address`, where it ends.
pub open spec fn c_string_len(oracle: Oracle, address: u64) -> nat {
    choose|n: nat| is_terminated(oracle, address, n)
}

/// The bytes of the null-terminated string at `address`, if it ends.
pub open spec fn c_string(oracle: Oracle, address: u64) -> Option<Seq<u8>> {
    if exists|n: nat| is_terminated(oracle, address, n) {
        Some(bytes_at(oracle, address, c_string_len(oracle, address)))
    } else {
        None
    }
}

/// Reading a string that ends takes its length plus one reads and gives its
/// bytes.
pub proof fn lemma_c_string(oracle: Oracle, address: u64)
    requires
        c_string(oracle, address) is Some,
    ensures
        run(StringRead::spec_start(address), oracle, c_string_len(oracle, address) + 1) matches Some(result)
            && result.to_seq() == c_string(oracle, address)->0,
{
    let n = c_string_len(oracle, address);
    lemma_string_read(oracle, address, n);
}

proof fn lemma_cache_keeps(cached: Map<u64, Seq<char>>, address: u64, stores: Seq<(u64, Seq<char>)>)
    requires
        cached.contains_key(address),
    ensures
        cache_after(cached, stores).contains_key(address),
        cache_after(cached, stores)[address] == cached[address],
    decreases stores.len(),
{
    if stores.len() > 0 {
        lemma_cache_keeps(cached, address, stores.drop_last());
    }
}

/// The string that a first read at `address` gives is what every later
/// lookup there finds, whatever is stored afterwards at any address: the one
/// already cached where there was one, otherwise the one just read.
pub proof fn lemma_cache_keeps_first_read(
    cached: Map<u64, Seq<char>>,
    address: u64,
    first: Seq<char>,
    later: Seq<(u64, Seq<char>)>,
)
    ensures
        cache_after(cache_store(cached, address, first), later).contains_key(address),
        cache_after(cache_store(cached, address, first), later)[address] == if cached.contains_key(address) {
            cached[address]
        } else {
            first
        },
{
    lemma_cache_keeps(cache_store(cached, address, first), address, later);
}

} // verus!
