//! Named byte buffers: the keyed mapping that both memory classes are built
//! from, with its model and the rules for allocating, reading and writing.

use vstd::hash_map::StringHashMap;
use vstd::prelude::*;
use vstd::slice::slice_to_vec;
use vstd::string::StringExecFns;

verus! {

/// A buffer of `size` zero bytes.
pub open spec fn zeroed(size: nat) -> Seq<u8> {
    Seq::new(size, |i: int| 0u8)
}

/// The buffer stored under `key`, if there is one.
pub open spec fn lookup(region: Map<Seq<char>, Seq<u8>>, key: Seq<char>) -> Option<Seq<u8>> {
    if region.contains_key(key) {
        Some(region[key])
    } else {
        None
    }
}

/// The region after a fresh zero-filled buffer of `size` bytes has been put
/// under `key`, replacing whatever was there.
pub open spec fn allocated(region: Map<Seq<char>, Seq<u8>>, key: Seq<char>, size: nat) -> Map<
    Seq<char>,
    Seq<u8>,
> {
    region.insert(key, zeroed(size))
}

/// `buffer` with `data` copied over its first bytes; the rest stays as it was.
pub open spec fn overwrite_prefix(buffer: Seq<u8>, data: Seq<u8>) -> Seq<u8>
    recommends
        data.len() <= buffer.len(),
{
    data + buffer.skip(data.len() as int)
}

/// Whether `data` can be written under `key`: the key is free, or its buffer
/// is at least as long as `data`.
pub open spec fn write_fits(region: Map<Seq<char>, Seq<u8>>, key: Seq<char>, data: Seq<u8>) -> bool {
    region.contains_key(key) ==> data.len() <= region[key].len()
}

/// The region after a write that fits: an existing buffer keeps its length
/// and gets `data` as its prefix, a free key gets an exact copy of `data`.
pub open spec fn written(region: Map<Seq<char>, Seq<u8>>, key: Seq<char>, data: Seq<u8>) -> Map<
    Seq<char>,
    Seq<u8>,
>
    recommends
        write_fits(region, key, data),
{
    if region.contains_key(key) {
        region.insert(key, overwrite_prefix(region[key], data))
    } else {
        region.insert(key, data)
    }
}

/// The message of a capacity failure: it names the key whose buffer is too
/// small.
pub open spec fn buffer_too_small(key: Seq<char>) -> Seq<char> {
    "Buffer too small: "@ + key
}

/// Allocating under a key and then reading it gives exactly `size` zero
/// bytes, whatever the region held before.
pub proof fn lemma_allocate_then_read(region: Map<Seq<char>, Seq<u8>>, key: Seq<char>, size: nat)
    ensures
        lookup(allocated(region, key, size), key) == Some(zeroed(size)),
        zeroed(size).len() == size,
        forall|i: int| 0 <= i < size ==> zeroed(size)[i] == 0u8,
{
}

/// Writing data that is no longer than the buffer under a key succeeds, and
/// reading the key then gives the data followed by the rest of the old buffer:
/// the length stays, the first bytes are the data, the others are untouched.
pub proof fn lemma_write_within_capacity(
    region: Map<Seq<char>, Seq<u8>>,
    key: Seq<char>,
    data: Seq<u8>,
)
    requires
        region.contains_key(key),
        data.len() <= region[key].len(),
    ensures
        write_fits(region, key, data),
        lookup(written(region, key, data), key) == Some(data + region[key].skip(data.len() as int)),
        written(region, key, data)[key].len() == region[key].len(),
        forall|i: int| 0 <= i < data.len() ==> written(region, key, data)[key][i] == data[i],
        forall|i: int|
            data.len() <= i < region[key].len() ==> written(region, key, data)[key][i]
                == region[key][i],
{
}

/// Data that is longer than the buffer under a key does not fit: the write is
/// refused, so the region, and with it the buffer under the key, stays as it
/// was.
pub proof fn lemma_write_beyond_capacity(
    region: Map<Seq<char>, Seq<u8>>,
    key: Seq<char>,
    data: Seq<u8>,
)
    requires
        region.contains_key(key),
        data.len() > region[key].len(),
    ensures
        !write_fits(region, key, data),
        lookup(region, key) == Some(region[key]),
{
}

/// Writing under a free key succeeds, and reading the key then gives exactly
/// the data.
pub proof fn lemma_write_to_free_key(region: Map<Seq<char>, Seq<u8>>, key: Seq<char>, data: Seq<u8>)
    requires
        !region.contains_key(key),
    ensures
        write_fits(region, key, data),
        lookup(written(region, key, data), key) == Some(data),
{
}

/// Allocating or writing under one key leaves the buffer under every other
/// key as it was, and adds no key but the one named.
pub proof fn lemma_other_keys_untouched(
    region: Map<Seq<char>, Seq<u8>>,
    key: Seq<char>,
    other: Seq<char>,
    size: nat,
    data: Seq<u8>,
)
    requires
        other != key,
    ensures
        lookup(allocated(region, key, size), other) == lookup(region, other),
        lookup(written(region, key, data), other) == lookup(region, other),
{
}

/// A set of named byte buffers. Every key names exactly one buffer.
///
/// The buffers live in `buffers`; `slots` says which one a key names. A buffer
/// stays in its slot for as long as the region lives, so it can be handed out
/// and overwritten in place.
pub struct MemoryRegion {
    slots: StringHashMap<usize>,
    buffers: Vec<Vec<u8>>,
}

impl View for MemoryRegion {
    type V = Map<Seq<char>, Seq<u8>>;

    closed spec fn view(&self) -> Map<Seq<char>, Seq<u8>> {
        Map::new(
            |key: Seq<char>| self.slots@.contains_key(key),
            |key: Seq<char>| self.buffers@[self.slots@[key] as int]@,
        )
    }
}

impl MemoryRegion {
    /// Every key names a slot that exists, and no two keys name the same one.
    pub closed spec fn wf(&self) -> bool {
        &&& forall|key: Seq<char>| #[trigger]
            self.slots@.contains_key(key) ==> self.slots@[key] < self.buffers@.len()
        &&& forall|one: Seq<char>, other: Seq<char>|
            self.slots@.contains_key(one) && self.slots@.contains_key(other) && self.slots@[one]
                == self.slots@[other] ==> one == other
    }

    /// An empty region.
    pub fn new() -> (region: Self)
        ensures
            region.wf(),
            region@ == Map::<Seq<char>, Seq<u8>>::empty(),
    {
        let region = MemoryRegion { slots: StringHashMap::new(), buffers: Vec::new() };
        assert(region@ =~= Map::<Seq<char>, Seq<u8>>::empty());
        region
    }

    /// Puts a zero-filled buffer of `size` bytes under `key` and returns a
    /// mutable view of it. A buffer already under `key` is discarded. What the
    /// caller writes through the view is what the region then holds under
    /// `key`; left untouched, that is `size` zero bytes.
    pub fn allocate(&mut self, key: &str, size: usize) -> (buffer: &mut [u8])
        requires
            old(self).wf(),
        ensures
            final(self).wf(),
            buffer@ == zeroed(size as nat),
            final(self)@ == old(self)@.insert(key@, final(buffer)@),
            final(buffer)@ == buffer@ ==> final(self)@ == allocated(old(self)@, key@, size as nat),
    {
        let zeros = vec![0u8; size];
        assert(zeros@ =~= zeroed(size as nat));
        let slot: usize = match self.slots.get(key) {
            Some(slot) => {
                let slot: usize = *slot;
                self.buffers[slot] = zeros;
                slot
            },
            None => {
                let slot: usize = self.buffers.len();
                self.buffers.push(zeros);
                self.slots.insert(key.to_owned(), slot);
                slot
            },
        };
        self.buffers[slot].as_mut_slice()
    }

    /// The buffer under `key`, or `None` where the key is free.
    pub fn read(&self, key: &str) -> (buffer: Option<&[u8]>)
        requires
            self.wf(),
        ensures
            match buffer {
                Some(bytes) => lookup(self@, key@) == Some(bytes@),
                None => lookup(self@, key@) is None,
            },
    {
        match self.slots.get(key) {
            Some(slot) => Some(self.buffers[*slot].as_slice()),
            None => None,
        }
    }

    /// Writes `data` under `key`. An existing buffer that is long enough gets
    /// `data` as its prefix and keeps the rest; a free key gets a copy of
    /// `data`. Where the existing buffer is shorter than `data`, nothing is
    /// written and the failure names the key.
    pub fn write(&mut self, key: &str, data: &[u8]) -> (outcome: Result<(), String>)
        requires
            old(self).wf(),
        ensures
            final(self).wf(),
            write_fits(old(self)@, key@, data@) ==> outcome is Ok && final(self)@ == written(
                old(self)@,
                key@,
                data@,
            ),
            !write_fits(old(self)@, key@, data@) ==> final(self)@ == old(self)@ && (
            outcome matches Err(message) && message@ == buffer_too_small(key@)),
    {
        match self.slots.get(key) {
            Some(slot) => {
                let slot: usize = *slot;
                if self.buffers[slot].len() >= data.len() {
                    copy_prefix(&mut self.buffers[slot], data);
                    assert(self@ =~= written(old(self)@, key@, data@));
                    Ok(())
                } else {
                    Err(String::from_str("Buffer too small: ").concat(key))
                }
            },
            None => {
                let slot: usize = self.buffers.len();
                self.buffers.push(slice_to_vec(data));
                self.slots.insert(key.to_owned(), slot);
                assert(self@ =~= written(old(self)@, key@, data@));
                Ok(())
            },
        }
    }
}

/// Copies `data` over the first bytes of `buffer`, in place.
fn copy_prefix(buffer: &mut Vec<u8>, data: &[u8])
    requires
        data@.len() <= old(buffer)@.len(),
    ensures
        final(buffer)@ == overwrite_prefix(old(buffer)@, data@),
{
    let mut at: usize = 0;
    while at < data.len()
        invariant
            at <= data@.len() <= buffer@.len(),
            buffer@.len() == old(buffer)@.len(),
            buffer@ == data@.take(at as int) + old(buffer)@.skip(at as int),
        decreases data@.len() - at,
    {
        buffer[at] = data[at];
        at += 1;
    }
    assert(data@.take(at as int) =~= data@);
}

} // verus!
