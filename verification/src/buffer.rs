//! The typed-buffer exchange protocol: how a workload and the host share a
//! value across the hostcall boundary with ownership transfer and a runtime
//! type check.
//!
//! Workload code and host code may be compiled as separate units with no
//! shared static type system, so a value crossing the boundary is protected
//! by a 64-bit type fingerprint: two sides may interpret the same buffer only
//! if their fingerprints are bit-identical. The host side of the channel
//! ([`BufferHost`]) registers each live buffer under a named slot together
//! with its fingerprint and its byte image; the workload side holds a
//! [`DataBuffer`] handle tagged with who owns the underlying region.

use vstd::prelude::*;

verus! {

/// A type that may cross the hostcall boundary: it carries a 64-bit
/// fingerprint standing in for its layout and type identity, and a byte
/// image that the shared region holds. The fingerprint check is a
/// correctness mechanism, not a cryptographic one: collisions between
/// unrelated types are an accepted risk.
pub trait Verify: Sized {
    /// The type's fingerprint: a fixed, documented constant per type.
    spec fn spec_fingerprint() -> u64;

    /// The value a freshly allocated buffer of this type holds.
    spec fn spec_default() -> Self;

    /// The byte image of a value, as the shared region holds it.
    spec fn spec_encode(v: Self) -> Seq<u8>;

    /// The value a byte image stands for, or nothing for a malformed image.
    spec fn spec_decode(b: Seq<u8>) -> Option<Self>;

    /// Decoding a value's own byte image gives the value back.
    proof fn lemma_codec_round_trip(v: Self)
        ensures
            Self::spec_decode(Self::spec_encode(v)) == Some(v),
    ;

    /// The type's fingerprint.
    fn __fingerprint() -> (r: u64)
        ensures
            r == Self::spec_fingerprint(),
    ;

    /// The default value written into a freshly allocated buffer.
    fn default_value() -> (r: Self)
        ensures
            r == Self::spec_default(),
    ;

    /// The byte image of this value.
    fn encode(&self) -> (r: Vec<u8>)
        ensures
            r@ == Self::spec_encode(*self),
    ;

    /// The value a byte image stands for.
    fn decode(b: &Vec<u8>) -> (r: Option<Self>)
        ensures
            r == Self::spec_decode(b@),
    ;
}

impl Verify for () {
    open spec fn spec_fingerprint() -> u64 {
        15904386212477936532
    }

    open spec fn spec_default() -> () {
        ()
    }

    open spec fn spec_encode(v: ()) -> Seq<u8> {
        Seq::empty()
    }

    open spec fn spec_decode(b: Seq<u8>) -> Option<()> {
        if b.len() == 0 {
            Some(())
        } else {
            None
        }
    }

    proof fn lemma_codec_round_trip(v: ()) {
    }

    fn __fingerprint() -> u64 {
        15904386212477936532
    }

    fn default_value() -> () {
        ()
    }

    fn encode(&self) -> (r: Vec<u8>) {
        let r: Vec<u8> = Vec::new();
        assert(r@ =~= Self::spec_encode(()));
        r
    }

    fn decode(b: &Vec<u8>) -> (r: Option<()>) {
        if b.len() == 0 {
            Some(())
        } else {
            None
        }
    }
}

impl Verify for u64 {
    open spec fn spec_fingerprint() -> u64 {
        11355126557028274869
    }

    open spec fn spec_default() -> u64 {
        0
    }

    open spec fn spec_encode(v: u64) -> Seq<u8> {
        seq![
            (v & 0xff) as u8,
            ((v >> 8) & 0xff) as u8,
            ((v >> 16) & 0xff) as u8,
            ((v >> 24) & 0xff) as u8,
            ((v >> 32) & 0xff) as u8,
            ((v >> 40) & 0xff) as u8,
            ((v >> 48) & 0xff) as u8,
            ((v >> 56) & 0xff) as u8,
        ]
    }

    open spec fn spec_decode(b: Seq<u8>) -> Option<u64> {
        if b.len() == 8 {
            Some(
                (b[0] as u64) | ((b[1] as u64) << 8) | ((b[2] as u64) << 16) | ((b[3] as u64)
                    << 24) | ((b[4] as u64) << 32) | ((b[5] as u64) << 40) | ((b[6] as u64) << 48)
                    | ((b[7] as u64) << 56),
            )
        } else {
            None
        }
    }

    proof fn lemma_codec_round_trip(v: u64) {
        let b = Self::spec_encode(v);
        assert(((v & 0xff) as u8 as u64) | ((((v >> 8) & 0xff) as u8 as u64) << 8) | ((((v >> 16)
            & 0xff) as u8 as u64) << 16) | ((((v >> 24) & 0xff) as u8 as u64) << 24) | ((((v >> 32)
            & 0xff) as u8 as u64) << 32) | ((((v >> 40) & 0xff) as u8 as u64) << 40) | ((((v >> 48)
            & 0xff) as u8 as u64) << 48) | ((((v >> 56) & 0xff) as u8 as u64) << 56) == v)
            by (bit_vector);
    }

    fn __fingerprint() -> u64 {
        11355126557028274869
    }

    fn default_value() -> u64 {
        0
    }

    fn encode(&self) -> (r: Vec<u8>) {
        let v = *self;
        let mut r: Vec<u8> = Vec::new();
        r.push(#[verifier::truncate] ((v & 0xff) as u8));
        r.push(#[verifier::truncate] (((v >> 8) & 0xff) as u8));
        r.push(#[verifier::truncate] (((v >> 16) & 0xff) as u8));
        r.push(#[verifier::truncate] (((v >> 24) & 0xff) as u8));
        r.push(#[verifier::truncate] (((v >> 32) & 0xff) as u8));
        r.push(#[verifier::truncate] (((v >> 40) & 0xff) as u8));
        r.push(#[verifier::truncate] (((v >> 48) & 0xff) as u8));
        r.push(#[verifier::truncate] (((v >> 56) & 0xff) as u8));
        assert(r@ =~= Self::spec_encode(v));
        r
    }

    fn decode(b: &Vec<u8>) -> (r: Option<u64>) {
        if b.len() == 8 {
            let v = (b[0] as u64) | ((b[1] as u64) << 8) | ((b[2] as u64) << 16) | ((b[3] as u64)
                << 24) | ((b[4] as u64) << 32) | ((b[5] as u64) << 40) | ((b[6] as u64) << 48) | ((
            b[7] as u64) << 56);
            Some(v)
        } else {
            None
        }
    }
}

/// One live buffer on the host side: the slot it is addressed by, the
/// fingerprint of the type it was allocated as, and its current byte image.
pub struct BufferEntry {
    pub slot: String,
    pub fingerprint: u64,
    pub data: Vec<u8>,
}

/// The registered buffers, as a map from slot name to fingerprint and byte
/// image.
pub open spec fn entries_map(s: Seq<BufferEntry>) -> Map<Seq<char>, (u64, Seq<u8>)>
    decreases s.len(),
{
    if s.len() == 0 {
        Map::empty()
    } else {
        entries_map(s.drop_last()).insert(
            s.last().slot@,
            (s.last().fingerprint, s.last().data@),
        )
    }
}

/// The index of the entry registered under `slot`, scanning from the most
/// recently registered entry.
pub open spec fn find_slot(s: Seq<BufferEntry>, slot: Seq<char>) -> Option<int>
    decreases s.len(),
{
    if s.len() == 0 {
        None
    } else if s.last().slot@ == slot {
        Some(s.len() - 1)
    } else {
        find_slot(s.drop_last(), slot)
    }
}

/// No two entries are registered under the same slot name.
pub open spec fn slots_unique(s: Seq<BufferEntry>) -> bool {
    forall|i: int, j: int|
        0 <= i < s.len() && 0 <= j < s.len() && i != j ==> s[i].slot@ != s[j].slot@
}

proof fn lemma_find_slot_correct(s: Seq<BufferEntry>, slot: Seq<char>)
    ensures
        match find_slot(s, slot) {
            Some(i) => 0 <= i < s.len() && s[i].slot@ == slot && entries_map(s).contains_key(slot)
                && entries_map(s)[slot] == (s[i].fingerprint, s[i].data@),
            None => !entries_map(s).contains_key(slot) && forall|j: int|
                0 <= j < s.len() ==> s[j].slot@ != slot,
        },
    decreases s.len(),
{
    if s.len() > 0 {
        lemma_find_slot_correct(s.drop_last(), slot);
        assert(forall|j: int| 0 <= j < s.len() - 1 ==> s.drop_last()[j] == s[j]);
        assert(s.last() == s[s.len() - 1]);
    }
}

proof fn lemma_entries_map_update(s: Seq<BufferEntry>, i: int, e: BufferEntry)
    requires
        find_slot(s, e.slot@) == Some(i),
    ensures
        entries_map(s.update(i, e)) =~= entries_map(s).insert(e.slot@, (e.fingerprint, e.data@)),
    decreases s.len(),
{
    lemma_find_slot_correct(s, e.slot@);
    if i == s.len() - 1 {
        assert(s.update(i, e).drop_last() =~= s.drop_last());
    } else {
        assert(s.update(i, e).drop_last() =~= s.drop_last().update(i, e));
        lemma_entries_map_update(s.drop_last(), i, e);
        assert(s.update(i, e).last() == s.last());
    }
}

proof fn lemma_entries_map_remove(s: Seq<BufferEntry>, i: int, slot: Seq<char>)
    requires
        slots_unique(s),
        find_slot(s, slot) == Some(i),
    ensures
        entries_map(s.remove(i)) =~= entries_map(s).remove(slot),
    decreases s.len(),
{
    lemma_find_slot_correct(s, slot);
    if i == s.len() - 1 {
        assert(s.remove(i) =~= s.drop_last());
        lemma_find_slot_correct(s.drop_last(), slot);
    } else {
        assert(s.remove(i).drop_last() =~= s.drop_last().remove(i));
        assert(s.remove(i).last() == s.last());
        lemma_entries_map_remove(s.drop_last(), i, slot);
    }
}

/// The host side of the buffer channel: the buffer service's registry of
/// live shared buffers.
pub struct BufferHost {
    entries: Vec<BufferEntry>,
}

impl BufferHost {
    /// The registry as a map from slot name to fingerprint and byte image.
    pub closed spec fn view(&self) -> Map<Seq<char>, (u64, Seq<u8>)> {
        entries_map(self.entries@)
    }

    /// Internal consistency: slot names are unique.
    pub closed spec fn wf(&self) -> bool {
        slots_unique(self.entries@)
    }

    /// A host with no live buffers.
    pub fn new() -> (r: BufferHost)
        ensures
            r.wf(),
            r@ == Map::<Seq<char>, (u64, Seq<u8>)>::empty(),
    {
        BufferHost { entries: Vec::new() }
    }

    /// The position of the entry registered under `slot`, if any.
    fn find(&self, slot: &String) -> (r: Option<usize>)
        ensures
            match r {
                Some(i) => find_slot(self.entries@, slot@) == Some(i as int),
                None => find_slot(self.entries@, slot@) is None,
            },
    {
        let ghost s = self.entries@;
        let mut i = self.entries.len();
        assert(s.take(i as int) =~= s);
        while i > 0
            invariant
                i <= s.len(),
                s == self.entries@,
                find_slot(s.take(i as int), slot@) == find_slot(s, slot@),
            decreases i,
        {
            i = i - 1;
            proof {
                assert(s.take(i + 1).len() == i + 1);
                assert(s.take(i + 1)[i as int] == s[i as int]);
                assert(s.take(i + 1).last() == s[i as int]);
                assert(s.take(i + 1).drop_last() =~= s.take(i as int));
            }
            if self.entries[i].slot == *slot {
                assert(find_slot(s.take(i + 1), slot@) == Some(i as int));
                return Some(i);
            }
        }
        assert(s.take(0) =~= Seq::<BufferEntry>::empty());
        None
    }

    /// Registers `data` under `slot` with the given fingerprint, replacing
    /// whatever the slot held before. This is how an allocation, and every
    /// later write through a live buffer, reaches the shared region.
    pub fn register(&mut self, slot: &String, fingerprint: u64, data: Vec<u8>)
        requires
            old(self).wf(),
        ensures
            final(self).wf(),
            final(self)@ == old(self)@.insert(slot@, (fingerprint, data@)),
    {
        let ghost s0 = self.entries@;
        let entry = BufferEntry { slot: slot.clone(), fingerprint, data };
        match self.find(slot) {
            Some(i) => {
                proof {
                    lemma_find_slot_correct(s0, slot@);
                    lemma_entries_map_update(s0, i as int, entry);
                }
                let mut e = entry;
                core::mem::swap(&mut self.entries[i], &mut e);
                proof {
                    assert forall|a: int, b: int|
                        0 <= a < self.entries@.len() && 0 <= b < self.entries@.len() && a
                            != b implies self.entries@[a].slot@ != self.entries@[b].slot@ by {
                        assert(s0[a].slot@ != s0[b].slot@ || a == i || b == i);
                    }
                    assert(self@ =~= old(self)@.insert(slot@, (fingerprint, data@)));
                }
            },
            None => {
                proof {
                    lemma_find_slot_correct(s0, slot@);
                }
                self.entries.push(entry);
                proof {
                    assert(self.entries@.drop_last() =~= s0);
                    assert(self@ =~= old(self)@.insert(slot@, (fingerprint, data@)));
                }
            },
        }
    }

    /// The entry registered under `slot`, if any. This is the access
    /// hostcall's view of the region: the fingerprint it must check and the
    /// bytes behind it.
    pub fn lookup(&self, slot: &String) -> (r: Option<&BufferEntry>)
        requires
            self.wf(),
        ensures
            match r {
                Some(e) => self@.contains_key(slot@) && self@[slot@] == (e.fingerprint, e.data@)
                    && e.slot@ == slot@,
                None => !self@.contains_key(slot@),
            },
    {
        proof {
            lemma_find_slot_correct(self.entries@, slot@);
        }
        match self.find(slot) {
            Some(i) => Some(&self.entries[i]),
            None => None,
        }
    }

    /// Deallocates the buffer registered under `slot`; reports whether one
    /// was live.
    pub fn remove(&mut self, slot: &String) -> (removed: bool)
        requires
            old(self).wf(),
        ensures
            final(self).wf(),
            final(self)@ == old(self)@.remove(slot@),
            removed == old(self)@.contains_key(slot@),
    {
        let ghost s0 = self.entries@;
        proof {
            lemma_find_slot_correct(s0, slot@);
        }
        match self.find(slot) {
            Some(i) => {
                proof {
                    lemma_entries_map_remove(s0, i as int, slot@);
                }
                self.entries.remove(i);
                proof {
                    assert forall|a: int, b: int|
                        0 <= a < self.entries@.len() && 0 <= b < self.entries@.len() && a
                            != b implies self.entries@[a].slot@ != self.entries@[b].slot@ by {
                        let a0 = if a < i as int {
                            a
                        } else {
                            a + 1
                        };
                        let b0 = if b < i as int {
                            b
                        } else {
                            b + 1
                        };
                        assert(s0[a0].slot@ != s0[b0].slot@);
                    }
                }
                true
            },
            None => {
                proof {
                    assert(self@ =~= old(self)@.remove(slot@));
                }
                false
            },
        }
    }
}

/// Who currently owns the region behind a buffer handle: the side that built
/// it locally, or the side that obtained it through the access path and owes
/// the one terminating deallocation.
#[derive(Clone, Copy, Debug, PartialEq, Eq, Structural)]
pub enum BufferOwner {
    LocallyOwned,
    ChannelOwned,
}

/// A fatal, isolation-level failure of the buffer channel.
#[derive(Clone, Copy, Debug, PartialEq, Eq, Structural)]
pub enum BufferError {
    /// The buffer behind the slot was allocated as a different type: a
    /// continuing program could silently reinterpret foreign memory.
    FingerprintMismatch,
    /// The byte image behind the slot is not a value of the requested type.
    MalformedData,
}

/// The host registry after an allocation hostcall for type `T` under `slot`.
pub open spec fn spec_alloc<T: Verify>(
    m: Map<Seq<char>, (u64, Seq<u8>)>,
    slot: Seq<char>,
) -> Map<Seq<char>, (u64, Seq<u8>)> {
    m.insert(slot, (T::spec_fingerprint(), T::spec_encode(T::spec_default())))
}

/// The host registry after a write of `v` through a live buffer of type `T`
/// under `slot`.
pub open spec fn spec_set<T: Verify>(
    m: Map<Seq<char>, (u64, Seq<u8>)>,
    slot: Seq<char>,
    v: T,
) -> Map<Seq<char>, (u64, Seq<u8>)> {
    m.insert(slot, (T::spec_fingerprint(), T::spec_encode(v)))
}

/// What an access hostcall typed as `T` yields on registry `m`: nothing for
/// an unregistered slot, a fatal error on a fingerprint mismatch or a
/// malformed byte image, and otherwise the value behind the slot.
pub open spec fn spec_access<T: Verify>(m: Map<Seq<char>, (u64, Seq<u8>)>, slot: Seq<char>) -> Result<
    Option<T>,
    BufferError,
> {
    if !m.contains_key(slot) {
        Ok(None)
    } else if m[slot].0 != T::spec_fingerprint() {
        Err(BufferError::FingerprintMismatch)
    } else {
        match T::spec_decode(m[slot].1) {
            Some(v) => Ok(Some(v)),
            None => Err(BufferError::MalformedData),
        }
    }
}

/// The host registry after a buffer with the given owner tag goes out of
/// use: only the side that obtained the buffer via the access path
/// deallocates; a buffer only ever held locally is left for the other side.
pub open spec fn spec_release(
    m: Map<Seq<char>, (u64, Seq<u8>)>,
    slot: Seq<char>,
    owner: BufferOwner,
) -> Map<Seq<char>, (u64, Seq<u8>)> {
    if owner is ChannelOwned {
        m.remove(slot)
    } else {
        m
    }
}

/// A typed value shared across the hostcall boundary, addressed by a named
/// slot and tagged with who owns the underlying region.
#[derive(Debug)]
pub struct DataBuffer<T> {
    /// The value as this side of the boundary sees it; every write must go
    /// through [`DataBuffer::set_value`] so the shared region keeps pace.
    pub value: T,
    /// The slot the buffer is registered under.
    pub slot: String,
    /// Who owns the region: the tag decides the release behaviour.
    pub owner: BufferOwner,
}

/// The result a workload entry point hands back across the boundary.
pub type FaaSFuncResult<T> = Result<DataBuffer<T>, ()>;

impl<T: Verify> DataBuffer<T> {
    /// Allocates a buffer of type `T` under the single unnamed slot, holding
    /// `T`'s default value. The buffer is locally constructed: it is not
    /// eligible for the channel's own deallocation path.
    pub fn new(host: &mut BufferHost) -> (r: DataBuffer<T>)
        requires
            old(host).wf(),
        ensures
            final(host).wf(),
            final(host)@ == spec_alloc::<T>(old(host)@, r.slot@),
            r.slot@ == Seq::<char>::empty(),
            r.value == T::spec_default(),
            r.owner == BufferOwner::LocallyOwned,
    {
        Self::with_slot(host, String::new())
    }

    /// Allocates a buffer of type `T` under a named slot: computes `T`'s
    /// fingerprint, registers the slot with it, and default-constructs the
    /// value behind it.
    pub fn with_slot(host: &mut BufferHost, slot: String) -> (r: DataBuffer<T>)
        requires
            old(host).wf(),
        ensures
            final(host).wf(),
            final(host)@ == spec_alloc::<T>(old(host)@, slot@),
            r.slot@ == slot@,
            r.value == T::spec_default(),
            r.owner == BufferOwner::LocallyOwned,
    {
        let value = T::default_value();
        let data = value.encode();
        host.register(&slot, T::__fingerprint(), data);
        DataBuffer { value, slot, owner: BufferOwner::LocallyOwned }
    }

    /// Allocates a buffer under the single unnamed slot and writes `value`
    /// through it.
    pub fn from_value(host: &mut BufferHost, value: T) -> (r: DataBuffer<T>)
        requires
            old(host).wf(),
        ensures
            final(host).wf(),
            final(host)@ == spec_set::<T>(spec_alloc::<T>(old(host)@, r.slot@), r.slot@, value),
            r.slot@ == Seq::<char>::empty(),
            r.value == value,
            r.owner == BufferOwner::LocallyOwned,
    {
        let mut t = DataBuffer::<T>::new(host);
        t.set_value(host, value);
        t
    }

    /// Writes `v` through the buffer: the local copy and the byte image in
    /// the shared region change together.
    pub fn set_value(&mut self, host: &mut BufferHost, v: T)
        requires
            old(host).wf(),
        ensures
            final(host).wf(),
            final(host)@ == spec_set::<T>(old(host)@, old(self).slot@, v),
            final(self).value == v,
            final(self).slot@ == old(self).slot@,
            final(self).owner == old(self).owner,
    {
        let data = v.encode();
        host.register(&self.slot, T::__fingerprint(), data);
        self.value = v;
    }

    /// Obtains the buffer registered under the single unnamed slot, checking
    /// the type fingerprint first.
    pub fn from_buffer(host: &BufferHost) -> (r: Result<Option<DataBuffer<T>>, BufferError>)
        requires
            host.wf(),
        ensures
            match r {
                Ok(None) => spec_access::<T>(host@, Seq::<char>::empty()) == Ok::<
                    Option<T>,
                    BufferError,
                >(None),
                Ok(Some(b)) => spec_access::<T>(host@, Seq::<char>::empty()) == Ok::<
                    Option<T>,
                    BufferError,
                >(Some(b.value)) && b.owner == BufferOwner::ChannelOwned && b.slot@ == Seq::<
                    char,
                >::empty(),
                Err(e) => spec_access::<T>(host@, Seq::<char>::empty()) == Err::<
                    Option<T>,
                    BufferError,
                >(e),
            },
    {
        Self::from_buffer_slot(host, String::new())
    }

    /// Obtains the buffer registered under a named slot. An unregistered
    /// slot is a normal state and yields nothing; a fingerprint mismatch is
    /// the fatal type-confusion condition and fails before any typed data is
    /// returned. On success the buffer is channel-owned: this side now owes
    /// the one terminating deallocation.
    pub fn from_buffer_slot(host: &BufferHost, slot: String) -> (r: Result<
        Option<DataBuffer<T>>,
        BufferError,
    >)
        requires
            host.wf(),
        ensures
            match r {
                Ok(None) => spec_access::<T>(host@, slot@) == Ok::<Option<T>, BufferError>(None),
                Ok(Some(b)) => spec_access::<T>(host@, slot@) == Ok::<Option<T>, BufferError>(
                    Some(b.value),
                ) && b.owner == BufferOwner::ChannelOwned && b.slot@ == slot@,
                Err(e) => spec_access::<T>(host@, slot@) == Err::<Option<T>, BufferError>(e),
            },
    {
        match host.lookup(&slot) {
            None => Ok(None),
            Some(entry) => {
                if entry.fingerprint != T::__fingerprint() {
                    Err(BufferError::FingerprintMismatch)
                } else {
                    match T::decode(&entry.data) {
                        Some(value) => Ok(
                            Some(DataBuffer { value, slot, owner: BufferOwner::ChannelOwned }),
                        ),
                        None => Err(BufferError::MalformedData),
                    }
                }
            },
        }
    }

    /// Ends the buffer's life on this side. A channel-owned buffer performs
    /// the terminating deallocation; a locally constructed one is left
    /// untouched, because the other side still expects to retrieve it.
    pub fn release(self, host: &mut BufferHost)
        requires
            old(host).wf(),
        ensures
            final(host).wf(),
            final(host)@ == spec_release(old(host)@, self.slot@, self.owner),
    {
        match self.owner {
            BufferOwner::ChannelOwned => {
                host.remove(&self.slot);
            },
            BufferOwner::LocallyOwned => {
                proof {
                    assert(host@ =~= spec_release(old(host)@, self.slot@, self.owner));
                }
            },
        }
    }
}

/// Buffer round trip: allocating a buffer under a slot, writing a value
/// through it, and accessing the slot as the same type in another execution
/// context yields exactly that value; and across the pair exactly one
/// deallocation occurs — the accessing side's release removes the slot, the
/// allocating side's release leaves the registry untouched.
pub proof fn lemma_buffer_round_trip<T: Verify>(
    m: Map<Seq<char>, (u64, Seq<u8>)>,
    slot: Seq<char>,
    v: T,
)
    ensures
        ({
            let after = spec_set::<T>(spec_alloc::<T>(m, slot), slot, v);
            &&& spec_access::<T>(after, slot) == Ok::<Option<T>, BufferError>(Some(v))
            &&& spec_release(after, slot, BufferOwner::ChannelOwned) == after.remove(slot)
            &&& !spec_release(after, slot, BufferOwner::ChannelOwned).contains_key(slot)
            &&& spec_release(after, slot, BufferOwner::LocallyOwned) == after
        }),
{
    T::lemma_codec_round_trip(v);
}

/// Fingerprint enforcement: accessing a slot as type `U` when the buffer
/// behind it was written as type `T` with a different fingerprint fails with
/// the fatal type-confusion error before returning any typed data.
pub proof fn lemma_fingerprint_enforcement<T: Verify, U: Verify>(
    m: Map<Seq<char>, (u64, Seq<u8>)>,
    slot: Seq<char>,
    v: T,
)
    requires
        T::spec_fingerprint() != U::spec_fingerprint(),
    ensures
        spec_access::<U>(spec_set::<T>(m, slot, v), slot) == Err::<Option<U>, BufferError>(
            BufferError::FingerprintMismatch,
        ),
{
}

} // verus!
