use vstd::prelude::*;
use crate::handle::{Handle, HandleKind};

verus! {

/// Why a host function refused a mod's request.
#[derive(Clone, Copy, Debug, PartialEq, Eq, Structural)]
pub enum ImportError {
    /// The pointer and length do not lie within the mod's memory.
    OutOfBounds,
    /// The id names no handle that was handed to this mod.
    UnknownHandle,
    /// The id names a handle of another kind.
    WrongKind,
    /// The object to unbox is null.
    NullObject,
    /// The mod passed a null buffer.
    NullPointer,
}

/// The byte range `[ptr, ptr + len)` of a mod's memory, if it lies within it.
pub open spec fn spec_guest_range(memory_len: int, ptr: int, len: int) -> Option<(usize, usize)> {
    if 0 <= ptr && 0 <= len && ptr + len <= memory_len {
        Some((ptr as usize, (ptr + len) as usize))
    } else {
        None
    }
}

/// Checks a pointer and length handed over by a mod against the size of its
/// memory, and gives the byte range they denote.
pub fn guest_range(memory_len: usize, ptr: i32, len: i32) -> (r: Result<(usize, usize), ImportError>)
    ensures
        r == match spec_guest_range(memory_len as int, ptr as int, len as int) {
            Some(range) => Ok(range),
            None => Err(ImportError::OutOfBounds),
        },
{
    if ptr < 0 || len < 0 {
        return Err(ImportError::OutOfBounds);
    }
    let start = ptr as usize;
    let n = len as usize;
    if start > memory_len || n > memory_len - start {
        return Err(ImportError::OutOfBounds);
    }
    Ok((start, start + n))
}

/// Copies `bytes` into a mod's memory at `ptr` and answers how many bytes
/// were written. Nothing is written unless all of them fit.
pub fn write_bytes(memory: &mut [u8], ptr: i32, bytes: &[u8]) -> (r: Result<i32, ImportError>)
    ensures
        match r {
            Ok(n) => {
                &&& n as int == bytes@.len()
                &&& spec_guest_range(old(memory)@.len() as int, ptr as int, bytes@.len() as int) is Some
                &&& final(memory)@ == old(memory)@.subrange(0, ptr as int) + bytes@ + old(memory)@.subrange(
                    ptr + bytes@.len(),
                    old(memory)@.len() as int,
                )
            },
            Err(e) => {
                &&& e == ImportError::OutOfBounds
                &&& (bytes@.len() > i32::MAX || spec_guest_range(
                    old(memory)@.len() as int,
                    ptr as int,
                    bytes@.len() as int,
                ) is None)
                &&& final(memory)@ == old(memory)@
            },
        },
{
    if bytes.len() > i32::MAX as usize {
        return Err(ImportError::OutOfBounds);
    }
    let len = bytes.len() as i32;
    let (start, end) = match guest_range(memory.len(), ptr, len) {
        Ok(range) => range,
        Err(e) => return Err(e),
    };
    let ghost before = memory@;
    let mut k: usize = 0;
    while k < bytes.len()
        invariant
            start as int == ptr as int,
            end as int == start + bytes@.len(),
            end <= memory@.len(),
            memory@.len() == before.len(),
            k <= bytes@.len(),
            forall|j: int| 0 <= j < start ==> memory@[j] == before[j],
            forall|j: int| end <= j < memory@.len() ==> memory@[j] == before[j],
            forall|j: int| 0 <= j < k ==> memory@[start + j] == bytes@[j],
            forall|j: int| start + k <= j < end ==> memory@[j] == before[j],
        decreases bytes@.len() - k,
    {
        memory[start + k] = bytes[k];
        k = k + 1;
    }
    assert(memory@ =~= before.subrange(0, ptr as int) + bytes@ + before.subrange(
        ptr + bytes@.len(),
        before.len() as int,
    ));
    Ok(len)
}

/// The four little-endian bytes of a 32-bit word, as a mod's memory holds it.
pub open spec fn le_bytes(w: u32) -> Seq<u8> {
    seq![(w & 0xff) as u8, ((w >> 8) & 0xff) as u8, ((w >> 16) & 0xff) as u8, ((w >> 24) & 0xff) as u8]
}

/// The little-endian bytes of a sequence of words, one after the other.
pub open spec fn words_le(words: Seq<i32>) -> Seq<u8>
    decreases words.len(),
{
    if words.len() == 0 {
        seq![]
    } else {
        words_le(words.drop_last()) + le_bytes(words.last() as u32)
    }
}

/// The bytes that a mod reads for an array of 32-bit words.
pub fn encode_words(words: &Vec<i32>) -> (r: Vec<u8>)
    ensures
        r@ == words_le(words@),
{
    let mut out: Vec<u8> = Vec::new();
    let mut i: usize = 0;
    while i < words.len()
        invariant
            i <= words@.len(),
            out@ == words_le(words@.subrange(0, i as int)),
        decreases words@.len() - i,
    {
        let w = words[i] as u32;
        let ghost prev = out@;
        out.push((w & 0xff) as u8);
        out.push(((w >> 8) & 0xff) as u8);
        out.push(((w >> 16) & 0xff) as u8);
        out.push(((w >> 24) & 0xff) as u8);
        proof {
            let next = words@.subrange(0, i as int + 1);
            assert(next.drop_last() =~= words@.subrange(0, i as int));
            assert(out@ =~= prev + le_bytes(w));
        }
        i = i + 1;
    }
    assert(words@.subrange(0, words@.len() as int) =~= words@);
    out
}

/// Each word takes four bytes.
pub proof fn lemma_words_le_len(words: Seq<i32>)
    ensures
        words_le(words).len() == 4 * words.len(),
    decreases words.len(),
{
    if words.len() > 0 {
        lemma_words_le_len(words.drop_last());
    }
}

/// How many of `count` ids fit in a buffer of `len` words.
pub open spec fn ids_that_fit(count: int, len: int) -> int {
    if len < count { len } else { count }
}

/// The ids that a buffer of `len` words receives: the first ones, as many as fit.
pub fn ids_for_buffer(ids: &Vec<i32>, len: i32) -> (r: Vec<i32>)
    requires
        len >= 0,
    ensures
        r@ == ids@.subrange(0, ids_that_fit(ids@.len() as int, len as int)),
{
    let n: usize = if (len as usize) < ids.len() { len as usize } else { ids.len() };
    let mut out: Vec<i32> = Vec::new();
    let mut i: usize = 0;
    while i < n
        invariant
            n <= ids@.len(),
            n as int == ids_that_fit(ids@.len() as int, len as int),
            i <= n,
            out@ == ids@.subrange(0, i as int),
        decreases n - i,
    {
        out.push(ids[i]);
        i = i + 1;
        assert(out@ =~= ids@.subrange(0, i as int));
    }
    out
}

/// Writes assembly ids into a mod's buffer of `len` 32-bit words at `ptr`:
/// the first ids, as many as fit, little-endian; answers how many were
/// written. A null buffer, a negative length or a buffer outside the mod's
/// memory is refused, and then nothing is written.
pub fn write_assembly_ids(memory: &mut [u8], ptr: i32, len: i32, ids: &Vec<i32>) -> (r: Result<i32, ImportError>)
    ensures
        ptr == 0 ==> r == Err::<i32, ImportError>(ImportError::NullPointer) && final(memory)@ == old(memory)@,
        ptr != 0 && len < 0 ==> r == Err::<i32, ImportError>(ImportError::OutOfBounds) && final(memory)@ == old(
            memory,
        )@,
        ptr != 0 && len >= 0 ==> {
            let n = ids_that_fit(ids@.len() as int, len as int);
            let bytes = words_le(ids@.subrange(0, n));
            if 4 * n <= i32::MAX && spec_guest_range(old(memory)@.len() as int, ptr as int, 4 * n) is Some {
                &&& r == Ok::<i32, ImportError>(n as i32)
                &&& final(memory)@ == old(memory)@.subrange(0, ptr as int) + bytes + old(memory)@.subrange(
                    ptr + 4 * n,
                    old(memory)@.len() as int,
                )
            } else {
                &&& r == Err::<i32, ImportError>(ImportError::OutOfBounds)
                &&& final(memory)@ == old(memory)@
            }
        },
{
    if ptr == 0 {
        return Err(ImportError::NullPointer);
    }
    if len < 0 {
        return Err(ImportError::OutOfBounds);
    }
    let shown = ids_for_buffer(ids, len);
    let bytes = encode_words(&shown);
    proof {
        lemma_words_le_len(shown@);
    }
    match write_bytes(memory, ptr, bytes.as_slice()) {
        Ok(_) => Ok(shown.len() as i32),
        Err(e) => Err(e),
    }
}

/// Handles handed to one mod. A mod sees a handle only as a small id,
/// never as a native address: id `k` names the `k`-th handle registered,
/// and id 0 names none.
pub struct HandleArena {
    handles: Vec<Handle>,
}

impl HandleArena {
    pub closed spec fn spec_handles(self) -> Seq<Handle> {
        self.handles@
    }

    /// Every handle held is non-null, and ids stay within `i32`.
    pub open spec fn wf(self) -> bool {
        &&& self.spec_handles().len() <= i32::MAX
        &&& forall|j: int| 0 <= j < self.spec_handles().len() ==> #[trigger] self.spec_handles()[j].addr != 0
    }

    /// The handle that an id names, if any.
    pub open spec fn spec_lookup(self, id: i32) -> Option<Handle> {
        if 1 <= id <= self.spec_handles().len() {
            Some(self.spec_handles()[id - 1])
        } else {
            None
        }
    }

    pub fn new() -> (a: HandleArena)
        ensures
            a.wf(),
            a.spec_handles().len() == 0,
    {
        HandleArena { handles: Vec::new() }
    }

    /// Hands a handle to the mod and gives its id; a null handle, or one
    /// that no id is left for, gets id 0.
    pub fn register(&mut self, h: Handle) -> (id: i32)
        requires
            old(self).wf(),
        ensures
            final(self).wf(),
            if h.addr != 0 && old(self).spec_handles().len() < i32::MAX {
                &&& final(self).spec_handles() == old(self).spec_handles().push(h)
                &&& id as int == final(self).spec_handles().len()
            } else {
                &&& final(self).spec_handles() == old(self).spec_handles()
                &&& id == 0
            },
    {
        if h.addr == 0 || self.handles.len() >= i32::MAX as usize {
            return 0;
        }
        self.handles.push(h);
        self.handles.len() as i32
    }

    /// The handle of the given kind that an id names.
    pub fn lookup(&self, id: i32, kind: HandleKind) -> (r: Result<Handle, ImportError>)
        requires
            self.wf(),
        ensures
            r == match self.spec_lookup(id) {
                None => Err(ImportError::UnknownHandle),
                Some(h) => if h.kind == kind {
                    Ok(h)
                } else {
                    Err(ImportError::WrongKind)
                },
            },
            r matches Ok(h) ==> h.addr != 0,
    {
        if id < 1 || id as usize > self.handles.len() {
            return Err(ImportError::UnknownHandle);
        }
        let h = self.handles[(id - 1) as usize];
        if h.kind == kind {
            Ok(h)
        } else {
            Err(ImportError::WrongKind)
        }
    }

    /// The receiver of an instance call: id 0 means a static call.
    pub fn receiver(&self, id: i32) -> (r: Result<Option<Handle>, ImportError>)
        requires
            self.wf(),
        ensures
            id == 0 ==> r == Ok::<Option<Handle>, ImportError>(None),
            id != 0 ==> r == match self.spec_lookup(id) {
                None => Err(ImportError::UnknownHandle),
                Some(h) => if h.kind == HandleKind::Object {
                    Ok(Some(h))
                } else {
                    Err(ImportError::WrongKind)
                },
            },
    {
        if id == 0 {
            return Ok(None);
        }
        match self.lookup(id, HandleKind::Object) {
            Ok(h) => Ok(Some(h)),
            Err(e) => Err(e),
        }
    }

    /// Hands every handle of a list to the mod and gives their ids in order.
    pub fn register_all(&mut self, hs: &Vec<Handle>) -> (ids: Vec<i32>)
        requires
            old(self).wf(),
        ensures
            final(self).wf(),
            ids@.len() == hs@.len(),
            final(self).spec_handles().len() >= old(self).spec_handles().len(),
            forall|j: int| 0 <= j < ids@.len() && ids@[j] != 0 ==> final(self).spec_lookup(#[trigger] ids@[j]) == Some(
                hs@[j],
            ),
            forall|j: int|
                0 <= j < ids@.len() && ids@[j] == 0 ==> (hs@[j].addr == 0 || final(self).spec_handles().len()
                    == i32::MAX),
    {
        let mut ids: Vec<i32> = Vec::new();
        let mut i: usize = 0;
        while i < hs.len()
            invariant
                self.wf(),
                i <= hs@.len(),
                ids@.len() == i,
                self.spec_handles().len() >= old(self).spec_handles().len(),
                forall|j: int| 0 <= j < i && ids@[j] != 0 ==> self.spec_lookup(#[trigger] ids@[j]) == Some(hs@[j]),
                forall|j: int| 0 <= j < i && ids@[j] == 0 ==> (hs@[j].addr == 0 || self.spec_handles().len()
                    == i32::MAX),
            decreases hs@.len() - i,
        {
            let ghost before = self.spec_handles();
            let id = self.register(hs[i]);
            proof {
                assert forall|j: int| 0 <= j < i && ids@[j] != 0 implies self.spec_lookup(#[trigger] ids@[j]) == Some(
                    hs@[j],
                ) by {
                    let k = ids@[j] - 1;
                    assert(self.spec_handles()[k] == before[k]);
                }
            }
            ids.push(id);
            i = i + 1;
        }
        ids
    }
}

/// The count that a mod sees of a list: its length, or `i32::MAX` when
/// longer.
pub fn get_assembly_count(assemblies: &Vec<Handle>) -> (r: i32)
    ensures
        r as int == (if assemblies@.len() <= i32::MAX { assemblies@.len() as int } else { i32::MAX as int }),
{
    if assemblies.len() <= i32::MAX as usize {
        assemblies.len() as i32
    } else {
        i32::MAX
    }
}

/// The address of the object to unbox: it must be non-null.
pub fn unbox_target(object: Handle) -> (r: Result<usize, ImportError>)
    ensures
        r == (if object.addr == 0 { Err(ImportError::NullObject) } else { Ok::<usize, ImportError>(object.addr) }),
{
    if object.addr == 0 {
        Err(ImportError::NullObject)
    } else {
        Ok(object.addr)
    }
}

} // verus!
