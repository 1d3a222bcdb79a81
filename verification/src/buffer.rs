//! The typed GPU buffer model.
//!
//! A buffer owns a region of device memory holding up to `capacity` elements
//! of one plain element type. Its contents are modeled as the defined
//! prefix: the elements that some write has given a value. A host-visible,
//! host-coherent buffer is written directly from the host; a device-local
//! buffer can only be populated by a staged upload — a direct write into a
//! transfer-source staging buffer followed by a device-side copy into the
//! transfer-destination buffer, sequenced through the fence-guarded
//! submission protocol. The shell pairs each model value with the device
//! handles it stands for and performs the actual memory traffic.

use vstd::prelude::*;

use crate::sync::CommandContext;

verus! {

/// What a buffer may be used for.
#[derive(Clone, Copy, PartialEq, Eq, Structural, Debug)]
pub struct BufferUsage {
    pub transfer_src: bool,
    pub transfer_dst: bool,
    pub vertex: bool,
    pub index: bool,
    pub uniform: bool,
}

/// The properties of the memory the buffer is bound to.
#[derive(Clone, Copy, PartialEq, Eq, Structural, Debug)]
pub struct MemoryProperties {
    pub host_visible: bool,
    pub host_coherent: bool,
    pub device_local: bool,
}

/// A typed region of device memory: at most `capacity` elements, of which
/// the first `contents.len()` have been given a value.
pub struct Buffer<T> {
    pub usage: BufferUsage,
    pub properties: MemoryProperties,
    /// Whether the memory stays mapped into the host's address space for
    /// the buffer's whole lifetime instead of being mapped per write.
    pub persistently_mapped: bool,
    pub capacity: usize,
    pub contents: Vec<T>,
}

/// The defined contents after a direct write: the written data overwrites
/// the front, and whatever previously defined elements lie beyond it keep
/// their values.
pub open spec fn spec_write_direct<T>(old_contents: Seq<T>, data: Seq<T>) -> Seq<T> {
    if data.len() >= old_contents.len() {
        data
    } else {
        data + old_contents.skip(data.len() as int)
    }
}

impl<T: Copy> Buffer<T> {
    /// No more elements are defined than fit, and a persistent mapping
    /// exists only on memory the host can see coherently.
    pub open spec fn wf(self) -> bool {
        &&& self.contents@.len() <= self.capacity
        &&& self.persistently_mapped ==> self.properties.host_visible
            && self.properties.host_coherent
    }

    /// Whether the host may write this buffer directly.
    pub open spec fn host_writable(self) -> bool {
        self.properties.host_visible && self.properties.host_coherent
    }

    /// Creates a buffer of the given element capacity. The memory starts
    /// with no defined element. A persistent mapping may only be asked of
    /// host-visible, host-coherent memory; the shell treats finding no
    /// memory type with the requested properties as fatal before any model
    /// value exists.
    pub fn new(
        capacity: usize,
        usage: BufferUsage,
        properties: MemoryProperties,
        persistently_mapped: bool,
    ) -> (r: Self)
        requires
            persistently_mapped ==> properties.host_visible && properties.host_coherent,
        ensures
            r.wf(),
            r.usage == usage,
            r.properties == properties,
            r.persistently_mapped == persistently_mapped,
            r.capacity == capacity,
            r.contents@.len() == 0,
    {
        Buffer { usage, properties, persistently_mapped, capacity, contents: Vec::new() }
    }

    /// Writes `data` over the front of the buffer from the host. Valid only
    /// for host-visible, host-coherent memory and for data that fits; under
    /// a persistent mapping the copy goes through it, else the memory is
    /// mapped for this one write — either way the defined contents change
    /// the same way.
    pub fn write_data_direct(&mut self, data: &Vec<T>)
        requires
            old(self).wf(),
            old(self).host_writable(),
            data@.len() <= old(self).capacity,
        ensures
            final(self).wf(),
            final(self).contents@ == spec_write_direct(old(self).contents@, data@),
            final(self).usage == old(self).usage,
            final(self).properties == old(self).properties,
            final(self).persistently_mapped == old(self).persistently_mapped,
            final(self).capacity == old(self).capacity,
    {
        let mut written: Vec<T> = Vec::new();
        let n = data.len();
        let mut i: usize = 0;
        while i < n
            invariant
                n == data@.len(),
                i <= n,
                written@ == data@.take(i as int),
            decreases n - i,
        {
            written.push(data[i]);
            i = i + 1;
        }
        assert(written@ == data@);
        let old_len = self.contents.len();
        if n < old_len {
            proof {
                assert(written@ == data@ + self.contents@.subrange(n as int, n as int));
            }
            let mut j: usize = n;
            while j < old_len
                invariant
                    n <= j <= old_len,
                    old_len == self.contents@.len(),
                    self.contents@ == old(self).contents@,
                    n == data@.len(),
                    written@ == data@ + self.contents@.subrange(n as int, j as int),
                decreases old_len - j,
            {
                let tail_element = self.contents[j];
                written.push(tail_element);
                proof {
                    assert(written@ =~= data@ + self.contents@.subrange(n as int, j + 1 as int));
                }
                j = j + 1;
            }
            proof {
                assert(self.contents@.subrange(n as int, old_len as int)
                    == self.contents@.skip(n as int));
            }
        }
        self.contents = written;
    }

    /// Reads the defined contents back from host-visible memory.
    pub fn read_back(&self) -> (r: Vec<T>)
        requires
            self.wf(),
            self.properties.host_visible,
        ensures
            r@ == self.contents@,
    {
        let n = self.contents.len();
        let mut out: Vec<T> = Vec::new();
        let mut i: usize = 0;
        while i < n
            invariant
                n == self.contents@.len(),
                i <= n,
                out@ == self.contents@.take(i as int),
            decreases n - i,
        {
            out.push(self.contents[i]);
            i = i + 1;
        }
        assert(out@ == self.contents@);
        out
    }

    /// Populates this buffer by a device-side copy out of `staging`,
    /// recorded and submitted through one fence-guarded cycle on `sync`.
    /// Valid only from a transfer-source buffer into a transfer-destination
    /// buffer it fits into. The copy moves the staging buffer's whole
    /// region, so elements this buffer had defined beyond it count as
    /// undefined afterwards; its defined contents become exactly the
    /// staging buffer's. The submission is in flight when the call returns,
    /// and `sync`'s fence tells when the contents are really on the device.
    pub fn write_from_staging(&mut self, staging: &Buffer<T>, sync: &mut CommandContext)
        requires
            old(self).wf(),
            staging.wf(),
            old(sync).wf(),
            old(self).usage.transfer_dst,
            staging.usage.transfer_src,
            staging.capacity <= old(self).capacity,
        ensures
            final(self).wf(),
            final(sync).wf(),
            final(self).contents@ == staging.contents@,
            final(self).usage == old(self).usage,
            final(self).properties == old(self).properties,
            final(self).persistently_mapped == old(self).persistently_mapped,
            final(self).capacity == old(self).capacity,
            final(sync).phase == crate::sync::SubmissionPhase::InFlight,
            final(sync).fence == crate::sync::FenceStatus::Unsignaled,
    {
        let n = staging.contents.len();
        let mut copied: Vec<T> = Vec::new();
        let mut i: usize = 0;
        while i < n
            invariant
                n == staging.contents@.len(),
                i <= n,
                copied@ == staging.contents@.take(i as int),
            decreases n - i,
        {
            copied.push(staging.contents[i]);
            i = i + 1;
        }
        assert(copied@ == staging.contents@);
        self.contents = copied;
        sync.run_submission_cycle();
    }
}

/// The round-trip law of the direct write: after writing any run of
/// elements that fits, those elements are exactly the front of the defined
/// contents — a readback returns them unchanged.
pub proof fn lemma_write_read_round_trip<T>(old_contents: Seq<T>, data: Seq<T>)
    ensures
        spec_write_direct(old_contents, data).len() >= data.len(),
        spec_write_direct(old_contents, data).take(data.len() as int) == data,
{
    let written = spec_write_direct(old_contents, data);
    assert(written.take(data.len() as int) =~= data);
}

} // verus!
