//! The staging upload path, modeled over bytes.
//!
//! A device-local buffer cannot be written by the CPU: its content arrives
//! through a host-visible staging buffer and a one-shot command-buffer copy,
//! submitted on the shared queue and waited out.  This module carries the
//! byte-level model of that path — what the staging buffer holds, which copy
//! regions the one submission records, and what the destination holds
//! afterwards — while the shell mirrors each step on the raw GPU objects.

use vstd::pervasive::VecAdditionalExecFns;
use vstd::prelude::*;

verus! {

/// Usage flag of a buffer a transfer may read from.
pub const BUFFER_USAGE_TRANSFER_SRC: u32 = 1;
/// Usage flag of a buffer a transfer may write to.
pub const BUFFER_USAGE_TRANSFER_DST: u32 = 2;
/// Usage flag of an index buffer.
pub const BUFFER_USAGE_INDEX_BUFFER: u32 = 64;
/// Usage flag of a vertex buffer.
pub const BUFFER_USAGE_VERTEX_BUFFER: u32 = 128;

/// One region of a buffer-to-buffer copy command.
#[derive(Clone, Copy, PartialEq, Eq, Structural, Debug)]
pub struct CopyRegion {
    pub src_offset: u64,
    pub dst_offset: u64,
    pub size: u64,
}

/// One command-buffer submission and the copy regions it carries.  The
/// whole batch costs a single submission however many regions it holds.
#[derive(PartialEq, Eq, Debug)]
pub struct CopyBatch {
    pub submissions: u32,
    pub regions: Vec<CopyRegion>,
}

/// The verified model of a GPU-resident buffer: the bytes it holds and the
/// usage flags it was created with.  The shell pairs each value of this
/// type with the raw buffer and memory handles that it owns and must free.
#[derive(PartialEq, Eq, Debug)]
pub struct DeviceBuffer {
    pub bytes: Vec<u8>,
    pub usage: u32,
}

/// The region reads within `src` and writes within `dst`.
pub open spec fn region_in_bounds(src_len: nat, dst_len: nat, r: CopyRegion) -> bool {
    &&& r.src_offset + r.size <= src_len
    &&& r.dst_offset + r.size <= dst_len
}

/// The destination bytes after one region copy: the region's window is
/// taken from the source, everything else keeps its old value.
pub open spec fn apply_region(src: Seq<u8>, dst: Seq<u8>, r: CopyRegion) -> Seq<u8> {
    Seq::new(
        dst.len(),
        |i: int|
            if r.dst_offset <= i < r.dst_offset + r.size {
                src[i - r.dst_offset + r.src_offset]
            } else {
                dst[i]
            },
    )
}

/// The copy batch that moves `sizes[i]` bytes from source `i` to
/// destination `i`: a single submission, one region per pair, each copying
/// from offset zero to offset zero.
pub fn plan_batched_copy(sizes: &Vec<u64>) -> (b: CopyBatch)
    ensures
        b.submissions == 1,
        b.regions@.len() == sizes@.len(),
        forall|i: int|
            0 <= i < sizes@.len() ==> b.regions@[i] == (CopyRegion {
                src_offset: 0,
                dst_offset: 0,
                size: sizes@[i],
            }),
{
    let mut regions: Vec<CopyRegion> = Vec::new();
    let mut i: usize = 0;
    while i < sizes.len()
        invariant
            i <= sizes@.len(),
            regions@.len() == i,
            forall|j: int|
                0 <= j < i ==> regions@[j] == (CopyRegion {
                    src_offset: 0,
                    dst_offset: 0,
                    size: sizes@[j],
                }),
        decreases sizes@.len() - i,
    {
        regions.push(CopyRegion { src_offset: 0, dst_offset: 0, size: sizes[i] });
        i = i + 1;
    }
    CopyBatch { submissions: 1, regions }
}

/// One region copy on the byte model, as the GPU executes it on the real
/// buffers.
pub fn copy_region_bytes(src: &Vec<u8>, dst: &mut Vec<u8>, region: &CopyRegion)
    requires
        region_in_bounds(src@.len(), old(dst)@.len(), *region),
    ensures
        final(dst)@ == apply_region(src@, old(dst)@, *region),
{
    let src_len: usize = src.len();
    let dst_len: usize = dst.len();
    proof {
        assert(region.src_offset <= src_len && region.dst_offset <= dst_len && region.size
            <= dst_len);
    }
    let src_offset = region.src_offset as usize;
    let dst_offset = region.dst_offset as usize;
    let size = region.size as usize;
    let mut i: usize = 0;
    while i < size
        invariant
            i <= size,
            src_offset == region.src_offset,
            dst_offset == region.dst_offset,
            size == region.size,
            region_in_bounds(src@.len(), dst@.len(), *region),
            src@.len() == src_len,
            dst@.len() == dst_len,
            dst@.len() == old(dst)@.len(),
            forall|j: int|
                dst_offset <= j < dst_offset + i ==> #[trigger] dst@[j] == src@[j - dst_offset
                    + src_offset],
            forall|j: int|
                0 <= j < dst@.len() && !(dst_offset <= j < dst_offset + i) ==> #[trigger] dst@[j]
                    == old(dst)@[j],
        decreases size - i,
    {
        let b = src[src_offset + i];
        dst.set(dst_offset + i, b);
        i = i + 1;
    }
    proof {
        assert(dst@ =~= apply_region(src@, old(dst)@, *region));
    }
}

/// What [`upload_device_local`] owes: the destination holds exactly the
/// caller's bytes and carries the caller's usage flags plus
/// transfer-destination.
pub open spec fn upload_post(data: Seq<u8>, usage: u32, buf: DeviceBuffer) -> bool {
    &&& buf.bytes@ == data
    &&& buf.usage == usage | BUFFER_USAGE_TRANSFER_DST
}

/// What [`download`] owes: the bytes read back are the bytes the buffer
/// holds.
pub open spec fn download_post(buf: DeviceBuffer, out: Seq<u8>) -> bool {
    out == buf.bytes@
}

/// Upload bytes into a device-local buffer: stage the caller's bytes in a
/// host-visible buffer, create a destination of the same size with the
/// caller's usage flags plus transfer-destination, and move the bytes with
/// a batched copy of one region — one submission, waited out by the shell.
/// Returns the destination's model and the copy batch the shell must record.
pub fn upload_device_local(data: &Vec<u8>, usage: u32) -> (r: (DeviceBuffer, CopyBatch))
    ensures
        upload_post(data@, usage, r.0),
        r.0.bytes@.len() == data@.len(),
        r.1.submissions == 1,
        r.1.regions@.len() == 1,
        r.1.regions@[0] == (CopyRegion { src_offset: 0, dst_offset: 0, size: data@.len() as u64 }),
{
    let mut staging: Vec<u8> = Vec::new();
    let mut i: usize = 0;
    while i < data.len()
        invariant
            i <= data@.len(),
            staging@ == data@.take(i as int),
        decreases data@.len() - i,
    {
        staging.push(data[i]);
        proof {
            assert(staging@ =~= data@.take(i + 1));
        }
        i = i + 1;
    }
    proof {
        assert(staging@ =~= data@);
    }
    let mut destination: Vec<u8> = Vec::new();
    let mut j: usize = 0;
    while j < data.len()
        invariant
            j <= data@.len(),
            destination@.len() == j,
        decreases data@.len() - j,
    {
        destination.push(0);
        j = j + 1;
    }
    let mut sizes: Vec<u64> = Vec::new();
    sizes.push(data.len() as u64);
    let batch = plan_batched_copy(&sizes);
    let region = CopyRegion { src_offset: 0, dst_offset: 0, size: data.len() as u64 };
    copy_region_bytes(&staging, &mut destination, &region);
    proof {
        assert(destination@ =~= data@);
    }
    (DeviceBuffer { bytes: destination, usage: usage | BUFFER_USAGE_TRANSFER_DST }, batch)
}

/// Read a buffer's bytes back: the symmetric path to
/// [`upload_device_local`], copying the whole buffer into a host-visible
/// readback buffer through one region.
pub fn download(buf: &DeviceBuffer) -> (out: Vec<u8>)
    ensures
        download_post(*buf, out@),
{
    let mut readback: Vec<u8> = Vec::new();
    let mut i: usize = 0;
    while i < buf.bytes.len()
        invariant
            i <= buf.bytes@.len(),
            readback@.len() == i,
        decreases buf.bytes@.len() - i,
    {
        readback.push(0);
        i = i + 1;
    }
    let region = CopyRegion { src_offset: 0, dst_offset: 0, size: buf.bytes.len() as u64 };
    copy_region_bytes(&buf.bytes, &mut readback, &region);
    proof {
        assert(readback@ =~= buf.bytes@);
    }
    readback
}

/// The round-trip law: a buffer of size `S` uploaded device-locally has
/// exactly size `S`, and its content read back through the symmetric
/// download path is the input bytes.
pub proof fn lemma_upload_round_trip(data: Seq<u8>, usage: u32, buf: DeviceBuffer, out: Seq<u8>)
    requires
        upload_post(data, usage, buf),
        download_post(buf, out),
    ensures
        out == data,
        buf.bytes@.len() == data.len(),
{
}

} // verus!
