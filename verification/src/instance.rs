//! Per-entity instance data and its packed GPU form.
//!
//! One instance record is a 12-byte little-endian structure of three 32-bit
//! words — the bit patterns of the three IEEE-754 single coordinates — with no
//! padding. The buffer-preparation stage packs a whole collection into the
//! exact bytes the device buffer is created with.

use vstd::prelude::*;

verus! {

/// One position, each coordinate the raw bit pattern of an IEEE-754 single.
/// The instancing logic treats each coordinate as an opaque 32-bit word; the
/// host converts its floating-point vectors at the boundary.
#[derive(Clone, Copy, PartialEq, Eq, Structural, Debug)]
pub struct Position {
    pub x: u32,
    pub y: u32,
    pub z: u32,
}

/// One drawable copy of the shared mesh: its per-instance position.
#[derive(Clone, Copy, PartialEq, Eq, Structural, Debug)]
pub struct Instance {
    pub position: Position,
}

/// The ordered instance collection attached to one drawable entity. Array
/// order has no draw-order significance but fixes GPU-side addressing.
pub struct Instances(pub Vec<Instance>);

/// The little-endian bytes of one 32-bit word.
pub open spec fn word_bytes(w: u32) -> Seq<u8> {
    seq![
        (w & 0xff) as u8,
        ((w >> 8) & 0xff) as u8,
        ((w >> 16) & 0xff) as u8,
        ((w >> 24) & 0xff) as u8,
    ]
}

/// The 12 packed bytes of one instance record: x, then y, then z.
pub open spec fn instance_bytes(inst: Instance) -> Seq<u8> {
    word_bytes(inst.position.x) + word_bytes(inst.position.y) + word_bytes(inst.position.z)
}

/// The packed bytes of a whole collection, record after record.
pub open spec fn instances_bytes(s: Seq<Instance>) -> Seq<u8>
    decreases s.len(),
{
    if s.len() == 0 {
        Seq::empty()
    } else {
        instances_bytes(s.drop_last()) + instance_bytes(s.last())
    }
}

/// Law: a collection of N records packs to exactly 12 * N bytes.
pub proof fn lemma_instances_bytes_len(s: Seq<Instance>)
    ensures
        instances_bytes(s).len() == 12 * s.len(),
    decreases s.len(),
{
    if s.len() > 0 {
        lemma_instances_bytes_len(s.drop_last());
    }
}

impl Instances {
    /// Extraction: the snapshot of this collection that is copied into the
    /// render-side mirror entity each frame — an unchanged copy of every
    /// record, always present.
    pub fn extract_component(&self) -> (extracted: Option<Instances>)
        ensures
            extracted matches Some(c) && c.0@ == self.0@,
    {
        let mut copied: Vec<Instance> = Vec::new();
        let mut i: usize = 0;
        while i < self.0.len()
            invariant
                i <= self.0.len(),
                copied@ == self.0@.take(i as int),
            decreases self.0.len() - i,
        {
            copied.push(self.0[i]);
            proof {
                assert(copied@ =~= self.0@.take(i + 1 as int));
            }
            i = i + 1;
        }
        proof {
            assert(copied@ =~= self.0@);
        }
        Some(Instances(copied))
    }
}

/// The render-side instance buffer derived from one collection: the packed
/// contents the device buffer is created with, and the element count the
/// instanced draw call uses.
pub struct InstanceBuffer {
    pub contents: Vec<u8>,
    pub length: usize,
}

impl InstanceBuffer {
    /// The buffer invariant: byte size is exactly count times 12.
    pub open spec fn wf(self) -> bool {
        self.contents@.len() == 12 * self.length
    }
}

/// Appends the little-endian bytes of one 32-bit word.
fn push_word_bytes(bytes: &mut Vec<u8>, w: u32)
    ensures
        final(bytes)@ == old(bytes)@ + word_bytes(w),
{
    proof {
        assert((w & 0xff) < 256 && ((w >> 8) & 0xff) < 256 && ((w >> 16) & 0xff) < 256
            && ((w >> 24) & 0xff) < 256) by (bit_vector);
    }
    bytes.push((w & 0xff) as u8);
    bytes.push(((w >> 8) & 0xff) as u8);
    bytes.push(((w >> 16) & 0xff) as u8);
    bytes.push(((w >> 24) & 0xff) as u8);
    proof {
        assert(bytes@ =~= old(bytes)@ + word_bytes(w));
    }
}

/// Buffer preparation: packs a collection into the instance buffer built for
/// it this frame. The result holds the record sequence byte for byte, element
/// count equal to the collection's length, and byte size 12 times that.
pub fn prepare_instance_buffer(instances: &Instances) -> (buffer: InstanceBuffer)
    ensures
        buffer.length == instances.0@.len(),
        buffer.contents@ == instances_bytes(instances.0@),
        buffer.wf(),
{
    let mut contents: Vec<u8> = Vec::new();
    let mut i: usize = 0;
    while i < instances.0.len()
        invariant
            i <= instances.0@.len(),
            contents@ == instances_bytes(instances.0@.take(i as int)),
        decreases instances.0@.len() - i,
    {
        let inst = instances.0[i];
        push_word_bytes(&mut contents, inst.position.x);
        push_word_bytes(&mut contents, inst.position.y);
        push_word_bytes(&mut contents, inst.position.z);
        proof {
            let taken = instances.0@.take(i as int);
            let taken_next = instances.0@.take(i + 1 as int);
            assert(taken_next.drop_last() =~= taken);
            assert(taken_next.last() == instances.0@[i as int]);
            assert(contents@ =~= instances_bytes(taken) + instance_bytes(instances.0@[i as int]));
            assert(instances_bytes(taken_next) == instances_bytes(taken_next.drop_last())
                + instance_bytes(taken_next.last()));
        }
        i = i + 1;
    }
    proof {
        assert(instances.0@.take(instances.0@.len() as int) =~= instances.0@);
        lemma_instances_bytes_len(instances.0@);
    }
    InstanceBuffer { contents, length: instances.0.len() }
}

} // verus!
