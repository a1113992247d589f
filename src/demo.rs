use vstd::prelude::*;

verus! {

/// A host-side value handed to native code by owning pointer.
pub struct ThingR(pub usize);

/// A discontiguous file object, read chunk by chunk.
pub struct MultiBuf {
    pub chunks: Vec<Vec<u8>>,
    pub pos: usize,
}

/// The chunk at the read position (empty past the last one); the position
/// moves on by one, saturating at the largest index.
pub fn next_chunk(buf: &mut MultiBuf) -> (r: Vec<u8>)
    ensures
        final(buf).chunks@ == old(buf).chunks@,
        old(buf).pos < old(buf).chunks@.len() ==> r@ == old(buf).chunks@[old(buf).pos as int]@,
        old(buf).pos >= old(buf).chunks@.len() ==> r@ == Seq::<u8>::empty(),
        final(buf).pos == if old(buf).pos == usize::MAX {
            usize::MAX
        } else {
            (old(buf).pos + 1) as usize
        },
{
    let next = if buf.pos < buf.chunks.len() {
        buf.chunks[buf.pos].clone()
    } else {
        Vec::new()
    };
    buf.pos = buf.pos.saturating_add(1);
    next
}

} // verus!
