//! Bounded in-place replacement of one read buffer's content.
//!
//! The host hands the read operation a buffer and its declared capacity; the
//! replacement line, terminator included, is copied over the front of that
//! buffer only when it fits the capacity whole.  Nothing is ever truncated:
//! when the line does not fit, the buffer is left exactly as it was and the
//! caller reports both lengths.  Source and destination never alias — the
//! replacement is a separate slice.

use vstd::prelude::*;

verus! {

/// Copy `new_line` over the front of `buf` if and only if it fits within
/// `capacity` bytes.  Returns whether the copy was made.
///
/// `buf` stands for the host's buffer; only its first `capacity` bytes are
/// declared usable, which the buffer's real length must cover.  On success
/// the bytes past the copied line keep their old values; on failure the whole
/// buffer keeps its old content, all or nothing.
pub fn replace_line(buf: &mut Vec<u8>, capacity: usize, new_line: &[u8]) -> (fits: bool)
    requires
        capacity <= old(buf).len(),
    ensures
        fits == (new_line@.len() <= capacity),
        fits ==> final(buf)@ == new_line@ + old(buf)@.skip(new_line@.len() as int),
        !fits ==> final(buf)@ == old(buf)@,
{
    if new_line.len() <= capacity {
        let ghost pre = buf@;
        let mut i: usize = 0;
        while i < new_line.len()
            invariant
                i <= new_line@.len(),
                new_line@.len() <= capacity <= pre.len(),
                buf@.len() == pre.len(),
                forall|j: int| 0 <= j < i ==> buf@[j] == new_line@[j],
                forall|j: int| i <= j < pre.len() ==> buf@[j] == pre[j],
            decreases new_line@.len() - i,
        {
            buf[i] = new_line[i];
            i = i + 1;
        }
        proof {
            assert(buf@ =~= new_line@ + pre.skip(new_line@.len() as int));
        }
        true
    } else {
        false
    }
}

} // verus!
