//! `java.io` natives: what a read from an open file does to the heap. Opening the file
//! and keeping its content and read position is the machine's work.
use vstd::prelude::*;

use crate::vm::heap::Heap;
use crate::vm::value::{RefId, ReferenceValue, Value};
use crate::vm::VmError;

verus! {

/// The number of bytes a read of at most `length` bytes takes from a file of `len` bytes
/// whose read position is `index`: all that is left, or `length` where that is less.
pub open spec fn bytes_to_read(length: i32, len: int, index: int) -> int {
    let wanted = (length as usize) as int;
    if wanted < len - index {
        wanted
    } else {
        len - index
    }
}

/// `dst` with the `n` bytes of `content` from `index` on, each as an int, written from
/// `start` on.
pub open spec fn read_into(dst: Seq<Value>, start: int, content: Seq<u8>, index: int, n: int) -> Seq<Value> {
    Seq::new(
        dst.len(),
        |i: int| if start <= i < start + n { Value::Integer(content[i - start + index] as i32) } else { dst[i] },
    )
}

/// What a read hands back: the number of bytes read; when none were, -1 at the end of the
/// file and 0 otherwise.
pub open spec fn read_result(n: int, len: int, index: int) -> i32 {
    if n > 0 {
        n as i32
    } else if index + n == len {
        -1i32
    } else {
        0i32
    }
}

/// True when the read stays inside the array; a read past its end panics.
pub open spec fn read_in_bounds(
    heap: Map<RefId, ReferenceValue>,
    array: RefId,
    offset: i32,
    length: i32,
    content: Seq<u8>,
    index: int,
) -> bool {
    heap.contains_key(array) ==> {
        let n = bytes_to_read(length, content.len() as int, index);
        &&& heap[array].spec_is_array()
        &&& n > 0 ==> 0 <= offset && offset + n <= heap[array].components().len()
    }
}

/// One `FileInputStream.readBytes(array, offset, length)` on a file whose content is
/// `content` and whose read position is `index`: reads at most `length` bytes, as many as
/// are left, into the byte array `array` from `offset` on, each byte as an int from 0 to
/// 255. Gives what the read hands back to Java code (see [`read_result`]) and the new read
/// position. A missing array is refused with a validation error.
pub fn read_bytes_step(
    heap: &mut Heap,
    array: RefId,
    offset: i32,
    length: i32,
    content: &Vec<u8>,
    index: usize,
) -> (r: Result<(i32, usize), VmError>)
    requires
        old(heap).wf(),
        index <= content@.len(),
        read_in_bounds(old(heap)@, array, offset, length, content@, index as int),
    ensures
        final(heap).wf(),
        old(heap)@.contains_key(array) ==> {
            let n = bytes_to_read(length, content@.len() as int, index as int);
            &&& r == Ok::<(i32, usize), VmError>(
                (read_result(n, content@.len() as int, index as int), (index + n) as usize),
            )
            &&& final(heap)@.dom() == old(heap)@.dom()
            &&& ReferenceValue::with_components(
                &old(heap)@[array],
                &final(heap)@[array],
                read_into(old(heap)@[array].components(), offset as int, content@, index as int, n),
            )
            &&& forall|other: RefId| other != array ==> #[trigger] final(heap)@.index(other) == old(heap)@.index(
                other,
            )
        },
        !old(heap)@.contains_key(array) ==> (r matches Err(VmError::ValidationError(_))) && final(heap)@
            == old(heap)@,
{
    let len = {
        let data = heap.resolve_object_by_id(array)?;
        data.get_length()
    };
    let content_len = content.len();
    let left = content_len - index;
    let wanted = length as usize;
    let n = if wanted < left {
        wanted
    } else {
        left
    };
    let ghost h0 = heap@;
    let ghost dst = h0[array].components();
    proof {
        ReferenceValue::lemma_with_own_components(&h0[array]);
        assert(read_into(dst, offset as int, content@, index as int, 0) =~= dst);
    }
    if n > 0 {
        let start = offset as usize;
        let mut k: usize = 0;
        while k < n
            invariant
                heap.wf(),
                heap@.dom() == h0.dom(),
                h0.contains_key(array),
                h0[array].spec_is_array(),
                dst == h0[array].components(),
                dst.len() == len,
                start == offset,
                start + n <= len,
                index + n <= content@.len(),
                content@.len() == content_len,
                k <= n,
                forall|other: RefId| other != array ==> #[trigger] heap@.index(other) == h0.index(other),
                ReferenceValue::with_components(
                    &h0[array],
                    &heap@[array],
                    read_into(dst, start as int, content@, index as int, k as int),
                ),
            decreases n - k,
        {
            let ghost before = heap@[array];
            let ghost partial = read_into(dst, start as int, content@, index as int, k as int);
            proof {
                ReferenceValue::lemma_with_components(&h0[array], &before, partial);
            }
            let v = Value::Integer(content[index + k] as i32);
            heap.set_element(array, start + k, v);
            proof {
                ReferenceValue::lemma_with_components_then_updated(
                    &h0[array],
                    &before,
                    partial,
                    &heap@[array],
                    start + k,
                    v,
                );
                assert(partial.update(start + k, v) =~= read_into(
                    dst,
                    start as int,
                    content@,
                    index as int,
                    k + 1,
                ));
            }
            k = k + 1;
        }
        Ok((n as i32, index + n))
    } else if index == content.len() {
        Ok((-1, index))
    } else {
        Ok((0, index))
    }
}

} // verus!
