//! `java.lang.System` natives that work on the heap.
use vstd::prelude::*;

use crate::vm::heap::Heap;
use crate::vm::native::{arg, get_arg, non_failing_none, NativeResult};
use crate::vm::value::{RefId, ReferenceValue, Value};
use crate::vm::VmError;

verus! {

/// The arguments of `System.arraycopy` when they have the right kinds: source, source
/// position, destination, destination position and length.
pub open spec fn arraycopy_args(args: Seq<Value>) -> Option<(RefId, i32, RefId, i32, i32)> {
    match (arg(args, 0), arg(args, 1), arg(args, 2), arg(args, 3), arg(args, 4)) {
        (
            Some(Value::Reference(s)),
            Some(Value::Integer(sp)),
            Some(Value::Reference(d)),
            Some(Value::Integer(dp)),
            Some(Value::Integer(n)),
        ) => Some((s, sp, d, dp, n)),
        _ => None,
    }
}

/// True when `System.arraycopy` copies: the arguments have the right kinds and name two
/// arrays of the heap.
pub open spec fn arraycopy_copies(heap: Map<RefId, ReferenceValue>, args: Seq<Value>) -> bool {
    match arraycopy_args(args) {
        Some((s, sp, d, dp, n)) => heap.contains_key(s) && heap.contains_key(d) && heap[s].spec_is_array()
            && heap[d].spec_is_array(),
        None => false,
    }
}

/// True when the copy stays inside both arrays; a copy that does not panics.
pub open spec fn arraycopy_in_bounds(heap: Map<RefId, ReferenceValue>, args: Seq<Value>) -> bool {
    match arraycopy_args(args) {
        Some((s, sp, d, dp, n)) => 0 <= sp && 0 <= dp && 0 <= n && sp + n <= heap[s].components().len() && dp
            + n <= heap[d].components().len(),
        None => true,
    }
}

/// `dst` with the `n` values of `src` from `src_pos` on written from `dst_pos` on.
pub open spec fn copied(dst: Seq<Value>, dst_pos: int, src: Seq<Value>, src_pos: int, n: int) -> Seq<Value> {
    Seq::new(dst.len(), |i: int| if dst_pos <= i < dst_pos + n { src[src_pos + i - dst_pos] } else { dst[i] })
}

/// A copy of `n` elements puts the element `src_pos + k` of the source at `dst_pos + k` of
/// the destination for each `k` below `n`, keeps every other element of the destination,
/// and keeps its length.
pub proof fn law_arraycopy_moves_elements(
    dst: Seq<Value>,
    dst_pos: int,
    src: Seq<Value>,
    src_pos: int,
    n: int,
    k: int,
)
    requires
        0 <= dst_pos,
        0 <= src_pos,
        0 <= n,
        dst_pos + n <= dst.len(),
        src_pos + n <= src.len(),
    ensures
        copied(dst, dst_pos, src, src_pos, n).len() == dst.len(),
        0 <= k < n ==> copied(dst, dst_pos, src, src_pos, n)[dst_pos + k] == src[src_pos + k],
        0 <= k < dst.len() && !(dst_pos <= k < dst_pos + n) ==> copied(dst, dst_pos, src, src_pos, n)[k] == dst[k],
{
}

/// `System.arraycopy(src, src_pos, dst, dst_pos, length)`: copies `length` elements of
/// the array `src` from `src_pos` on into the array `dst` from `dst_pos` on, as if
/// through a temporary copy, so the two ranges may overlap. Arguments of other kinds, or
/// objects that are not two arrays, are refused with a validation error.
pub fn delegate_arraycopy(heap: &mut Heap, args: &Vec<Value>) -> (r: NativeResult)
    requires
        old(heap).wf(),
        arraycopy_copies(old(heap)@, args@) ==> arraycopy_in_bounds(old(heap)@, args@),
    ensures
        final(heap).wf(),
        arraycopy_copies(old(heap)@, args@) ==> {
            let (s, sp, d, dp, n) = arraycopy_args(args@).unwrap();
            &&& r == Ok::<Option<Value>, VmError>(None)
            &&& final(heap)@.dom() == old(heap)@.dom()
            &&& ReferenceValue::with_components(
                &old(heap)@[d],
                &final(heap)@[d],
                copied(old(heap)@[d].components(), dp as int, old(heap)@[s].components(), sp as int, n as int),
            )
            &&& forall|other: RefId| other != d ==> #[trigger] final(heap)@.index(other) == old(heap)@.index(other)
        },
        !arraycopy_copies(old(heap)@, args@) ==> (r matches Err(VmError::ValidationError(_))) && final(heap)@
            == old(heap)@,
{
    let (src_id, src_pos, dst_id, dst_pos, length) = match (
        get_arg(args, 0),
        get_arg(args, 1),
        get_arg(args, 2),
        get_arg(args, 3),
        get_arg(args, 4),
    ) {
        (
            Some(Value::Reference(s)),
            Some(Value::Integer(sp)),
            Some(Value::Reference(d)),
            Some(Value::Integer(dp)),
            Some(Value::Integer(n)),
        ) => (s, sp, d, dp, n),
        _ => {
            return Err(VmError::ValidationError("Expected two arrays with indices".to_string()));
        },
    };
    let src_ref = heap.resolve_object_by_id(src_id)?;
    let dst_ref = heap.resolve_object_by_id(dst_id)?;
    if !(src_ref.is_array() && dst_ref.is_array()) {
        return Err(VmError::ValidationError("Expected two arrays with indices".to_string()));
    }
    let src_len = src_ref.get_length();
    let dst_len = dst_ref.get_length();
    let ghost h0 = heap@;
    let ghost src = h0[src_id].components();
    let ghost dst = h0[dst_id].components();
    let sp = src_pos as usize;
    let dp = dst_pos as usize;
    let len = length as usize;
    // The source range is read out before anything is written, as the ranges may overlap.
    let mut content: Vec<Value> = Vec::new();
    let mut k: usize = 0;
    while k < len
        invariant
            *src_ref == h0[src_id],
            src_ref.spec_is_array(),
            src == src_ref.components(),
            sp + len <= src.len(),
            src.len() == src_len,
            k <= len,
            content@ == src.subrange(sp as int, sp + k),
        decreases len - k,
    {
        content.push(src_ref.get_element(sp + k));
        k = k + 1;
        assert(content@ =~= src.subrange(sp as int, sp + k));
    }
    proof {
        ReferenceValue::lemma_with_own_components(&h0[dst_id]);
        assert(Seq::new(dst.len(), |i: int| if dp <= i < dp + 0 { content@[i - dp] } else { dst[i] }) =~= dst);
    }
    let mut k: usize = 0;
    while k < len
        invariant
            heap.wf(),
            heap@.dom() == h0.dom(),
            h0.contains_key(dst_id),
            h0[dst_id].spec_is_array(),
            dst == h0[dst_id].components(),
            dp + len <= dst.len(),
            dst.len() == dst_len,
            content@.len() == len,
            k <= len,
            forall|other: RefId| other != dst_id ==> #[trigger] heap@.index(other) == h0.index(other),
            ReferenceValue::with_components(
                &h0[dst_id],
                &heap@[dst_id],
                Seq::new(dst.len(), |i: int| if dp <= i < dp + k { content@[i - dp] } else { dst[i] }),
            ),
        decreases len - k,
    {
        let ghost before = heap@[dst_id];
        let ghost partial = Seq::new(dst.len(), |i: int| if dp <= i < dp + k { content@[i - dp] } else { dst[i] });
        proof {
            ReferenceValue::lemma_with_components(&h0[dst_id], &before, partial);
        }
        heap.set_element(dst_id, dp + k, content[k]);
        proof {
            ReferenceValue::lemma_with_components_then_updated(
                &h0[dst_id],
                &before,
                partial,
                &heap@[dst_id],
                dp + k,
                content@[k as int],
            );
            assert(partial.update(dp + k, content@[k as int]) =~= Seq::new(
                dst.len(),
                |i: int| if dp <= i < dp + (k + 1) { content@[i - dp] } else { dst[i] },
            ));
        }
        k = k + 1;
    }
    proof {
        assert(Seq::new(dst.len(), |i: int| if dp <= i < dp + len { content@[i - dp] } else { dst[i] }) =~= copied(
            dst,
            dp as int,
            src,
            sp as int,
            len as int,
        ));
    }
    non_failing_none()
}

} // verus!
