//! The vocabulary of teardown: what the program is told to destroy, and in
//! which order.

use vstd::prelude::*;

verus! {

/// The kinds of GPU object the engine creates and destroys.
#[derive(Clone, Copy, Debug, PartialEq, Eq, Structural)]
pub enum ObjectKind {
    Semaphore,
    Fence,
    CommandPool,
    Buffer,
    Image,
    ImageView,
    Framebuffer,
    RenderPass,
    Swapchain,
    Pipeline,
    PipelineLayout,
    DescriptorPool,
    DescriptorSetLayout,
    Device,
    Surface,
    Messenger,
    Instance,
}

/// One step of a teardown. `A` is the sub-allocator's handle for a memory
/// block; a step that frees one owns it, so it cannot be freed again.
#[derive(Debug, PartialEq, Eq)]
pub enum Release<A> {
    /// Block until the device has finished all submitted work.
    WaitIdle,
    /// Destroy the object of this kind with this handle.
    Destroy(ObjectKind, u64),
    /// Give a memory block back to the sub-allocator.
    Free(A),
    /// Let the sub-allocator return its backing memory to the device.
    CleanupAllocator,
}

impl<A> Release<A> {
    /// Whether this step touches a GPU object or its memory.
    pub open spec fn touches_device(self) -> bool {
        !(self is WaitIdle)
    }
}

/// Moves every step of `more` to the end of `steps`, in order.
pub fn append_steps<A>(steps: &mut Vec<Release<A>>, more: Vec<Release<A>>)
    ensures
        final(steps)@ == old(steps)@ + more@,
{
    let mut more = more;
    steps.append(&mut more);
}

/// One step per handle, destroying an object of this kind each.
pub open spec fn destroy_each<A>(kind: ObjectKind, handles: Seq<u64>) -> Seq<Release<A>> {
    Seq::new(handles.len(), |i: int| Release::<A>::Destroy(kind, handles[i]))
}

/// Destroys the objects of one kind with these handles, in order.
pub fn push_destroy_each<A>(steps: &mut Vec<Release<A>>, kind: ObjectKind, handles: &Vec<u64>)
    ensures
        final(steps)@ == old(steps)@ + destroy_each::<A>(kind, handles@),
{
    let mut i: usize = 0;
    while i < handles.len()
        invariant
            i <= handles@.len(),
            steps@ == old(steps)@ + destroy_each::<A>(kind, handles@.take(i as int)),
        decreases handles@.len() - i,
    {
        steps.push(Release::Destroy(kind, handles[i]));
        proof {
            assert(steps@ =~= old(steps)@ + destroy_each::<A>(kind, handles@.take(i + 1)));
        }
        i = i + 1;
    }
    proof {
        assert(handles@.take(i as int) =~= handles@);
    }
}

/// Several lists in a row as one list.
pub open spec fn concat<T>(parts: Seq<Seq<T>>) -> Seq<T>
    decreases parts.len(),
{
    if parts.len() == 0 {
        Seq::empty()
    } else {
        concat(parts.drop_last()) + parts.last()
    }
}

/// The first `i + 1` lists in a row are the first `i` followed by the
/// next.
pub proof fn concat_take_next<T>(parts: Seq<Seq<T>>, i: int)
    requires
        0 <= i < parts.len(),
    ensures
        concat(parts.take(i + 1)) == concat(parts.take(i)) + parts[i],
{
    assert(parts.take(i + 1).drop_last() =~= parts.take(i));
}

/// How many steps give a memory block back.
pub open spec fn frees<A>(steps: Seq<Release<A>>) -> nat
    decreases steps.len(),
{
    if steps.len() == 0 {
        0
    } else {
        frees(steps.drop_last()) + if steps.last() is Free {
            1nat
        } else {
            0nat
        }
    }
}

/// The sum of a list of counts.
pub open spec fn total(counts: Seq<nat>) -> nat
    decreases counts.len(),
{
    if counts.len() == 0 {
        0
    } else {
        total(counts.drop_last()) + counts.last()
    }
}

/// A step that destroys a buffer or an image: the objects that memory is
/// bound to.
pub open spec fn destroys_bound_object<A>(step: Release<A>) -> bool {
    match step {
        Release::Destroy(kind, _) => kind == ObjectKind::Buffer || kind == ObjectKind::Image,
        _ => false,
    }
}

/// No memory is given back before the object bound to it is gone: every
/// step that frees a block stands directly behind one that destroys a
/// buffer or an image.
pub open spec fn orderly<A>(steps: Seq<Release<A>>) -> bool {
    forall|k: int|
        0 <= k < steps.len() && (#[trigger] steps[k]) is Free ==> k > 0 && destroys_bound_object(
            steps[k - 1],
        )
}

/// Two teardowns in a row free as many blocks as both together.
pub proof fn frees_of_sum<A>(a: Seq<Release<A>>, b: Seq<Release<A>>)
    ensures
        frees(a + b) == frees(a) + frees(b),
    decreases b.len(),
{
    if b.len() == 0 {
        assert(a + b =~= a);
    } else {
        assert((a + b).drop_last() =~= a + b.drop_last());
        assert((a + b).last() == b.last());
        frees_of_sum(a, b.drop_last());
    }
}

/// Two orderly teardowns in a row are orderly.
pub proof fn orderly_sum<A>(a: Seq<Release<A>>, b: Seq<Release<A>>)
    requires
        orderly(a),
        orderly(b),
    ensures
        orderly(a + b),
{
    assert forall|k: int| 0 <= k < (a + b).len() && (#[trigger] (a + b)[k]) is Free implies k > 0
        && destroys_bound_object((a + b)[k - 1]) by {
        if k < a.len() {
            assert((a + b)[k] == a[k]);
            assert((a + b)[k - 1] == a[k - 1]);
        } else {
            assert((a + b)[k] == b[k - a.len()]);
            assert(k - a.len() > 0);
            assert((a + b)[k - 1] == b[k - a.len() - 1]);
        }
    }
}

/// Several teardowns in a row free as many blocks as all of them together,
/// and are orderly where each of them is.
pub proof fn concat_laws<A>(parts: Seq<Seq<Release<A>>>)
    ensures
        frees(concat(parts)) == total(parts.map_values(|part: Seq<Release<A>>| frees(part))),
        (forall|i: int| 0 <= i < parts.len() ==> orderly(#[trigger] parts[i])) ==> orderly(
            concat(parts),
        ),
    decreases parts.len(),
{
    let counts = parts.map_values(|part: Seq<Release<A>>| frees(part));
    if parts.len() == 0 {
    } else {
        concat_laws(parts.drop_last());
        frees_of_sum(concat(parts.drop_last()), parts.last());
        assert(counts.drop_last() =~= parts.drop_last().map_values(
            |part: Seq<Release<A>>| frees(part),
        ));
        if forall|i: int| 0 <= i < parts.len() ==> orderly(#[trigger] parts[i]) {
            assert forall|i: int| 0 <= i < parts.drop_last().len() implies orderly(
                #[trigger] parts.drop_last()[i],
            ) by {
                assert(parts.drop_last()[i] == parts[i]);
            }
            assert(orderly(parts.last()));
            orderly_sum(concat(parts.drop_last()), parts.last());
        }
    }
}

/// One more step frees one more block exactly when it is a step that
/// frees.
pub proof fn frees_push<A>(steps: Seq<Release<A>>, step: Release<A>)
    ensures
        frees(steps.push(step)) == frees(steps) + (if step is Free {
            1nat
        } else {
            0nat
        }),
{
    assert(steps.push(step).drop_last() =~= steps);
}

/// A list of zeros sums to zero.
pub proof fn total_of_zeros(counts: Seq<nat>)
    requires
        forall|i: int| 0 <= i < counts.len() ==> #[trigger] counts[i] == 0,
    ensures
        total(counts) == 0,
    decreases counts.len(),
{
    if counts.len() > 0 {
        assert forall|i: int| 0 <= i < counts.drop_last().len() implies #[trigger] counts.drop_last()[i]
            == 0 by {
            assert(counts.drop_last()[i] == counts[i]);
        }
        total_of_zeros(counts.drop_last());
    }
}

/// Steps of which none frees a block free nothing, and are orderly.
pub proof fn nothing_freed_laws<A>(steps: Seq<Release<A>>)
    requires
        forall|k: int| 0 <= k < steps.len() ==> !((#[trigger] steps[k]) is Free),
    ensures
        frees(steps) == 0,
        orderly(steps),
    decreases steps.len(),
{
    if steps.len() > 0 {
        assert forall|k: int| 0 <= k < steps.drop_last().len() implies !((
        #[trigger] steps.drop_last()[k]) is Free) by {
            assert(steps.drop_last()[k] == steps[k]);
        }
        nothing_freed_laws(steps.drop_last());
    }
}

/// Every step destroys an object or frees or cleans up memory: none of
/// them waits.
pub open spec fn only_touching<A>(steps: Seq<Release<A>>) -> bool {
    forall|k: int| 0 <= k < steps.len() ==> (#[trigger] steps[k]).touches_device()
}

/// Teardowns that only destroy and free do so in a row as well.
pub proof fn concat_keeps_touching<A>(parts: Seq<Seq<Release<A>>>)
    requires
        forall|i: int| 0 <= i < parts.len() ==> only_touching(#[trigger] parts[i]),
    ensures
        only_touching(concat(parts)),
    decreases parts.len(),
{
    if parts.len() > 0 {
        assert forall|i: int| 0 <= i < parts.drop_last().len() implies only_touching(
            #[trigger] parts.drop_last()[i],
        ) by {
            assert(parts.drop_last()[i] == parts[i]);
        }
        concat_keeps_touching(parts.drop_last());
        assert(only_touching(parts.last()));
    }
}

} // verus!
