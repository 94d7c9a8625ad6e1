//! The mathematical model of a window: which elements of a sequence a window
//! of a given length at a given offset holds, and what the sequence becomes
//! once the window has been written through.

use vstd::prelude::*;

verus! {

/// The `len` consecutive elements of `elements` that start at position
/// `offset`, in their order.
pub open spec fn window<T>(elements: Seq<T>, offset: int, len: int) -> Seq<T>
    recommends
        0 <= offset,
        0 <= len,
        offset + len <= elements.len(),
{
    elements.subrange(offset, offset + len)
}

/// `elements` with the positions from `offset` on replaced by `sub`, element
/// for element: what a sequence is after the window at `offset` was left
/// holding `sub`.
pub open spec fn with_window<T>(elements: Seq<T>, offset: int, sub: Seq<T>) -> Seq<T>
    recommends
        0 <= offset,
        offset + sub.len() <= elements.len(),
{
    elements.subrange(0, offset) + sub + elements.subrange(
        offset + sub.len(),
        elements.len() as int,
    )
}

/// A window that fits has exactly `len` elements, and its `i`-th element is
/// the element of the source at position `offset + i`.
pub proof fn lemma_window_elements<T>(elements: Seq<T>, offset: int, len: int)
    requires
        0 <= offset,
        0 <= len,
        offset + len <= elements.len(),
    ensures
        window(elements, offset, len).len() == len,
        forall|i: int| 0 <= i < len ==> window(elements, offset, len)[i] == elements[offset + i],
{
}

/// A window of length zero is empty at every offset up to and including the
/// length of the source.
pub proof fn lemma_window_empty<T>(elements: Seq<T>, offset: int)
    requires
        0 <= offset <= elements.len(),
    ensures
        window(elements, offset, 0) == Seq::<T>::empty(),
{
    assert(window(elements, offset, 0) =~= Seq::<T>::empty());
}

/// The window at offset zero that is as long as the source is the source:
/// every element, in the same order.
pub proof fn lemma_window_full<T>(elements: Seq<T>)
    ensures
        window(elements, 0, elements.len() as int) == elements,
{
    assert(window(elements, 0, elements.len() as int) =~= elements);
}

/// Writing through a window keeps the length of the source, shows at position
/// `offset + i` what the window holds at `i`, and leaves every position
/// outside the window as it was.
pub proof fn lemma_with_window_elements<T>(elements: Seq<T>, offset: int, sub: Seq<T>)
    requires
        0 <= offset,
        offset + sub.len() <= elements.len(),
    ensures
        with_window(elements, offset, sub).len() == elements.len(),
        forall|i: int|
            0 <= i < sub.len() ==> with_window(elements, offset, sub)[offset + i] == sub[i],
        forall|j: int|
            0 <= j < offset || offset + sub.len() <= j < elements.len()
                ==> with_window(elements, offset, sub)[j] == elements[j],
{
}

/// Changing the `i`-th element of a window changes the element of the source
/// at position `offset + i`, to the same value, and no other.
pub proof fn lemma_write_through_window<T>(
    elements: Seq<T>,
    offset: int,
    len: int,
    i: int,
    value: T,
)
    requires
        0 <= offset,
        0 <= len,
        offset + len <= elements.len(),
        0 <= i < len,
    ensures
        with_window(elements, offset, window(elements, offset, len).update(i, value))
            == elements.update(offset + i, value),
{
    assert(with_window(elements, offset, window(elements, offset, len).update(i, value))
        =~= elements.update(offset + i, value));
}

/// Reading the window back after it was written through gives what was
/// written.
pub proof fn lemma_window_of_with_window<T>(elements: Seq<T>, offset: int, sub: Seq<T>)
    requires
        0 <= offset,
        offset + sub.len() <= elements.len(),
    ensures
        window(with_window(elements, offset, sub), offset, sub.len() as int) == sub,
{
    assert(window(with_window(elements, offset, sub), offset, sub.len() as int) =~= sub);
}

/// A window that is left as it was found leaves the source as it was.
pub proof fn lemma_with_window_unchanged<T>(elements: Seq<T>, offset: int, len: int)
    requires
        0 <= offset,
        0 <= len,
        offset + len <= elements.len(),
    ensures
        with_window(elements, offset, window(elements, offset, len)) == elements,
{
    assert(with_window(elements, offset, window(elements, offset, len)) =~= elements);
}

} // verus!
