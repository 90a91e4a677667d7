use vstd::prelude::*;

verus! {

/// A selection is valid for a list of `len` items when it is absent or names one of them.
pub open spec fn selection_valid(sel: Option<usize>, len: nat) -> bool {
    match sel {
        Some(i) => i < len,
        None => true,
    }
}

/// Where a forward move of `step` lands: the first item when nothing is selected,
/// else `step` further on, held at the last item. An empty list keeps its selection.
pub open spec fn forward_of(sel: Option<usize>, step: nat, len: nat) -> Option<usize> {
    if len == 0 {
        sel
    } else {
        match sel {
            Some(i) => Some(
                (if i + step < len - 1 {
                    i + step
                } else {
                    len - 1
                }) as usize,
            ),
            None => Some(0),
        }
    }
}

/// Where a backward move of `step` lands: `from_none` when nothing is selected,
/// else `step` back, held at the first item. An empty list keeps its selection.
pub open spec fn backward_of(sel: Option<usize>, step: nat, len: nat, from_none: usize) -> Option<
    usize,
> {
    if len == 0 {
        sel
    } else {
        match sel {
            Some(i) => Some(
                (if i >= step {
                    i - step
                } else {
                    0
                }) as usize,
            ),
            None => Some(from_none),
        }
    }
}

/// Moves the selection forward by `step` over a list of `len` items.
pub fn move_forward(sel: Option<usize>, step: usize, len: usize) -> (r: Option<usize>)
    requires
        selection_valid(sel, len as nat),
    ensures
        r == forward_of(sel, step as nat, len as nat),
        selection_valid(r, len as nat),
{
    if len == 0 {
        sel
    } else {
        match sel {
            Some(i) => {
                if step < len - 1 - i {
                    Some(i + step)
                } else {
                    Some(len - 1)
                }
            },
            None => Some(0),
        }
    }
}

/// Moves the selection backward by `step` over a list of `len` items; with nothing
/// selected it lands on `from_none`.
pub fn move_backward(sel: Option<usize>, step: usize, len: usize, from_none: usize) -> (r: Option<
    usize,
>)
    requires
        selection_valid(sel, len as nat),
        len > 0 ==> from_none < len,
    ensures
        r == backward_of(sel, step as nat, len as nat, from_none),
        selection_valid(r, len as nat),
{
    if len == 0 {
        sel
    } else {
        match sel {
            Some(i) => {
                if i >= step {
                    Some(i - step)
                } else {
                    Some(0)
                }
            },
            None => Some(from_none),
        }
    }
}

/// Where a run of forward moves, one per step in `steps`, lands.
pub open spec fn forward_run(sel: Option<usize>, steps: Seq<nat>, len: nat) -> Option<usize>
    decreases steps.len(),
{
    if steps.len() == 0 {
        sel
    } else {
        forward_run(forward_of(sel, steps[0], len), steps.drop_first(), len)
    }
}

/// Where a run of backward moves, one per step in `steps`, lands.
pub open spec fn backward_run(sel: Option<usize>, steps: Seq<nat>, len: nat, from_none: usize) -> Option<
    usize,
>
    decreases steps.len(),
{
    if steps.len() == 0 {
        sel
    } else {
        backward_run(backward_of(sel, steps[0], len, from_none), steps.drop_first(), len, from_none)
    }
}

/// However many forward moves are made over a non-empty list, the selection
/// stays on an item of the list, and after the first move something is selected.
pub proof fn lemma_forward_run_in_bounds(sel: Option<usize>, steps: Seq<nat>, len: nat)
    requires
        len > 0,
        len <= usize::MAX,
        selection_valid(sel, len),
    ensures
        selection_valid(forward_run(sel, steps, len), len),
        steps.len() > 0 ==> forward_run(sel, steps, len) is Some,
    decreases steps.len(),
{
    if steps.len() > 0 {
        let next = forward_of(sel, steps[0], len);
        lemma_forward_run_in_bounds(next, steps.drop_first(), len);
        if steps.len() == 1 {
            assert(forward_run(next, steps.drop_first(), len) == next);
        }
    }
}

/// However many backward moves are made over a non-empty list, the selection
/// stays on an item of the list (never before the first), and after the first
/// move something is selected.
pub proof fn lemma_backward_run_in_bounds(
    sel: Option<usize>,
    steps: Seq<nat>,
    len: nat,
    from_none: usize,
)
    requires
        len > 0,
        from_none < len,
        selection_valid(sel, len),
    ensures
        selection_valid(backward_run(sel, steps, len, from_none), len),
        steps.len() > 0 ==> backward_run(sel, steps, len, from_none) is Some,
    decreases steps.len(),
{
    if steps.len() > 0 {
        let next = backward_of(sel, steps[0], len, from_none);
        lemma_backward_run_in_bounds(next, steps.drop_first(), len, from_none);
        if steps.len() == 1 {
            assert(backward_run(next, steps.drop_first(), len, from_none) == next);
        }
    }
}

} // verus!
