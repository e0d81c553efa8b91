use vstd::prelude::*;

verus! {

/// The arrow keys held down during one frame.
#[derive(Clone, Copy, Debug, PartialEq, Eq, Structural)]
pub struct Keys {
    pub up: bool,
    pub down: bool,
    pub left: bool,
    pub right: bool,
}

/// What the car does in one frame.
#[derive(Clone, Copy, Debug, PartialEq, Eq, Structural)]
pub enum Drive {
    /// Drive forwards one step.
    Forward,
    /// Drive backwards one step.
    Backward,
    /// Turn the steering wheel one notch to the left.
    SteerLeft,
    /// Turn the steering wheel one notch to the right.
    SteerRight,
    /// Do nothing.
    Hold,
}

/// The command of a frame: only one key counts, in the order up, down,
/// left, right.
pub open spec fn drive_of(keys: Keys) -> Drive {
    if keys.up {
        Drive::Forward
    } else if keys.down {
        Drive::Backward
    } else if keys.left {
        Drive::SteerLeft
    } else if keys.right {
        Drive::SteerRight
    } else {
        Drive::Hold
    }
}

/// `i` is the first position of `hits` that holds `true`.
pub open spec fn is_first_hit(hits: Seq<bool>, i: int) -> bool {
    &&& 0 <= i < hits.len()
    &&& hits[i]
    &&& forall|j: int| 0 <= j < i ==> !hits[j]
}

/// The first button, in menu order, that the pointer is over, if any.
pub open spec fn first_hit_spec(hits: Seq<bool>) -> Option<int> {
    if exists|i: int| is_first_hit(hits, i) {
        Some(choose|i: int| is_first_hit(hits, i))
    } else {
        None
    }
}

proof fn lemma_first_hit_unique(hits: Seq<bool>, i: int, k: int)
    requires
        is_first_hit(hits, i),
        is_first_hit(hits, k),
    ensures
        i == k,
{
    if i < k {
        assert(!hits[i]);
    } else if k < i {
        assert(!hits[k]);
    }
}

/// The command that the held keys give.
pub fn drive_command(keys: Keys) -> (d: Drive)
    ensures
        d == drive_of(keys),
{
    if keys.up {
        Drive::Forward
    } else if keys.down {
        Drive::Backward
    } else if keys.left {
        Drive::SteerLeft
    } else if keys.right {
        Drive::SteerRight
    } else {
        Drive::Hold
    }
}

/// The first button, in menu order, whose area holds the pointer:
/// `hits[i]` tells whether it is within button `i`.
pub fn first_hit(hits: &[bool]) -> (r: Option<usize>)
    ensures
        match r {
            Some(i) => first_hit_spec(hits@) == Some(i as int) && is_first_hit(hits@, i as int),
            None => first_hit_spec(hits@) is None && forall|j: int|
                0 <= j < hits@.len() ==> !hits@[j],
        },
{
    let len: usize = hits.len();
    let mut i: usize = 0;
    while i < len
        invariant
            len == hits@.len(),
            i <= len,
            forall|j: int| 0 <= j < i ==> !hits@[j],
        decreases len - i,
    {
        if hits[i] {
            proof {
                assert(is_first_hit(hits@, i as int));
                let k = choose|k: int| is_first_hit(hits@, k);
                lemma_first_hit_unique(hits@, i as int, k);
            }
            return Some(i);
        }
        i = i + 1;
    }
    proof {
        assert(!exists|k: int| is_first_hit(hits@, k));
    }
    None
}

/// The first hit, when there is one, is a button that holds the pointer,
/// and no earlier button does.
pub proof fn first_hit_is_first(hits: Seq<bool>)
    ensures
        match first_hit_spec(hits) {
            Some(i) => is_first_hit(hits, i),
            None => forall|j: int| 0 <= j < hits.len() ==> !hits[j],
        },
{
    if exists|i: int| is_first_hit(hits, i) {
    } else {
        assert forall|j: int| 0 <= j < hits.len() implies !hits[j] by {
            if hits[j] {
                lemma_some_hit_has_first(hits, j);
            }
        }
    }
}

proof fn lemma_some_hit_has_first(hits: Seq<bool>, j: int)
    requires
        0 <= j < hits.len(),
        hits[j],
    ensures
        exists|i: int| is_first_hit(hits, i),
    decreases j,
{
    if forall|k: int| 0 <= k < j ==> !hits[k] {
        assert(is_first_hit(hits, j));
    } else {
        let k = choose|k: int| 0 <= k < j && hits[k];
        lemma_some_hit_has_first(hits, k);
    }
}

/// Moving forward wins over every other key, and the keys are read in a
/// fixed order: a key counts only when none before it is held.
pub proof fn drive_priority(keys: Keys)
    ensures
        keys.up ==> drive_of(keys) == Drive::Forward,
        !keys.up && keys.down ==> drive_of(keys) == Drive::Backward,
        !keys.up && !keys.down && keys.left ==> drive_of(keys) == Drive::SteerLeft,
        !keys.up && !keys.down && !keys.left && keys.right ==> drive_of(keys) == Drive::SteerRight,
        drive_of(keys) == Drive::Hold <==> !keys.up && !keys.down && !keys.left && !keys.right,
{
}

} // verus!
