//! Spec-level model of the stack shapes shared by every representation,
//! together with the laws that the shuffling operations obey.
//!
//! A stack is modelled as a `Seq` whose last element is the top (the X
//! register of a classic calculator stack).

use vstd::prelude::*;

verus! {

/// The top element of a stack holding `s`: the last of the sequence.
pub open spec fn top_of<T>(s: Seq<T>) -> T {
    s.last()
}

/// The element directly under the top of a stack holding `s`.
pub open spec fn second_of<T>(s: Seq<T>) -> T {
    s[s.len() - 2]
}

/// The sequence after rotating up once: the bottommost element becomes the
/// top, everything else moves one position toward the bottom.  Rotation of a
/// sequence with zero or one elements changes nothing.
pub open spec fn rotated_up<T>(s: Seq<T>) -> Seq<T> {
    if s.len() == 0 {
        s
    } else {
        s.subrange(1, s.len() as int).push(s[0])
    }
}

/// The sequence after rotating down once: the top element becomes the
/// bottom, everything else moves one position toward the top.
pub open spec fn rotated_down<T>(s: Seq<T>) -> Seq<T> {
    if s.len() == 0 {
        s
    } else {
        seq![s.last()] + s.subrange(0, s.len() - 1)
    }
}

/// The sequence after exchanging the two topmost elements.  Sequences with
/// fewer than two elements are left as they are (the operations that use
/// this report an error instead of reaching that case).
pub open spec fn swapped<T>(s: Seq<T>) -> Seq<T> {
    if s.len() < 2 {
        s
    } else {
        s.update(s.len() - 1, s[s.len() - 2]).update(s.len() - 2, s[s.len() - 1])
    }
}

/// `n` successive up-rotations.
pub open spec fn rotated_up_n<T>(s: Seq<T>, n: nat) -> Seq<T>
    decreases n,
{
    if n == 0 {
        s
    } else {
        rotated_up(rotated_up_n(s, (n - 1) as nat))
    }
}

/// `n` successive down-rotations.
pub open spec fn rotated_down_n<T>(s: Seq<T>, n: nat) -> Seq<T>
    decreases n,
{
    if n == 0 {
        s
    } else {
        rotated_down(rotated_down_n(s, (n - 1) as nat))
    }
}

/// Rotating up a sequence of zero or one elements changes nothing.
pub proof fn lemma_rotate_noop_on_small<T>(s: Seq<T>)
    requires
        s.len() <= 1,
    ensures
        rotated_up(s) == s,
        rotated_down(s) == s,
{
    if s.len() == 1 {
        assert(rotated_up(s) =~= s);
        assert(rotated_down(s) =~= s);
    }
}

/// Rotating up and then down — or down and then up — restores the sequence:
/// the two rotations are exact inverses.
pub proof fn lemma_rotations_inverse<T>(s: Seq<T>)
    ensures
        rotated_down(rotated_up(s)) == s,
        rotated_up(rotated_down(s)) == s,
{
    if s.len() > 0 {
        assert(rotated_down(rotated_up(s)) =~= s);
        assert(rotated_up(rotated_down(s)) =~= s);
    }
}

/// After `n <= s.len()` up-rotations the sequence is its first `n` elements
/// moved, in order, from the bottom to the top.
pub proof fn lemma_rotated_up_n_shape<T>(s: Seq<T>, n: nat)
    requires
        n <= s.len(),
    ensures
        rotated_up_n(s, n) == s.subrange(n as int, s.len() as int) + s.subrange(0, n as int),
    decreases n,
{
    if n == 0 {
        assert(rotated_up_n(s, 0) =~= s.subrange(0, s.len() as int) + s.subrange(0, 0));
    } else {
        lemma_rotated_up_n_shape(s, (n - 1) as nat);
        let prev = s.subrange(n - 1, s.len() as int) + s.subrange(0, n - 1);
        assert(prev.len() == s.len());
        assert(rotated_up(prev) =~= s.subrange(n as int, s.len() as int) + s.subrange(0, n as int));
    }
}

/// After `n <= s.len()` down-rotations the sequence is its last `n` elements
/// moved, in order, from the top to the bottom.
pub proof fn lemma_rotated_down_n_shape<T>(s: Seq<T>, n: nat)
    requires
        n <= s.len(),
    ensures
        rotated_down_n(s, n) == s.subrange(s.len() - n, s.len() as int) + s.subrange(
            0,
            s.len() - n,
        ),
    decreases n,
{
    if n == 0 {
        assert(rotated_down_n(s, 0) =~= s.subrange(s.len() as int, s.len() as int) + s.subrange(
            0,
            s.len() as int,
        ));
    } else {
        lemma_rotated_down_n_shape(s, (n - 1) as nat);
        let prev = s.subrange(s.len() - (n - 1), s.len() as int) + s.subrange(0, s.len() - (n - 1));
        assert(prev.len() == s.len());
        assert(rotated_down(prev) =~= s.subrange(s.len() - n, s.len() as int) + s.subrange(
            0,
            s.len() - n,
        ));
    }
}

/// Rotating up as many times as the sequence is long restores the original
/// order; the same holds for rotating down.
pub proof fn lemma_rotation_cycle<T>(s: Seq<T>)
    ensures
        rotated_up_n(s, s.len()) == s,
        rotated_down_n(s, s.len()) == s,
{
    lemma_rotated_up_n_shape(s, s.len());
    lemma_rotated_down_n_shape(s, s.len());
    assert(s.subrange(s.len() as int, s.len() as int) + s.subrange(0, s.len() as int) =~= s);
    assert(s.subrange(0, 0) + s.subrange(0, s.len() as int) =~= s.subrange(0, s.len() as int)
        + s.subrange(0, 0));
    assert(s.subrange(0, s.len() as int) + s.subrange(0, 0) =~= s);
}

/// On a four-element stack, four successive up-rotations — or four
/// successive down-rotations — restore the original register values.
pub proof fn lemma_rotate_four_times_identity<T>(s: Seq<T>)
    requires
        s.len() == 4,
    ensures
        rotated_up(rotated_up(rotated_up(rotated_up(s)))) == s,
        rotated_down(rotated_down(rotated_down(rotated_down(s)))) == s,
{
    assert(rotated_up(rotated_up(rotated_up(rotated_up(s)))) =~= s);
    assert(rotated_down(rotated_down(rotated_down(rotated_down(s)))) =~= s);
}

/// Exchanging the two topmost elements twice restores the original order.
pub proof fn lemma_swapped_twice<T>(s: Seq<T>)
    ensures
        swapped(swapped(s)) == s,
{
    if s.len() >= 2 {
        assert(swapped(swapped(s)) =~= s);
    }
}

} // verus!
