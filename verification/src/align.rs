//! Rounding sizes up to an alignment and counting compute work groups.
use vstd::arithmetic::div_mod::{
    lemma_div_is_ordered, lemma_fundamental_div_mod, lemma_fundamental_div_mod_converse,
};
use vstd::prelude::*;

verus! {

/// The smallest multiple of `alignment` that is not below `value`.
pub open spec fn align_up(value: int, alignment: int) -> int {
    (value + alignment - 1) / alignment * alignment
}

/// What has to be added to `value` to reach the next multiple of `alignment`.
pub open spec fn padding_to(value: int, alignment: int) -> int {
    (alignment - value % alignment) % alignment
}

/// The number of groups of `group_size` items needed to cover `len` items.
pub open spec fn div_ceil(len: int, group_size: int) -> int {
    (len + group_size - 1) / group_size
}

/// Padding a value up to its alignment is the same as rounding it up to the
/// next multiple, which is the value itself when it is already aligned and
/// otherwise `value + alignment - value % alignment`.
pub proof fn lemma_padding_reaches_align_up(value: int, alignment: int)
    requires
        value >= 0,
        alignment > 0,
    ensures
        value + padding_to(value, alignment) == align_up(value, alignment),
        value % alignment == 0 ==> align_up(value, alignment) == value,
        value % alignment != 0 ==> align_up(value, alignment) == value + alignment - value
            % alignment,
        0 <= padding_to(value, alignment) < alignment,
{
    let q = value / alignment;
    let r = value % alignment;
    lemma_fundamental_div_mod(value, alignment);
    assert(value == q * alignment + r);
    if r == 0 {
        lemma_fundamental_div_mod_converse(alignment - r, alignment, 1, 0);
        lemma_fundamental_div_mod_converse(value + alignment - 1, alignment, q, alignment - 1);
    } else {
        lemma_fundamental_div_mod_converse(alignment - r, alignment, 0, alignment - r);
        assert((q + 1) * alignment == q * alignment + alignment) by (nonlinear_arith);
        lemma_fundamental_div_mod_converse(value + alignment - 1, alignment, q + 1, r - 1);
    }
}

/// Rounding up gives a multiple of the alignment that lies in
/// `[value, value + alignment)`, and no multiple of the alignment in that
/// range is smaller: it is the least aligned value not below `value`.
pub proof fn lemma_align_up_is_least_multiple(value: int, alignment: int, other: int)
    requires
        value >= 0,
        alignment > 0,
    ensures
        align_up(value, alignment) % alignment == 0,
        value <= align_up(value, alignment) < value + alignment,
        other % alignment == 0 && other >= value ==> align_up(value, alignment) <= other,
{
    lemma_padding_reaches_align_up(value, alignment);
    let q = (value + alignment - 1) / alignment;
    lemma_fundamental_div_mod_converse(q * alignment, alignment, q, 0);
    if other % alignment == 0 && other >= value {
        let k = other / alignment;
        lemma_fundamental_div_mod(other, alignment);
        lemma_div_is_ordered(value + alignment - 1, k * alignment + alignment - 1, alignment);
        lemma_fundamental_div_mod_converse(k * alignment + alignment - 1, alignment, k, alignment - 1);
        assert(q * alignment <= k * alignment) by (nonlinear_arith)
            requires
                q <= k,
                alignment > 0,
        ;
    }
}

/// The number of work groups is the length divided by the group size,
/// rounded up, and those groups cover the length with less than one group to
/// spare.
pub proof fn lemma_groups_cover_len(len: int, group_size: int)
    requires
        len >= 0,
        group_size > 0,
    ensures
        (len + padding_to(len, group_size)) / group_size == div_ceil(len, group_size),
        div_ceil(len, group_size) * group_size >= len,
        div_ceil(len, group_size) * group_size < len + group_size,
{
    lemma_padding_reaches_align_up(len, group_size);
    lemma_align_up_is_least_multiple(len, group_size, len);
    let q = div_ceil(len, group_size);
    lemma_fundamental_div_mod_converse(q * group_size, group_size, q, 0);
}

/// Rounds `value` up to a multiple of `alignment`.
pub fn align_to(value: usize, alignment: usize) -> (aligned: usize)
    requires
        alignment > 0,
        value % alignment != 0 ==> value + alignment <= usize::MAX,
    ensures
        aligned == align_up(value as int, alignment as int),
{
    proof {
        lemma_padding_reaches_align_up(value as int, alignment as int);
    }
    let remainder = value % alignment;
    if remainder == 0 {
        value
    } else {
        value + alignment - remainder
    }
}

/// Rounds `value` up to a multiple of `alignment`, on 32-bit values.
pub fn align_to_u32(value: u32, alignment: u32) -> (aligned: u32)
    requires
        alignment > 0,
        value % alignment != 0 ==> value + alignment <= u32::MAX,
    ensures
        aligned == align_up(value as int, alignment as int),
{
    proof {
        lemma_padding_reaches_align_up(value as int, alignment as int);
    }
    let remainder = value % alignment;
    if remainder == 0 {
        value
    } else {
        value + alignment - remainder
    }
}

/// The number of work groups of `subgroup_size` invocations that a dispatch
/// over `len` invocations needs.
pub fn dispatch_optimal(len: u32, subgroup_size: u32) -> (groups: u32)
    requires
        subgroup_size > 0,
        align_up(len as int, subgroup_size as int) <= u32::MAX,
    ensures
        groups == div_ceil(len as int, subgroup_size as int),
{
    proof {
        lemma_padding_reaches_align_up(len as int, subgroup_size as int);
        lemma_groups_cover_len(len as int, subgroup_size as int);
    }
    let padded_size = (subgroup_size - len % subgroup_size) % subgroup_size;
    (len + padded_size) / subgroup_size
}

} // verus!
