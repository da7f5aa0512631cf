//! Draw commands and the per-frame draw plan.
//!
//! A frame's command list is walked in submission order. Every command
//! with a positive element count becomes exactly one indexed
//! triangle-list draw call: its scissor bounds, its texture and the
//! index-buffer offset where its elements begin. The offset cursor
//! advances by each command's element count, so consecutive draws read
//! consecutive, non-overlapping index ranges. Commands with element
//! count zero are skipped: no draw call, no state change.

use crate::clip::{scissor_spec, RectL, Scissor};
use crate::options::DrawOptions;
use vstd::prelude::*;

verus! {

/// One abstract draw command produced by the geometry converter.
#[derive(Clone, Copy, Debug, PartialEq, Eq, Structural)]
pub struct DrawCommand {
    /// Number of index elements this command covers.
    pub elem_count: u32,
    /// Clip rectangle in logical units.
    pub clip: RectL,
    /// Identifier of the texture to sample.
    pub texture: i32,
}

/// One concrete draw call of the plan.
#[derive(Clone, Copy, Debug, PartialEq, Eq, Structural)]
pub struct DrawCall {
    /// First index-buffer element this call reads.
    pub index_offset: u64,
    /// Number of index elements this call reads; positive.
    pub elem_count: u32,
    /// Device-pixel scissor bounds to set for this call.
    pub scissor: Scissor,
    /// Identifier of the texture to bind.
    pub texture: i32,
}

/// Total element count of a command list.
pub open spec fn total_elems(cmds: Seq<DrawCommand>) -> int
    decreases cmds.len(),
{
    if cmds.len() == 0 {
        0
    } else {
        total_elems(cmds.drop_last()) + cmds.last().elem_count
    }
}

/// The commands that are actually drawn: those with a positive element
/// count, in submission order.
pub open spec fn drawn_commands(cmds: Seq<DrawCommand>) -> Seq<DrawCommand>
    decreases cmds.len(),
{
    if cmds.len() == 0 {
        Seq::empty()
    } else if cmds.last().elem_count == 0 {
        drawn_commands(cmds.drop_last())
    } else {
        drawn_commands(cmds.drop_last()).push(cmds.last())
    }
}

/// Total element count of a plan's calls.
pub open spec fn total_call_elems(plan: Seq<DrawCall>) -> int
    decreases plan.len(),
{
    if plan.len() == 0 {
        0
    } else {
        total_call_elems(plan.drop_last()) + plan.last().elem_count
    }
}

/// The draw plan of a command list: one call per command with a positive
/// element count, in order, each reading the index buffer where the
/// elements of all commands before it end, counting from `base`.
pub open spec fn plan_spec(cmds: Seq<DrawCommand>, o: DrawOptions, base: int) -> Seq<DrawCall>
    decreases cmds.len(),
{
    if cmds.len() == 0 {
        Seq::empty()
    } else {
        let prefix = plan_spec(cmds.drop_last(), o, base);
        let c = cmds.last();
        if c.elem_count == 0 {
            prefix
        } else {
            prefix.push(
                DrawCall {
                    index_offset: (base + total_elems(cmds.drop_last())) as u64,
                    elem_count: c.elem_count,
                    scissor: scissor_spec(c.clip, o),
                    texture: c.texture,
                },
            )
        }
    }
}

/// A command list's total element count is never negative.
pub proof fn lemma_total_elems_nonneg(cmds: Seq<DrawCommand>)
    ensures
        total_elems(cmds) >= 0,
    decreases cmds.len(),
{
    if cmds.len() > 0 {
        lemma_total_elems_nonneg(cmds.drop_last());
    }
}

/// Extending a prefix by one command adds that command's element count
/// to the prefix's total.
pub proof fn lemma_total_elems_take_succ(cmds: Seq<DrawCommand>, i: int)
    requires
        0 <= i < cmds.len(),
    ensures
        total_elems(cmds.take(i + 1)) == total_elems(cmds.take(i)) + cmds[i].elem_count,
{
    assert(cmds.take(i + 1).drop_last() =~= cmds.take(i));
}

/// A prefix's total element count never exceeds the whole list's.
pub proof fn lemma_total_elems_take_le(cmds: Seq<DrawCommand>, i: int)
    requires
        0 <= i <= cmds.len(),
    ensures
        total_elems(cmds.take(i)) <= total_elems(cmds),
    decreases cmds.len() - i,
{
    if i == cmds.len() {
        assert(cmds.take(i) =~= cmds);
    } else {
        lemma_total_elems_take_succ(cmds, i);
        lemma_total_elems_take_le(cmds, i + 1);
    }
}

/// Extending a prefix by one command either keeps the plan (element
/// count zero) or appends that command's draw call.
pub proof fn lemma_plan_take_succ(cmds: Seq<DrawCommand>, o: DrawOptions, base: int, i: int)
    requires
        0 <= i < cmds.len(),
    ensures
        cmds[i].elem_count == 0 ==> plan_spec(cmds.take(i + 1), o, base) == plan_spec(
            cmds.take(i),
            o,
            base,
        ),
        cmds[i].elem_count > 0 ==> plan_spec(cmds.take(i + 1), o, base) == plan_spec(
            cmds.take(i),
            o,
            base,
        ).push(
            DrawCall {
                index_offset: (base + total_elems(cmds.take(i))) as u64,
                elem_count: cmds[i].elem_count,
                scissor: scissor_spec(cmds[i].clip, o),
                texture: cmds[i].texture,
            },
        ),
{
    assert(cmds.take(i + 1).drop_last() =~= cmds.take(i));
}

/// Extending a prefix of a plan by one call adds that call's element
/// count to the prefix's total.
pub proof fn lemma_total_call_elems_take_succ(plan: Seq<DrawCall>, i: int)
    requires
        0 <= i < plan.len(),
    ensures
        total_call_elems(plan.take(i + 1)) == total_call_elems(plan.take(i)) + plan[i].elem_count,
{
    assert(plan.take(i + 1).drop_last() =~= plan.take(i));
}

/// A plan prefix's total element count grows with the prefix.
pub proof fn lemma_total_call_elems_take_mono(plan: Seq<DrawCall>, i: int, j: int)
    requires
        0 <= i <= j <= plan.len(),
    ensures
        total_call_elems(plan.take(i)) <= total_call_elems(plan.take(j)),
    decreases j - i,
{
    if i < j {
        lemma_total_call_elems_take_succ(plan, i);
        lemma_total_call_elems_take_mono(plan, i + 1, j);
    }
}

/// Every drawn command has a positive element count.
pub proof fn lemma_drawn_commands_positive(cmds: Seq<DrawCommand>)
    ensures
        forall|k: int|
            0 <= k < drawn_commands(cmds).len() ==> #[trigger] drawn_commands(
                cmds,
            )[k].elem_count > 0,
    decreases cmds.len(),
{
    if cmds.len() > 0 {
        lemma_drawn_commands_positive(cmds.drop_last());
        let pre = drawn_commands(cmds.drop_last());
        assert forall|k: int|
            0 <= k < drawn_commands(cmds).len() implies #[trigger] drawn_commands(
            cmds,
        )[k].elem_count > 0 by {
            if k < pre.len() {
                assert(drawn_commands(cmds)[k] == pre[k]);
            }
        }
    }
}

/// Law: the plan holds exactly the commands with a positive element
/// count, in submission order — call `k` draws the `k`-th such command,
/// with its element count, its texture and the scissor bounds of its
/// clip rectangle. Commands with element count zero leave no trace.
pub proof fn lemma_plan_matches_drawn(cmds: Seq<DrawCommand>, o: DrawOptions, base: int)
    ensures
        plan_spec(cmds, o, base).len() == drawn_commands(cmds).len(),
        forall|k: int|
            0 <= k < plan_spec(cmds, o, base).len() ==> {
                let call = #[trigger] plan_spec(cmds, o, base)[k];
                let cmd = drawn_commands(cmds)[k];
                call.elem_count == cmd.elem_count && call.texture == cmd.texture && call.scissor
                    == scissor_spec(cmd.clip, o)
            },
    decreases cmds.len(),
{
    if cmds.len() > 0 {
        lemma_plan_matches_drawn(cmds.drop_last(), o, base);
    }
}

/// The plan's calls cover exactly the command list's total element
/// count.
pub proof fn lemma_plan_total(cmds: Seq<DrawCommand>, o: DrawOptions, base: int)
    ensures
        total_call_elems(plan_spec(cmds, o, base)) == total_elems(cmds),
    decreases cmds.len(),
{
    if cmds.len() > 0 {
        let pre = cmds.drop_last();
        lemma_plan_total(pre, o, base);
        if cmds.last().elem_count > 0 {
            let plan = plan_spec(cmds, o, base);
            assert(plan.drop_last() =~= plan_spec(pre, o, base));
        }
    }
}

/// Law: the index-buffer cursor is cumulative — the offset of call `k`
/// equals `base` plus the element counts of all calls before it, which
/// is also the total count of all commands before its source command,
/// since skipped commands count zero elements.
pub proof fn lemma_plan_offsets_cumulative(cmds: Seq<DrawCommand>, o: DrawOptions, base: int)
    requires
        0 <= base,
        base + total_elems(cmds) <= u64::MAX,
    ensures
        forall|k: int|
            0 <= k < plan_spec(cmds, o, base).len() ==> #[trigger] plan_spec(
                cmds,
                o,
                base,
            )[k].index_offset == base + total_call_elems(plan_spec(cmds, o, base).take(k)),
    decreases cmds.len(),
{
    if cmds.len() > 0 {
        let pre = cmds.drop_last();
        let plan = plan_spec(cmds, o, base);
        let plan_pre = plan_spec(pre, o, base);
        lemma_total_elems_nonneg(pre);
        lemma_plan_offsets_cumulative(pre, o, base);
        if cmds.last().elem_count > 0 {
            lemma_plan_total(pre, o, base);
            assert(plan.drop_last() =~= plan_pre);
            assert forall|k: int| 0 <= k < plan.len() implies #[trigger] plan[k].index_offset
                == base + total_call_elems(plan.take(k)) by {
                if k < plan_pre.len() {
                    assert(plan.take(k) =~= plan_pre.take(k));
                } else {
                    assert(plan.take(k) =~= plan_pre);
                }
            }
        }
    }
}

/// Law: no two calls of a plan read overlapping index ranges — an
/// earlier call's range ends at or before a later call's begins.
pub proof fn lemma_plan_ranges_disjoint(cmds: Seq<DrawCommand>, o: DrawOptions, base: int)
    requires
        0 <= base,
        base + total_elems(cmds) <= u64::MAX,
    ensures
        forall|i: int, j: int|
            0 <= i < j < plan_spec(cmds, o, base).len() ==> #[trigger] plan_spec(
                cmds,
                o,
                base,
            )[i].index_offset + plan_spec(cmds, o, base)[i].elem_count <= #[trigger] plan_spec(
                cmds,
                o,
                base,
            )[j].index_offset,
{
    let plan = plan_spec(cmds, o, base);
    lemma_plan_offsets_cumulative(cmds, o, base);
    assert forall|i: int, j: int| 0 <= i < j < plan.len() implies #[trigger] plan[i].index_offset
        + plan[i].elem_count <= #[trigger] plan[j].index_offset by {
        lemma_total_call_elems_take_succ(plan, i);
        lemma_total_call_elems_take_mono(plan, i + 1, j);
    }
}

/// The total element count of a command list, or nothing when it
/// exceeds the 64-bit index cursor.
pub fn checked_total(cmds: &Vec<DrawCommand>) -> (r: Option<u64>)
    ensures
        match r {
            Some(t) => t == total_elems(cmds@),
            None => total_elems(cmds@) > u64::MAX,
        },
{
    let mut cursor: u64 = 0;
    let mut i: usize = 0;
    proof {
        assert(cmds@.take(0) =~= Seq::<DrawCommand>::empty());
    }
    while i < cmds.len()
        invariant
            0 <= i <= cmds@.len(),
            cursor == total_elems(cmds@.take(i as int)),
        decreases cmds@.len() - i,
    {
        let c = cmds[i];
        proof {
            lemma_total_elems_take_succ(cmds@, i as int);
            lemma_total_elems_take_le(cmds@, i as int + 1);
        }
        if (c.elem_count as u64) > u64::MAX - cursor {
            return None;
        }
        cursor = cursor + c.elem_count as u64;
        i = i + 1;
    }
    proof {
        assert(cmds@.take(cmds@.len() as int) =~= cmds@);
    }
    Some(cursor)
}

/// Build the draw plan of a command list.
pub fn plan_draw(cmds: &Vec<DrawCommand>, o: &DrawOptions) -> (plan: Vec<DrawCall>)
    requires
        o.wf(),
        total_elems(cmds@) <= u64::MAX,
    ensures
        plan@ == plan_spec(cmds@, *o, 0),
{
    let mut plan: Vec<DrawCall> = Vec::new();
    let mut cursor: u64 = 0;
    let mut i: usize = 0;
    proof {
        assert(cmds@.take(0) =~= Seq::<DrawCommand>::empty());
    }
    while i < cmds.len()
        invariant
            0 <= i <= cmds@.len(),
            o.wf(),
            total_elems(cmds@) <= u64::MAX,
            cursor == total_elems(cmds@.take(i as int)),
            plan@ == plan_spec(cmds@.take(i as int), *o, 0),
        decreases cmds@.len() - i,
    {
        let c = cmds[i];
        proof {
            lemma_total_elems_take_succ(cmds@, i as int);
            lemma_total_elems_take_le(cmds@, i as int + 1);
            lemma_total_elems_nonneg(cmds@.take(i as int));
            lemma_plan_take_succ(cmds@, *o, 0, i as int);
        }
        if c.elem_count > 0 {
            let scissor = crate::clip::compute_scissor(&c.clip, o);
            plan.push(
                DrawCall {
                    index_offset: cursor,
                    elem_count: c.elem_count,
                    scissor,
                    texture: c.texture,
                },
            );
        }
        cursor = cursor + c.elem_count as u64;
        i = i + 1;
    }
    proof {
        assert(cmds@.take(cmds@.len() as int) =~= cmds@);
    }
    plan
}

} // verus!
