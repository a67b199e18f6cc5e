//! Commands of a compute pass and the descriptors a compute pipeline is
//! built from, as plain values.

use vstd::prelude::*;
use crate::bind_group_layout_descriptors::BindGroupLayoutKind;

verus! {

/// One command recorded into a compute pass.
#[derive(Clone, Copy, Debug, PartialEq, Eq, Structural)]
pub enum ComputeCommand {
    /// Make the pipeline of the pass current.
    SetPipeline,
    /// Bind the bind group of the named layout at `slot`.
    SetBindGroup { slot: u32, group: BindGroupLayoutKind },
    /// Dispatch a grid of `x` by `y` by `z` workgroups.
    DispatchWorkgroups { x: u32, y: u32, z: u32 },
}

/// A pipeline layout: the bind-group layouts in slot order.
#[derive(Debug, PartialEq, Eq)]
pub struct PipelineLayoutDescriptor {
    pub label: &'static str,
    pub bind_group_layouts: Vec<BindGroupLayoutKind>,
}

/// A compute pipeline: its layout and the entry point of its shader.
#[derive(Debug, PartialEq, Eq)]
pub struct ComputePipelineDescriptor {
    pub label: &'static str,
    pub layout: PipelineLayoutDescriptor,
    pub entry_point: &'static str,
}

/// A bind command agrees with a layout when its slot exists in the layout
/// and the layout names the same bind group at that slot. Other commands
/// agree with every layout.
pub open spec fn bind_agrees(command: ComputeCommand, layout: Seq<BindGroupLayoutKind>) -> bool {
    match command {
        ComputeCommand::SetBindGroup { slot, group } => {
            slot < layout.len() && layout[slot as int] == group
        },
        _ => true,
    }
}

/// The command binds something at `slot`.
pub open spec fn binds_slot(command: ComputeCommand, slot: int) -> bool {
    match command {
        ComputeCommand::SetBindGroup { slot: bound, .. } => bound as int == slot,
        _ => false,
    }
}

/// Some command of the list binds something at `slot`.
pub open spec fn slot_is_bound(commands: Seq<ComputeCommand>, slot: int) -> bool {
    exists|i: int| 0 <= i < commands.len() && binds_slot(#[trigger] commands[i], slot)
}

/// The binds of a command list match a pipeline layout one for one: every
/// bind agrees with the layout, every slot of the layout is bound, and no
/// slot is bound twice.
pub open spec fn commands_match_layout(
    commands: Seq<ComputeCommand>,
    layout: Seq<BindGroupLayoutKind>,
) -> bool {
    &&& forall|i: int| 0 <= i < commands.len() ==> bind_agrees(#[trigger] commands[i], layout)
    &&& forall|s: int| 0 <= s < layout.len() ==> #[trigger] slot_is_bound(commands, s)
    &&& forall|i: int, j: int, s: int|
        0 <= i < j < commands.len() && #[trigger] binds_slot(commands[i], s) && #[trigger] binds_slot(
            commands[j],
            s,
        ) ==> false
}

/// A slot is bound in a list with one more command exactly when it was
/// bound before or the new command binds it.
proof fn lemma_slot_is_bound_push(commands: Seq<ComputeCommand>, command: ComputeCommand, slot: int)
    ensures
        slot_is_bound(commands.push(command), slot) <==> slot_is_bound(commands, slot) || binds_slot(
            command,
            slot,
        ),
{
    let longer = commands.push(command);
    if slot_is_bound(commands, slot) {
        let i: int = choose|i: int| 0 <= i < commands.len() && binds_slot(#[trigger] commands[i], slot);
        assert(binds_slot(longer[i], slot));
    }
    if binds_slot(command, slot) {
        assert(binds_slot(longer[commands.len() as int], slot));
    }
    if slot_is_bound(longer, slot) {
        let i: int = choose|i: int| 0 <= i < longer.len() && binds_slot(#[trigger] longer[i], slot);
        if i < commands.len() {
            assert(binds_slot(commands[i], slot));
        }
    }
}

/// The first `n` commands agree with the layout and bind no slot twice.
spec fn prefix_is_consistent(
    commands: Seq<ComputeCommand>,
    layout: Seq<BindGroupLayoutKind>,
    n: int,
) -> bool {
    &&& forall|i: int| 0 <= i < n ==> bind_agrees(#[trigger] commands[i], layout)
    &&& forall|i: int, j: int, s: int|
        0 <= i < j < n && #[trigger] binds_slot(commands[i], s) && #[trigger] binds_slot(
            commands[j],
            s,
        ) ==> false
}

/// Cross-checks a recorded command list against the layout its pipeline was
/// built with.
pub fn check_commands_match_layout(
    commands: &Vec<ComputeCommand>,
    layout: &Vec<BindGroupLayoutKind>,
) -> (ok: bool)
    ensures
        ok == commands_match_layout(commands@, layout@),
{
    // Which slots of the layout the commands seen so far have bound.
    let mut bound: Vec<bool> = Vec::new();
    let mut k: usize = 0;
    while k < layout.len()
        invariant
            k <= layout.len(),
            bound.len() == k,
            forall|s: int| 0 <= s < k ==> !bound@[s],
        decreases layout.len() - k,
    {
        bound.push(false);
        k += 1;
    }
    let mut i: usize = 0;
    while i < commands.len()
        invariant
            i <= commands.len(),
            bound.len() == layout.len(),
            prefix_is_consistent(commands@, layout@, i as int),
            forall|s: int|
                0 <= s < layout.len() ==> bound@[s] == slot_is_bound(commands@.take(i as int), s),
        decreases commands.len() - i,
    {
        let command = commands[i];
        let ghost bound_before = bound@;
        proof {
            assert(commands@.take(i + 1) =~= commands@.take(i as int).push(command));
            assert forall|s: int| 0 <= s < layout.len() implies #[trigger] slot_is_bound(
                commands@.take(i + 1),
                s,
            ) == (bound_before[s] || binds_slot(command, s)) by {
                lemma_slot_is_bound_push(commands@.take(i as int), command, s);
            }
        }
        match command {
            ComputeCommand::SetBindGroup { slot, group } => {
                let s: usize = slot as usize;
                if s >= layout.len() || layout[s] != group {
                    assert(!bind_agrees(commands@[i as int], layout@));
                    return false;
                }
                if bound[s] {
                    proof {
                        let earlier = commands@.take(i as int);
                        let a: int = choose|a: int|
                            0 <= a < earlier.len() && binds_slot(#[trigger] earlier[a], s as int);
                        assert(binds_slot(commands@[a], s as int));
                        assert(binds_slot(commands@[i as int], s as int));
                    }
                    return false;
                }
                bound.set(s, true);
                proof {
                    assert forall|a: int, t: int|
                        0 <= a < i && #[trigger] binds_slot(commands@[a], t) && binds_slot(
                            command,
                            t,
                        ) implies false by {
                        assert(binds_slot(commands@.take(i as int)[a], t));
                    }
                }
            },
            _ => {},
        }
        i += 1;
    }
    assert(commands@.take(i as int) =~= commands@);
    let mut s: usize = 0;
    while s < bound.len()
        invariant
            s <= bound.len(),
            bound.len() == layout.len(),
            prefix_is_consistent(commands@, layout@, commands@.len() as int),
            forall|t: int| 0 <= t < s ==> slot_is_bound(commands@, t),
            forall|t: int| 0 <= t < layout.len() ==> bound@[t] == slot_is_bound(commands@, t),
        decreases bound.len() - s,
    {
        if !bound[s] {
            assert(!slot_is_bound(commands@, s as int));
            return false;
        }
        s += 1;
    }
    true
}

} // verus!
