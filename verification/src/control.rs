use vstd::prelude::*;

verus! {

/// The kind of a structured control region.
#[derive(Clone, Copy, Debug, PartialEq, Eq, Structural)]
pub enum ControlBlockType {
    Block,
    Loop,
    If,
}

/// One frame of the control stack: an open block, loop or if.
#[derive(Clone, Copy, Debug, PartialEq, Eq, Structural)]
pub struct ControlBlock {
    pub block_type: ControlBlockType,
    /// The block in which control goes on after the region.
    pub end_block: usize,
    /// For a loop its header, for an if its else-region.
    pub continue_block: Option<usize>,
}

impl ControlBlock {
    /// The block that a branch to this frame leads to: the header of a loop,
    /// the end of any other region.
    pub open spec fn branch_target(self) -> usize {
        match (self.block_type, self.continue_block) {
            (ControlBlockType::Loop, Some(header)) => header,
            _ => self.end_block,
        }
    }

    /// The block that a branch to this frame leads to.
    pub fn target(&self) -> (block: usize)
        ensures
            block == self.branch_target(),
    {
        match (self.block_type, self.continue_block) {
            (ControlBlockType::Loop, Some(header)) => header,
            _ => self.end_block,
        }
    }
}

/// Where a branch of relative depth `depth` leads, with `frames` open, the
/// outermost first: to the frame `depth` places below the innermost one.
/// There is no target where fewer than `depth + 1` frames are open.
pub open spec fn branch_target_at(frames: Seq<ControlBlock>, depth: u32) -> Option<usize> {
    if depth < frames.len() {
        Some(frames[frames.len() - 1 - depth].branch_target())
    } else {
        None
    }
}

/// Resolves a branch by its relative depth, 0 being the innermost frame.
pub fn get_branch_target(control_stack: &Vec<ControlBlock>, relative_depth: u32) -> (target:
    Option<usize>)
    ensures
        target == branch_target_at(control_stack@, relative_depth),
{
    let depth = relative_depth as usize;
    if depth < control_stack.len() {
        let target_idx = control_stack.len() - 1 - depth;
        Some(control_stack[target_idx].target())
    } else {
        None
    }
}

} // verus!
