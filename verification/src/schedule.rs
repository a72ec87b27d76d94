//! Ping-pong scheduling of the generations over two GPU buffers, and the
//! size of the work handed to the GPU.

use vstd::prelude::*;

verus! {

broadcast use vstd::layout::layout_of_primitives;

/// Number of columns of the simulated grid.
pub const WIDTH: usize = 1204;

/// Number of rows of the simulated grid.
pub const HEIGHT: usize = 1204;

/// Number of generations the simulation runs.
pub const ITERATIONS: i32 = 100000;

/// Columns of cells handled by one GPU workgroup (the shader's
/// `@workgroup_size(16, 16)`).
pub const WORKGROUP_SIZE_X: u32 = 16;

/// Rows of cells handled by one GPU workgroup.
pub const WORKGROUP_SIZE_Y: u32 = 16;

/// One of the two GPU buffers that hold a generation of the grid.
#[derive(PartialEq, Eq, Structural, Clone, Copy, Debug)]
pub enum GridBuffer {
    /// The buffer that receives the initial grid.
    A,
    /// The other buffer.
    B,
}

/// The bind group of a generation step: which buffer the shader reads the
/// current generation from, and which it writes the next one to.
#[derive(PartialEq, Eq, Structural, Clone, Copy, Debug)]
pub enum Pass {
    /// Read buffer A, write buffer B.
    AToB,
    /// Read buffer B, write buffer A.
    BToA,
}

impl Pass {
    /// The buffer this pass reads.
    pub open spec fn reads(self) -> GridBuffer {
        match self {
            Pass::AToB => GridBuffer::A,
            Pass::BToA => GridBuffer::B,
        }
    }

    /// The buffer this pass writes.
    pub open spec fn writes(self) -> GridBuffer {
        match self {
            Pass::AToB => GridBuffer::B,
            Pass::BToA => GridBuffer::A,
        }
    }
}

/// The pass of iteration `iteration`: even iterations read A and write B,
/// odd ones read B and write A.
pub open spec fn pass_at(iteration: int) -> Pass {
    if iteration % 2 == 0 {
        Pass::AToB
    } else {
        Pass::BToA
    }
}

/// The buffer read back after `iterations` iterations: A after an even
/// count, B after an odd one.
pub open spec fn readback_buffer(iterations: int) -> GridBuffer {
    if iterations % 2 == 0 {
        GridBuffer::A
    } else {
        GridBuffer::B
    }
}

/// The buffer that holds generation `n`: the initial grid (generation 0) is
/// uploaded to A, and iteration `k` writes generation `k + 1` where its pass
/// writes.
pub open spec fn generation_buffer(n: nat) -> GridBuffer {
    if n == 0 {
        GridBuffer::A
    } else {
        pass_at(n - 1).writes()
    }
}

/// The bind group to use for iteration `iteration` (iterations are numbered
/// from 0).
pub fn pass_for_iteration(iteration: i32) -> (pass: Pass)
    ensures
        pass == pass_at(iteration as int),
        pass.reads() != pass.writes(),
{
    if iteration % 2 == 0 {
        Pass::AToB
    } else {
        Pass::BToA
    }
}

/// The buffer that holds the grid once `iterations` iterations have run.
pub fn buffer_after(iterations: i32) -> (buffer: GridBuffer)
    ensures
        buffer == readback_buffer(iterations as int),
{
    if iterations % 2 == 0 {
        GridBuffer::A
    } else {
        GridBuffer::B
    }
}

/// Every iteration reads the generation that the one before it produced
/// (the first reads the uploaded grid), and writes the other buffer, so no
/// generation is read and overwritten in one pass.
pub proof fn lemma_iterations_chain(n: nat)
    ensures
        pass_at(n as int).reads() == generation_buffer(n),
        pass_at(n as int).writes() == generation_buffer(n + 1),
        generation_buffer(n + 1) != generation_buffer(n),
{
}

/// After `n` iterations the readback takes the buffer that holds the latest
/// generation, generation `n` (the initial grid when no iteration ran).
pub proof fn lemma_readback_is_latest_generation(n: nat)
    ensures
        readback_buffer(n as int) == generation_buffer(n),
{
}

/// Number of workgroups that cover `extent` cells along one axis, with
/// `workgroup_size` cells per workgroup: the count rounded up, so that every
/// cell is handled and no workgroup lies wholly outside the grid.
pub fn workgroup_count(extent: u32, workgroup_size: u32) -> (count: u32)
    requires
        workgroup_size > 0,
        extent + workgroup_size <= u32::MAX,
    ensures
        count == (extent + workgroup_size - 1) / workgroup_size as int,
        count * workgroup_size >= extent,
        count * workgroup_size < extent + workgroup_size,
{
    let count = (extent + workgroup_size - 1) / workgroup_size;
    proof {
        let s = extent + workgroup_size - 1;
        vstd::arithmetic::div_mod::lemma_fundamental_div_mod(s as int, workgroup_size as int);
        assert(count * workgroup_size >= extent && count * workgroup_size < extent + workgroup_size)
            by (nonlinear_arith)
            requires
                s == extent + workgroup_size - 1,
                s == workgroup_size * (s / workgroup_size as int) + s % workgroup_size as int,
                0 <= s % (workgroup_size as int) < workgroup_size,
                count == s / workgroup_size as int,
        ;
    }
    count
}

/// Size in bytes of a GPU buffer holding `cell_count` cells of type `i32`.
pub fn grid_buffer_size(cell_count: usize) -> (size: u64)
    requires
        cell_count * 4 <= usize::MAX,
    ensures
        size == cell_count * 4,
{
    (cell_count * core::mem::size_of::<i32>()) as u64
}

} // verus!
