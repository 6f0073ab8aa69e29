//! Evaluation dispatch: the geometry of each bulk evaluation call and
//! the exact output buffer length it owes.
//!
//! Every entry point validates its geometry and produces an evaluation
//! plan; the caller allocates a buffer of exactly the plan's output
//! length, performs the engine call the plan describes, and reads the
//! values and the engine's (minimum, maximum) pair back. Deriving the
//! buffer length here, from the validated geometry alone, is what makes
//! a length mismatch at the engine boundary impossible by construction.
//! Floats (coordinates, offsets, frequency) travel as the raw bits of
//! the 32-bit values the engine will receive.

use vstd::prelude::*;
use crate::node::FastNoise;

verus! {

/// Why an evaluation could not be planned.
#[derive(Clone, Copy, PartialEq, Eq, Structural, Debug)]
pub enum EvalError {
    /// The product of the per-axis sizes does not fit the address space,
    /// or a count cannot travel to the engine as a signed 32-bit number.
    OutputTooLarge,
}

/// The engine call one evaluation plan stands for, with its geometry and
/// seed. Scattered-position calls carry the validated position count;
/// the caller passes its coordinate arrays, of exactly that length,
/// alongside.
#[derive(Clone, Copy, PartialEq, Eq, Structural, Debug)]
pub enum EvalCall {
    /// One sample at a 2-D point.
    Single2d { x_bits: u32, y_bits: u32, seed: i32 },
    /// One sample at a 3-D point.
    Single3d { x_bits: u32, y_bits: u32, z_bits: u32, seed: i32 },
    /// One sample at a 4-D point.
    Single4d { x_bits: u32, y_bits: u32, z_bits: u32, w_bits: u32, seed: i32 },
    /// A dense 2-D grid, row-major, x varying fastest.
    UniformGrid2d { xstart: i32, ystart: i32, xsize: i32, ysize: i32, frequency_bits: u32, seed: i32 },
    /// A dense 3-D grid, row-major, x varying fastest.
    UniformGrid3d {
        xstart: i32,
        ystart: i32,
        zstart: i32,
        xsize: i32,
        ysize: i32,
        zsize: i32,
        frequency_bits: u32,
        seed: i32,
    },
    /// A dense 4-D grid, row-major, x varying fastest.
    UniformGrid4d {
        xstart: i32,
        ystart: i32,
        zstart: i32,
        wstart: i32,
        xsize: i32,
        ysize: i32,
        zsize: i32,
        wsize: i32,
        frequency_bits: u32,
        seed: i32,
    },
    /// A seamlessly tileable 2-D grid.
    TileableGrid2d { xsize: i32, ysize: i32, frequency_bits: u32, seed: i32 },
    /// Scattered 2-D positions: one sample per position.
    PositionArray2d { count: i32, xoffset_bits: u32, yoffset_bits: u32, seed: i32 },
    /// Scattered 3-D positions: one sample per position.
    PositionArray3d { count: i32, xoffset_bits: u32, yoffset_bits: u32, zoffset_bits: u32, seed: i32 },
    /// Scattered 4-D positions: one sample per position.
    PositionArray4d {
        count: i32,
        xoffset_bits: u32,
        yoffset_bits: u32,
        zoffset_bits: u32,
        woffset_bits: u32,
        seed: i32,
    },
}

/// One planned evaluation: the node to evaluate, the engine call to
/// perform, and the exact number of output values the engine will write
/// (the caller sizes its buffer to exactly this).
#[derive(Clone, Copy, PartialEq, Eq, Structural, Debug)]
pub struct EvalPlan {
    pub node: u64,
    pub output_len: usize,
    pub call: EvalCall,
}

impl FastNoise {
    /// Plans one sample at a 2-D point.
    pub fn gen_single_2d(&self, x_bits: u32, y_bits: u32, seed: i32) -> (p: EvalPlan)
        ensures
            p.node == self.spec_handle(),
            p.output_len == 1,
            p.call == (EvalCall::Single2d { x_bits, y_bits, seed }),
    {
        EvalPlan {
            node: self.handle(),
            output_len: 1,
            call: EvalCall::Single2d { x_bits, y_bits, seed },
        }
    }

    /// Plans one sample at a 3-D point.
    pub fn gen_single_3d(&self, x_bits: u32, y_bits: u32, z_bits: u32, seed: i32) -> (p: EvalPlan)
        ensures
            p.node == self.spec_handle(),
            p.output_len == 1,
            p.call == (EvalCall::Single3d { x_bits, y_bits, z_bits, seed }),
    {
        EvalPlan {
            node: self.handle(),
            output_len: 1,
            call: EvalCall::Single3d { x_bits, y_bits, z_bits, seed },
        }
    }

    /// Plans one sample at a 4-D point.
    pub fn gen_single_4d(&self, x_bits: u32, y_bits: u32, z_bits: u32, w_bits: u32, seed: i32) -> (p:
        EvalPlan)
        ensures
            p.node == self.spec_handle(),
            p.output_len == 1,
            p.call == (EvalCall::Single4d { x_bits, y_bits, z_bits, w_bits, seed }),
    {
        EvalPlan {
            node: self.handle(),
            output_len: 1,
            call: EvalCall::Single4d { x_bits, y_bits, z_bits, w_bits, seed },
        }
    }

    /// Plans a dense 2-D grid evaluation: the output holds exactly
    /// `xsize * ysize` values, row-major, x varying fastest. Fails when
    /// that product cannot be addressed or a size cannot travel to the
    /// engine as a signed 32-bit count.
    pub fn gen_uniform_grid_2d(
        &self,
        xstart: i32,
        ystart: i32,
        xsize: usize,
        ysize: usize,
        frequency_bits: u32,
        seed: i32,
    ) -> (r: Result<EvalPlan, EvalError>)
        ensures
            match r {
                Ok(p) => xsize <= 0x7fff_ffff && ysize <= 0x7fff_ffff && xsize * ysize
                    <= usize::MAX && p.node == self.spec_handle() && p.output_len == xsize * ysize
                    && p.call == (EvalCall::UniformGrid2d {
                    xstart,
                    ystart,
                    xsize: xsize as i32,
                    ysize: ysize as i32,
                    frequency_bits,
                    seed,
                }),
                Err(e) => e == EvalError::OutputTooLarge && (xsize > 0x7fff_ffff || ysize
                    > 0x7fff_ffff || xsize * ysize > usize::MAX),
            },
    {
        if xsize > 0x7fff_ffff || ysize > 0x7fff_ffff {
            return Err(EvalError::OutputTooLarge);
        }
        match xsize.checked_mul(ysize) {
            Some(len) => Ok(
                EvalPlan {
                    node: self.handle(),
                    output_len: len,
                    call: EvalCall::UniformGrid2d {
                        xstart,
                        ystart,
                        xsize: xsize as i32,
                        ysize: ysize as i32,
                        frequency_bits,
                        seed,
                    },
                },
            ),
            None => Err(EvalError::OutputTooLarge),
        }
    }

    /// Plans a dense 3-D grid evaluation: the output holds exactly
    /// `xsize * ysize * zsize` values, row-major, x varying fastest.
    pub fn gen_uniform_grid_3d(
        &self,
        xstart: i32,
        ystart: i32,
        zstart: i32,
        xsize: usize,
        ysize: usize,
        zsize: usize,
        frequency_bits: u32,
        seed: i32,
    ) -> (r: Result<EvalPlan, EvalError>)
        ensures
            match r {
                Ok(p) => xsize <= 0x7fff_ffff && ysize <= 0x7fff_ffff && zsize <= 0x7fff_ffff
                    && xsize * ysize * zsize <= usize::MAX && p.node == self.spec_handle()
                    && p.output_len == xsize * ysize * zsize && p.call == (
                EvalCall::UniformGrid3d {
                    xstart,
                    ystart,
                    zstart,
                    xsize: xsize as i32,
                    ysize: ysize as i32,
                    zsize: zsize as i32,
                    frequency_bits,
                    seed,
                }),
                Err(e) => e == EvalError::OutputTooLarge && (xsize > 0x7fff_ffff || ysize
                    > 0x7fff_ffff || zsize > 0x7fff_ffff || xsize * ysize > usize::MAX || xsize
                    * ysize * zsize > usize::MAX),
            },
    {
        if xsize > 0x7fff_ffff || ysize > 0x7fff_ffff || zsize > 0x7fff_ffff {
            return Err(EvalError::OutputTooLarge);
        }
        let xy = match xsize.checked_mul(ysize) {
            Some(xy) => xy,
            None => {
                return Err(EvalError::OutputTooLarge);
            },
        };
        match xy.checked_mul(zsize) {
            Some(len) => Ok(
                EvalPlan {
                    node: self.handle(),
                    output_len: len,
                    call: EvalCall::UniformGrid3d {
                        xstart,
                        ystart,
                        zstart,
                        xsize: xsize as i32,
                        ysize: ysize as i32,
                        zsize: zsize as i32,
                        frequency_bits,
                        seed,
                    },
                },
            ),
            None => Err(EvalError::OutputTooLarge),
        }
    }

    /// Plans a dense 4-D grid evaluation: the output holds exactly
    /// `xsize * ysize * zsize * wsize` values, row-major, x varying
    /// fastest.
    pub fn gen_uniform_grid_4d(
        &self,
        xstart: i32,
        ystart: i32,
        zstart: i32,
        wstart: i32,
        xsize: usize,
        ysize: usize,
        zsize: usize,
        wsize: usize,
        frequency_bits: u32,
        seed: i32,
    ) -> (r: Result<EvalPlan, EvalError>)
        ensures
            match r {
                Ok(p) => xsize <= 0x7fff_ffff && ysize <= 0x7fff_ffff && zsize <= 0x7fff_ffff
                    && wsize <= 0x7fff_ffff && xsize * ysize * zsize * wsize <= usize::MAX
                    && p.node == self.spec_handle() && p.output_len == xsize * ysize * zsize
                    * wsize && p.call == (EvalCall::UniformGrid4d {
                    xstart,
                    ystart,
                    zstart,
                    wstart,
                    xsize: xsize as i32,
                    ysize: ysize as i32,
                    zsize: zsize as i32,
                    wsize: wsize as i32,
                    frequency_bits,
                    seed,
                }),
                Err(e) => e == EvalError::OutputTooLarge && (xsize > 0x7fff_ffff || ysize
                    > 0x7fff_ffff || zsize > 0x7fff_ffff || wsize > 0x7fff_ffff || xsize * ysize
                    > usize::MAX || xsize * ysize * zsize > usize::MAX || xsize * ysize * zsize
                    * wsize > usize::MAX),
            },
    {
        if xsize > 0x7fff_ffff || ysize > 0x7fff_ffff || zsize > 0x7fff_ffff || wsize
            > 0x7fff_ffff {
            return Err(EvalError::OutputTooLarge);
        }
        let xy = match xsize.checked_mul(ysize) {
            Some(xy) => xy,
            None => {
                return Err(EvalError::OutputTooLarge);
            },
        };
        let xyz = match xy.checked_mul(zsize) {
            Some(xyz) => xyz,
            None => {
                return Err(EvalError::OutputTooLarge);
            },
        };
        match xyz.checked_mul(wsize) {
            Some(len) => Ok(
                EvalPlan {
                    node: self.handle(),
                    output_len: len,
                    call: EvalCall::UniformGrid4d {
                        xstart,
                        ystart,
                        zstart,
                        wstart,
                        xsize: xsize as i32,
                        ysize: ysize as i32,
                        zsize: zsize as i32,
                        wsize: wsize as i32,
                        frequency_bits,
                        seed,
                    },
                },
            ),
            None => Err(EvalError::OutputTooLarge),
        }
    }

    /// Plans a seamlessly tileable 2-D grid evaluation: the output holds
    /// exactly `xsize * ysize` values sized for seamless wraparound
    /// tiling.
    pub fn gen_tileble_grid_2d(
        &self,
        xsize: usize,
        ysize: usize,
        frequency_bits: u32,
        seed: i32,
    ) -> (r: Result<EvalPlan, EvalError>)
        ensures
            match r {
                Ok(p) => xsize <= 0x7fff_ffff && ysize <= 0x7fff_ffff && xsize * ysize
                    <= usize::MAX && p.node == self.spec_handle() && p.output_len == xsize * ysize
                    && p.call == (EvalCall::TileableGrid2d {
                    xsize: xsize as i32,
                    ysize: ysize as i32,
                    frequency_bits,
                    seed,
                }),
                Err(e) => e == EvalError::OutputTooLarge && (xsize > 0x7fff_ffff || ysize
                    > 0x7fff_ffff || xsize * ysize > usize::MAX),
            },
    {
        if xsize > 0x7fff_ffff || ysize > 0x7fff_ffff {
            return Err(EvalError::OutputTooLarge);
        }
        match xsize.checked_mul(ysize) {
            Some(len) => Ok(
                EvalPlan {
                    node: self.handle(),
                    output_len: len,
                    call: EvalCall::TileableGrid2d {
                        xsize: xsize as i32,
                        ysize: ysize as i32,
                        frequency_bits,
                        seed,
                    },
                },
            ),
            None => Err(EvalError::OutputTooLarge),
        }
    }

    /// Plans a scattered 2-D position evaluation: one output value per
    /// input position. The coordinate arrays must be of equal length —
    /// a documented obligation of the engine's call surface — and the
    /// plan's output length is exactly that shared length.
    pub fn gen_position_array_2d(
        &self,
        xpos: &Vec<u32>,
        ypos: &Vec<u32>,
        xoffset_bits: u32,
        yoffset_bits: u32,
        seed: i32,
    ) -> (r: Result<EvalPlan, EvalError>)
        requires
            xpos@.len() == ypos@.len(),
        ensures
            match r {
                Ok(p) => xpos@.len() <= 0x7fff_ffff && p.node == self.spec_handle()
                    && p.output_len == xpos@.len() && p.call == (EvalCall::PositionArray2d {
                    count: xpos@.len() as i32,
                    xoffset_bits,
                    yoffset_bits,
                    seed,
                }),
                Err(e) => e == EvalError::OutputTooLarge && xpos@.len() > 0x7fff_ffff,
            },
    {
        let count = xpos.len();
        if count > 0x7fff_ffff {
            return Err(EvalError::OutputTooLarge);
        }
        Ok(
            EvalPlan {
                node: self.handle(),
                output_len: count,
                call: EvalCall::PositionArray2d {
                    count: count as i32,
                    xoffset_bits,
                    yoffset_bits,
                    seed,
                },
            },
        )
    }

    /// Plans a scattered 3-D position evaluation: one output value per
    /// input position; the three coordinate arrays must be of equal
    /// length.
    pub fn gen_position_array_3d(
        &self,
        xpos: &Vec<u32>,
        ypos: &Vec<u32>,
        zpos: &Vec<u32>,
        xoffset_bits: u32,
        yoffset_bits: u32,
        zoffset_bits: u32,
        seed: i32,
    ) -> (r: Result<EvalPlan, EvalError>)
        requires
            xpos@.len() == ypos@.len(),
            xpos@.len() == zpos@.len(),
        ensures
            match r {
                Ok(p) => xpos@.len() <= 0x7fff_ffff && p.node == self.spec_handle()
                    && p.output_len == xpos@.len() && p.call == (EvalCall::PositionArray3d {
                    count: xpos@.len() as i32,
                    xoffset_bits,
                    yoffset_bits,
                    zoffset_bits,
                    seed,
                }),
                Err(e) => e == EvalError::OutputTooLarge && xpos@.len() > 0x7fff_ffff,
            },
    {
        let count = xpos.len();
        if count > 0x7fff_ffff {
            return Err(EvalError::OutputTooLarge);
        }
        Ok(
            EvalPlan {
                node: self.handle(),
                output_len: count,
                call: EvalCall::PositionArray3d {
                    count: count as i32,
                    xoffset_bits,
                    yoffset_bits,
                    zoffset_bits,
                    seed,
                },
            },
        )
    }

    /// Plans a scattered 4-D position evaluation: one output value per
    /// input position; the four coordinate arrays must be of equal
    /// length.
    pub fn gen_position_array_4d(
        &self,
        xpos: &Vec<u32>,
        ypos: &Vec<u32>,
        zpos: &Vec<u32>,
        wpos: &Vec<u32>,
        xoffset_bits: u32,
        yoffset_bits: u32,
        zoffset_bits: u32,
        woffset_bits: u32,
        seed: i32,
    ) -> (r: Result<EvalPlan, EvalError>)
        requires
            xpos@.len() == ypos@.len(),
            xpos@.len() == zpos@.len(),
            xpos@.len() == wpos@.len(),
        ensures
            match r {
                Ok(p) => xpos@.len() <= 0x7fff_ffff && p.node == self.spec_handle()
                    && p.output_len == xpos@.len() && p.call == (EvalCall::PositionArray4d {
                    count: xpos@.len() as i32,
                    xoffset_bits,
                    yoffset_bits,
                    zoffset_bits,
                    woffset_bits,
                    seed,
                }),
                Err(e) => e == EvalError::OutputTooLarge && xpos@.len() > 0x7fff_ffff,
            },
    {
        let count = xpos.len();
        if count > 0x7fff_ffff {
            return Err(EvalError::OutputTooLarge);
        }
        Ok(
            EvalPlan {
                node: self.handle(),
                output_len: count,
                call: EvalCall::PositionArray4d {
                    count: count as i32,
                    xoffset_bits,
                    yoffset_bits,
                    zoffset_bits,
                    woffset_bits,
                    seed,
                },
            },
        )
    }
}

} // verus!
