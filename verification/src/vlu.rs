//! VLU-24 job surface: the job descriptions, the register-index rules,
//! and the errors the coprocessor raises for out-of-range registers.
//!
//! The arithmetic itself runs on the host's floating-point unit outside
//! this library; `check_job` pins exactly which jobs the coprocessor
//! accepts, in the order the registers are examined.

use vstd::prelude::*;

verus! {

pub const VECTOR_REGISTER_COUNT: usize = 8;
pub const MATRIX_REGISTER_COUNT: usize = 4;

/// Job description supplied to the VLU.
#[derive(Debug, Clone, Copy, PartialEq, Eq, Structural)]
pub enum VluJob {
    /// Apply matrix `matrix` to vector `vec`, writing into `dest`.
    Transform { dest: usize, vec: usize, matrix: usize },
    /// Dot product of vectors `a` and `b`.
    Dot { a: usize, b: usize },
    /// Cross product `a` x `b`, stored into `dest`.
    Cross { dest: usize, a: usize, b: usize },
    /// Normalise vector `src` into `dest`.
    Normalize { dest: usize, src: usize },
}

/// VLU errors: a job named a register outside its file.
#[derive(Debug, Clone, Copy, PartialEq, Eq, Structural)]
pub enum VluError {
    InvalidVectorRegister(usize),
    InvalidMatrixRegister(usize),
}

/// The register check each job undergoes before it runs, with the
/// source operands examined before the destination.
pub open spec fn spec_check_job(job: VluJob) -> Result<(), VluError> {
    match job {
        VluJob::Transform { dest, vec, matrix } => {
            if vec >= VECTOR_REGISTER_COUNT {
                Err(VluError::InvalidVectorRegister(vec))
            } else if matrix >= MATRIX_REGISTER_COUNT {
                Err(VluError::InvalidMatrixRegister(matrix))
            } else if dest >= VECTOR_REGISTER_COUNT {
                Err(VluError::InvalidVectorRegister(dest))
            } else {
                Ok(())
            }
        },
        VluJob::Dot { a, b } => {
            if a >= VECTOR_REGISTER_COUNT {
                Err(VluError::InvalidVectorRegister(a))
            } else if b >= VECTOR_REGISTER_COUNT {
                Err(VluError::InvalidVectorRegister(b))
            } else {
                Ok(())
            }
        },
        VluJob::Cross { dest, a, b } => {
            if a >= VECTOR_REGISTER_COUNT {
                Err(VluError::InvalidVectorRegister(a))
            } else if b >= VECTOR_REGISTER_COUNT {
                Err(VluError::InvalidVectorRegister(b))
            } else if dest >= VECTOR_REGISTER_COUNT {
                Err(VluError::InvalidVectorRegister(dest))
            } else {
                Ok(())
            }
        },
        VluJob::Normalize { dest, src } => {
            if src >= VECTOR_REGISTER_COUNT {
                Err(VluError::InvalidVectorRegister(src))
            } else if dest >= VECTOR_REGISTER_COUNT {
                Err(VluError::InvalidVectorRegister(dest))
            } else {
                Ok(())
            }
        },
    }
}

/// Accept a job exactly when every register it names lies in range,
/// reporting the first offender in examination order.
pub fn check_job(job: &VluJob) -> (r: Result<(), VluError>)
    ensures
        r == spec_check_job(*job),
        r is Ok <==> match *job {
            VluJob::Transform { dest, vec, matrix } => dest < VECTOR_REGISTER_COUNT && vec
                < VECTOR_REGISTER_COUNT && matrix < MATRIX_REGISTER_COUNT,
            VluJob::Dot { a, b } => a < VECTOR_REGISTER_COUNT && b < VECTOR_REGISTER_COUNT,
            VluJob::Cross { dest, a, b } => dest < VECTOR_REGISTER_COUNT && a
                < VECTOR_REGISTER_COUNT && b < VECTOR_REGISTER_COUNT,
            VluJob::Normalize { dest, src } => dest < VECTOR_REGISTER_COUNT && src
                < VECTOR_REGISTER_COUNT,
        },
{
    match *job {
        VluJob::Transform { dest, vec, matrix } => {
            if vec >= VECTOR_REGISTER_COUNT {
                Err(VluError::InvalidVectorRegister(vec))
            } else if matrix >= MATRIX_REGISTER_COUNT {
                Err(VluError::InvalidMatrixRegister(matrix))
            } else if dest >= VECTOR_REGISTER_COUNT {
                Err(VluError::InvalidVectorRegister(dest))
            } else {
                Ok(())
            }
        },
        VluJob::Dot { a, b } => {
            if a >= VECTOR_REGISTER_COUNT {
                Err(VluError::InvalidVectorRegister(a))
            } else if b >= VECTOR_REGISTER_COUNT {
                Err(VluError::InvalidVectorRegister(b))
            } else {
                Ok(())
            }
        },
        VluJob::Cross { dest, a, b } => {
            if a >= VECTOR_REGISTER_COUNT {
                Err(VluError::InvalidVectorRegister(a))
            } else if b >= VECTOR_REGISTER_COUNT {
                Err(VluError::InvalidVectorRegister(b))
            } else if dest >= VECTOR_REGISTER_COUNT {
                Err(VluError::InvalidVectorRegister(dest))
            } else {
                Ok(())
            }
        },
        VluJob::Normalize { dest, src } => {
            if src >= VECTOR_REGISTER_COUNT {
                Err(VluError::InvalidVectorRegister(src))
            } else if dest >= VECTOR_REGISTER_COUNT {
                Err(VluError::InvalidVectorRegister(dest))
            } else {
                Ok(())
            }
        },
    }
}

} // verus!
