//! Shader program bookkeeping: link outcome and uniform locations.
//!
//! Compiling and linking GLSL is the GPU driver's work; the host hands the
//! reported outcome in, and this module validates it the way the pipeline
//! requires: a failed link or a missing uniform location is a fatal
//! configuration error, never ignored, since a silently skipped uniform
//! would change the blur math.

use vstd::prelude::*;

verus! {

/// Why a program cannot be used.
#[derive(Clone, Copy, PartialEq, Eq, Structural, Debug)]
pub enum ProgramError {
    /// The driver reported a link failure.
    LinkFailed,
    /// The driver found no location for the requested uniform with this
    /// index (in the order the names were requested).
    MissingUniform { index: usize },
}

/// A linked shader program: its handle and the locations of the uniforms
/// it was requested with.
pub struct Program {
    id: u32,
    uniform_locs: Vec<i32>,
}

impl Program {
    pub closed spec fn spec_id(&self) -> u32 {
        self.id
    }

    pub closed spec fn spec_locs(&self) -> Seq<i32> {
        self.uniform_locs@
    }

    /// Every stored uniform location was actually found by the linker.
    pub open spec fn wf(&self) -> bool {
        forall|i: int| 0 <= i < self.spec_locs().len() ==> self.spec_locs()[i] >= 0
    }

    /// Accept a linked program from the host.  `link_status` is the link
    /// status word the driver reported (zero means the link failed);
    /// `uniform_locs[i]` is the location it reported for the `i`-th
    /// requested uniform name (negative means not found).  The first
    /// failure wins, and any failure is fatal for the pipeline.
    pub fn from_link(id: u32, link_status: i32, uniform_locs: Vec<i32>) -> (r: Result<
        Self,
        ProgramError,
    >)
        ensures
            r is Ok <==> (link_status != 0 && forall|i: int|
                0 <= i < uniform_locs@.len() ==> uniform_locs@[i] >= 0),
            r matches Ok(p) ==> p.wf() && p.spec_id() == id && p.spec_locs() == uniform_locs@,
            link_status == 0 ==> r == Err::<Self, ProgramError>(ProgramError::LinkFailed),
            r matches Err(ProgramError::MissingUniform { index }) ==> (link_status != 0 && index
                < uniform_locs@.len() && uniform_locs@[index as int] < 0 && forall|j: int|
                0 <= j < index ==> uniform_locs@[j] >= 0),
    {
        if link_status == 0 {
            return Err(ProgramError::LinkFailed);
        }

        let mut i: usize = 0;
        while i < uniform_locs.len()
            invariant
                link_status != 0,
                i <= uniform_locs@.len(),
                forall|j: int| 0 <= j < i ==> uniform_locs@[j] >= 0,
            decreases uniform_locs@.len() - i,
        {
            if uniform_locs[i] < 0 {
                return Err(ProgramError::MissingUniform { index: i });
            }
            i += 1;
        }

        Ok(Self { id, uniform_locs })
    }

    /// The program handle, for the host to activate.
    pub fn id(&self) -> (r: u32)
        ensures
            r == self.spec_id(),
    {
        self.id
    }

    /// The location of the uniform with the given request index, for the
    /// host's uniform-set call.  An index outside the requested list is
    /// the missing-uniform configuration error, as a skipped uniform
    /// silently changes the blur math.
    pub fn uniform_loc(&self, index: usize) -> (r: Result<i32, ProgramError>)
        ensures
            index < self.spec_locs().len() ==> r == Ok::<i32, ProgramError>(
                self.spec_locs()[index as int],
            ),
            index >= self.spec_locs().len() ==> r == Err::<i32, ProgramError>(
                ProgramError::MissingUniform { index },
            ),
    {
        if index < self.uniform_locs.len() {
            Ok(self.uniform_locs[index])
        } else {
            Err(ProgramError::MissingUniform { index })
        }
    }
}

} // verus!
