//! The compiled shader program's handle.
//!
//! Compiling and linking the shaders is the renderer's business; the
//! library only keeps the identifiers the render loop needs every frame.

use vstd::prelude::*;

verus! {

/// A linked shader program: its GL object id and the location of the
/// `tex_offset` uniform that the scheduler's draw plan feeds every tick.
#[derive(Clone, Copy, Debug, PartialEq, Eq, Structural)]
pub struct Program {
    id: u32,
    tex_offset_location: i32,
}

impl Program {
    /// The program's object id.
    pub closed spec fn spec_id(self) -> u32 {
        self.id
    }

    /// The location of the `tex_offset` uniform.
    pub closed spec fn spec_tex_offset_location(self) -> i32 {
        self.tex_offset_location
    }

    /// Wraps the handles of a program the renderer compiled and linked.
    pub fn new(id: u32, tex_offset_location: i32) -> (r: Program)
        ensures
            r.spec_id() == id,
            r.spec_tex_offset_location() == tex_offset_location,
    {
        Program { id, tex_offset_location }
    }

    /// The program's object id.
    pub fn id(&self) -> (r: u32)
        ensures
            r == self.spec_id(),
    {
        self.id
    }

    /// Returns the tex offset location.
    pub fn tex_offset_location(&self) -> (r: i32)
        ensures
            r == self.spec_tex_offset_location(),
    {
        self.tex_offset_location
    }
}

} // verus!
