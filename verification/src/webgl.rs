use vstd::prelude::*;

verus! {

/// The error code that reports no error.
pub const NO_ERROR: u32 = 0;

/// A compiled shader.
#[derive(Copy, Clone, Debug, PartialEq, Eq, Structural)]
pub struct WebGlShader(pub u32);

/// A linked program.
#[derive(Copy, Clone, Debug, PartialEq, Eq, Structural)]
pub struct WebGlProgram(pub u32);

/// A vertex array object.
#[derive(Copy, Clone, Debug, PartialEq, Eq, Structural)]
pub struct WebGlVertexArrayObject(pub u32);

/// A texture.
#[derive(Copy, Clone, Debug, PartialEq, Eq, Structural)]
pub struct WebGlTexture(pub u32);

/// A framebuffer.
#[derive(Copy, Clone, Debug, PartialEq, Eq, Structural)]
pub struct WebGlFramebuffer(pub u32);

/// A renderbuffer.
#[derive(Copy, Clone, Debug, PartialEq, Eq, Structural)]
pub struct WebGlRenderbuffer(pub u32);

/// A buffer.
#[derive(Copy, Clone, Debug, PartialEq, Eq, Structural)]
pub struct WebGlBuffer(pub u32);

/// The location of a uniform in a program.
#[derive(Copy, Clone, Debug, PartialEq, Eq, Structural)]
pub struct Location(pub i32);

impl Location {
    pub fn as_ref(&self) -> (r: i32)
        ensures
            r == self.0,
    {
        self.0
    }
}

/// An integer parameter read back from a program or a shader.
#[derive(Copy, Clone, Debug, PartialEq, Eq, Structural)]
pub struct ProgramParameter {
    pub value: i32,
}

impl ProgramParameter {
    pub fn new(value: i32) -> (r: ProgramParameter)
        ensures
            r.value == value,
    {
        ProgramParameter { value }
    }

    /// The parameter as a flag: 1 is true, anything else false.
    pub fn as_bool(&self) -> (r: Option<bool>)
        ensures
            r == Some(self.value == 1),
    {
        Some(self.value == 1)
    }
}

/// The bookkeeping of a rendering context: the type of the last shader created and the
/// number of calls made, each call being numbered.
#[derive(Copy, Clone, Debug, PartialEq, Eq, Structural)]
pub struct WebGl2RenderingContext {
    pub last_shader_type: u32,
    pub line: u32,
}

impl WebGl2RenderingContext {
    pub fn new() -> (r: WebGl2RenderingContext)
        ensures
            r == (WebGl2RenderingContext { last_shader_type: 0, line: 0 }),
    {
        WebGl2RenderingContext { last_shader_type: 0, line: 0 }
    }

    /// Numbers the next call.
    pub fn next_line(&mut self) -> (r: u32)
        requires
            old(self).line < u32::MAX,
        ensures
            r == old(self).line + 1,
            *final(self) == (WebGl2RenderingContext { line: r, ..*old(self) }),
    {
        self.line = self.line + 1;
        self.line
    }

    /// Records the type of a shader just created.
    pub fn record_shader_type(&mut self, ty: u32)
        ensures
            *final(self) == (WebGl2RenderingContext { last_shader_type: ty, ..*old(self) }),
    {
        self.last_shader_type = ty;
    }
}

/// A guarded call: the error state is read before the call (by `func`) and again after
/// it; the call is clean when neither read reports an error.
pub struct GuardCall<F: Fn() -> (&'static str, u32)> {
    pub func: F,
    pub first_tuple: (&'static str, u32),
    pub line: u32,
}

impl<F: Fn() -> (&'static str, u32)> GuardCall<F> {
    /// Reads the error state before the call numbered `line`.
    pub fn new(line: u32, func: F) -> (r: GuardCall<F>)
        requires
            func.requires(()),
        ensures
            r.line == line,
            func.ensures((), r.first_tuple),
            r.func == func,
    {
        let tuple = func();
        GuardCall { line, func, first_tuple: tuple }
    }

    /// Reads the error state after the call: returns that read, and whether the call was
    /// clean.
    pub fn check(&self) -> (r: ((&'static str, u32), bool))
        requires
            (self.func).requires(()),
        ensures
            (self.func).ensures((), r.0),
            r.1 == (self.first_tuple.1 == NO_ERROR && r.0.1 == NO_ERROR),
    {
        let second_tuple = (self.func)();
        (second_tuple, self.first_tuple.1 == NO_ERROR && second_tuple.1 == NO_ERROR)
    }
}

} // verus!
