use vstd::prelude::*;

use crate::text::{decimal, signed_decimal};
use crate::text::{push_decimal, push_signed_decimal, push_str};

verus! {

/// The texture filter that interpolates linearly between texels (`GL_LINEAR`).
pub const LINEAR_INTERPOLATION: u32 = 0x2601;

/// The work that a push asks of the GPU for the buffer at the cursor.
#[derive(Copy, Clone, Debug, PartialEq, Eq, Structural)]
pub enum BufferWork {
    /// The buffer already there is used again.
    Reuse,
    /// A new buffer, with a depth buffer when `depth`, goes on top of the stack.
    Append { depth: bool },
    /// The buffer at `index` is deleted and a new one, with a depth buffer when `depth`,
    /// takes its place.
    Replace { index: usize, depth: bool },
}

/// The off-screen render targets of a frame, kept as a stack that is walked by a cursor.
/// `buffers` tells, for each target the GPU holds, whether it has a depth buffer; the
/// depth each level of the stack needed is remembered, so that later frames reuse the
/// same targets.
#[derive(Clone, Debug)]
pub struct TextureBufferStack {
    pub buffers: Vec<bool>,
    pub width: i32,
    pub height: i32,
    pub interpolation: u32,
    pub cursor: usize,
    pub max_cursor: usize,
    pub cycle_depth_requirements: Vec<bool>,
}

/// The depth a level needs once a push at `index` asks for `depth`.
pub open spec fn required_depth(reqs: Seq<bool>, index: int, depth: bool) -> bool {
    if index < reqs.len() {
        reqs[index] || depth
    } else {
        depth
    }
}

/// The work a push at `index` asks for, when the level needs `depth`.
pub open spec fn push_work(buffers: Seq<bool>, index: int, depth: bool) -> BufferWork {
    if index < buffers.len() && buffers[index] == depth {
        BufferWork::Reuse
    } else if index == buffers.len() {
        BufferWork::Append { depth }
    } else {
        BufferWork::Replace { index: index as usize, depth }
    }
}

pub open spec fn cursor_at_zero_message(cursor: nat) -> Seq<char> {
    "Cannot clear a texture buffer stack with cursor at "@ + decimal(cursor) + "."@
}

pub open spec fn empty_access_message() -> Seq<char> {
    "Bad texture buffer stack access on cursor == 0."@
}

pub open spec fn bad_index_message(index: int) -> Seq<char> {
    "Bad texture buffer sttack access on index == "@ + signed_decimal(index)
}

pub open spec fn cursor_not_zero_message(cursor: nat) -> Seq<char> {
    "Texture buffer stack cursor not zero, '"@ + decimal(cursor) + "' instead."@
}

impl TextureBufferStack {
    /// The cursor is within the targets and the remembered depths, and the deepest cursor
    /// of the frame is too.
    pub open spec fn wf(&self) -> bool {
        &&& self.cursor <= self.max_cursor
        &&& self.max_cursor <= self.buffers@.len()
        &&& self.max_cursor <= self.cycle_depth_requirements@.len()
    }

    /// Nothing is held: no target, no cursor, no remembered depth.
    pub open spec fn is_empty_stack(&self) -> bool {
        &&& self.buffers@.len() == 0
        &&& self.cursor == 0
        &&& self.max_cursor == 0
        &&& self.cycle_depth_requirements@.len() == 0
    }

    pub fn new() -> (r: TextureBufferStack)
        ensures
            r.wf(),
            r.is_empty_stack(),
            r.width == 800,
            r.height == 600,
            r.interpolation == LINEAR_INTERPOLATION,
    {
        TextureBufferStack {
            buffers: Vec::new(),
            width: 800,
            height: 600,
            interpolation: LINEAR_INTERPOLATION,
            cursor: 0,
            max_cursor: 0,
            cycle_depth_requirements: Vec::new(),
        }
    }

    /// Sets the size of the targets; a new size drops every target. Returns whether the
    /// targets were dropped. A size without pixels is ignored.
    pub fn set_resolution(&mut self, width: i32, height: i32) -> (r: bool)
        requires
            old(self).wf(),
        ensures
            final(self).wf(),
            final(self).interpolation == old(self).interpolation,
            r == (width > 0 && height > 0 && (old(self).width != width || old(self).height != height)),
            r ==> final(self).is_empty_stack() && final(self).width == width && final(self).height == height,
            !r ==> *final(self) == *old(self),
    {
        if width <= 0 || height <= 0 {
            return false;
        }
        if self.width != width || self.height != height {
            self.width = width;
            self.height = height;
            self.reset_stack();
            return true;
        }
        false
    }

    /// Sets the filter of the targets; a new filter drops every target. Returns whether
    /// the targets were dropped.
    pub fn set_interpolation(&mut self, interpolation: u32) -> (r: bool)
        requires
            old(self).wf(),
        ensures
            final(self).wf(),
            final(self).width == old(self).width,
            final(self).height == old(self).height,
            r == (old(self).interpolation != interpolation),
            r ==> final(self).is_empty_stack() && final(self).interpolation == interpolation,
            !r ==> *final(self) == *old(self),
    {
        if self.interpolation != interpolation {
            self.interpolation = interpolation;
            self.reset_stack();
            return true;
        }
        false
    }

    fn reset_stack(&mut self)
        ensures
            final(self).is_empty_stack(),
            final(self).width == old(self).width,
            final(self).height == old(self).height,
            final(self).interpolation == old(self).interpolation,
    {
        self.cursor = 0;
        self.max_cursor = 0;
        self.cycle_depth_requirements = Vec::new();
        self.buffers = Vec::new();
    }

    /// Pushes a target without a depth buffer.
    pub fn push(&mut self) -> (r: Result<BufferWork, String>)
        requires
            old(self).wf(),
        ensures
            final(self).wf(),
            Self::pushed(*old(self), *final(self), r, false),
    {
        self.push_with_depth(false)
    }

    /// What a push asking for `depth` does: the level at the cursor needs a depth buffer
    /// when this or an earlier frame asked for one; the target there is reused when it
    /// fits, else one is made; the cursor goes up.
    pub open spec fn pushed(before: Self, after: Self, r: Result<BufferWork, String>, depth: bool) -> bool {
        let i = before.cursor as int;
        let d = required_depth(before.cycle_depth_requirements@, i, depth);
        &&& r == Ok::<BufferWork, String>(push_work(before.buffers@, i, d))
        &&& after.cycle_depth_requirements@ == if i < before.cycle_depth_requirements@.len() {
            before.cycle_depth_requirements@.update(i, d)
        } else {
            before.cycle_depth_requirements@.push(d)
        }
        &&& after.buffers@ == if i < before.buffers@.len() {
            before.buffers@.update(i, d)
        } else {
            before.buffers@.push(d)
        }
        &&& after.cursor == i + 1
        &&& after.max_cursor == if i + 1 > before.max_cursor {
            i + 1
        } else {
            before.max_cursor as int
        }
        &&& after.width == before.width
        &&& after.height == before.height
        &&& after.interpolation == before.interpolation
    }

    /// Pushes a target, with a depth buffer when `depth_required`.
    pub fn push_with_depth(&mut self, depth_required: bool) -> (r: Result<BufferWork, String>)
        requires
            old(self).wf(),
        ensures
            final(self).wf(),
            Self::pushed(*old(self), *final(self), r, depth_required),
    {
        let index = self.cursor;
        let requirements_len = self.cycle_depth_requirements.len();
        let depth_required = if index < requirements_len {
            let previous = self.cycle_depth_requirements[index] || depth_required;
            self.cycle_depth_requirements.set(index, previous);
            previous
        } else if index == requirements_len {
            self.cycle_depth_requirements.push(depth_required);
            depth_required
        } else {
            let mut s = "Bad texture buffer depth requirement index == ".to_owned();
            push_decimal(&mut s, index as u64);
            push_str(&mut s, ".");
            return Err(s);
        };
        let work = if index < self.buffers.len() && self.buffers[index] == depth_required {
            BufferWork::Reuse
        } else if index == self.buffers.len() {
            self.buffers.push(depth_required);
            BufferWork::Append { depth: depth_required }
        } else if index < self.buffers.len() {
            self.buffers.set(index, depth_required);
            BufferWork::Replace { index, depth: depth_required }
        } else {
            let mut s = "Bad texture buffer stack allocation index == ".to_owned();
            push_decimal(&mut s, index as u64);
            push_str(&mut s, ".");
            return Err(s);
        };
        proof {
            if index < old(self).buffers@.len() && old(self).buffers@[index as int] == depth_required {
                assert(self.buffers@ =~= old(self).buffers@.update(index as int, depth_required));
            }
        }
        let allocated = self.buffers.len();
        assert(index < allocated);
        self.cursor = index + 1;
        if self.cursor > self.max_cursor {
            self.max_cursor = self.cursor;
        }
        Ok(work)
    }

    /// Drops every target; only a stack whose cursor is at the bottom can be cleared.
    pub fn clear(&mut self) -> (r: Result<(), String>)
        requires
            old(self).wf(),
        ensures
            final(self).wf(),
            final(self).width == old(self).width,
            final(self).height == old(self).height,
            final(self).interpolation == old(self).interpolation,
            old(self).cursor == 0 <==> r is Ok,
            r is Ok ==> final(self).is_empty_stack(),
            r matches Err(e) ==> e@ == cursor_at_zero_message(old(self).cursor as nat) && *final(self) == *old(
                self,
            ),
    {
        if self.cursor != 0 {
            let mut s = "Cannot clear a texture buffer stack with cursor at ".to_owned();
            push_decimal(&mut s, self.cursor as u64);
            push_str(&mut s, ".");
            return Err(s);
        }
        self.reset_stack();
        Ok(())
    }

    /// Goes down one level.
    pub fn pop(&mut self) -> (r: Result<(), String>)
        requires
            old(self).wf(),
        ensures
            final(self).wf(),
            old(self).cursor > 0 <==> r is Ok,
            r is Ok ==> *final(self) == (TextureBufferStack { cursor: (old(self).cursor - 1) as usize, ..*old(self) }),
            r matches Err(e) ==> e@ == empty_access_message() && *final(self) == *old(self),
    {
        match self.get_current() {
            Ok(_) => {
                self.cursor = self.cursor - 1;
                Ok(())
            },
            Err(e) => Err(e),
        }
    }

    /// The index of the target under the cursor, with the size of the viewport to draw in.
    pub fn bind_current(&self) -> (r: Result<(usize, i32, i32), String>)
        requires
            self.wf(),
        ensures
            self.cursor > 0 <==> r is Ok,
            r matches Ok((i, w, h)) ==> i == self.cursor - 1 && w == self.width && h == self.height,
            r matches Err(e) ==> e@ == empty_access_message(),
    {
        match self.get_current() {
            Ok(current) => Ok((current, self.width, self.height)),
            Err(e) => Err(e),
        }
    }

    /// The index of the target under the cursor.
    pub fn get_current(&self) -> (r: Result<usize, String>)
        requires
            self.wf(),
        ensures
            self.cursor > 0 <==> r is Ok,
            r matches Ok(i) ==> i == self.cursor - 1 && i < self.buffers@.len(),
            r matches Err(e) ==> e@ == empty_access_message(),
    {
        if self.cursor == 0 {
            return Err("Bad texture buffer stack access on cursor == 0.".to_owned());
        }
        Ok(self.cursor - 1)
    }

    /// The index of the target `n` levels above the one under the cursor (`n` is 0 for
    /// the one under the cursor, negative below it).
    pub fn get_nth(&self, n: i32) -> (r: Result<usize, String>)
        requires
            self.wf(),
            self.buffers@.len() <= i32::MAX,
            i32::MIN <= self.cursor + n - 1,
            self.cursor + n <= i32::MAX,
        ensures
            ({
                let index = self.cursor + n - 1;
                &&& (0 <= index < self.buffers@.len()) <==> r is Ok
                &&& r matches Ok(i) ==> i == index
                &&& r matches Err(e) ==> e@ == bad_index_message(index)
            }),
    {
        let index: i32 = self.cursor as i32 + n - 1;
        if index < 0 || index >= self.buffers.len() as i32 {
            let mut s = "Bad texture buffer sttack access on index == ".to_owned();
            push_signed_decimal(&mut s, index as i64);
            return Err(s);
        }
        Ok(index as usize)
    }

    /// At the end of a frame: the cursor must be back at the bottom; the targets above the
    /// deepest level of the frame are dropped, and the frame's depths are forgotten.
    /// Returns how many targets were dropped from the top.
    pub fn assert_no_stack(&mut self) -> (r: Result<usize, String>)
        requires
            old(self).wf(),
        ensures
            final(self).wf(),
            old(self).cursor == 0 <==> r is Ok,
            r matches Ok(k) ==> {
                &&& k == old(self).buffers@.len() - old(self).max_cursor
                &&& final(self).buffers@ == old(self).buffers@.take(old(self).max_cursor as int)
                &&& final(self).cursor == 0
                &&& final(self).max_cursor == 0
                &&& final(self).cycle_depth_requirements@.len() == 0
                &&& final(self).width == old(self).width
                &&& final(self).height == old(self).height
                &&& final(self).interpolation == old(self).interpolation
            },
            r matches Err(e) ==> e@ == cursor_not_zero_message(old(self).cursor as nat) && *final(self) == *old(
                self,
            ),
    {
        if self.cursor != 0 {
            let mut s = "Texture buffer stack cursor not zero, '".to_owned();
            push_decimal(&mut s, self.cursor as u64);
            push_str(&mut s, "' instead.");
            return Err(s);
        }
        let total = self.buffers.len();
        let kept = self.max_cursor;
        let mut buffers = Vec::new();
        std::mem::swap(&mut buffers, &mut self.buffers);
        proof {
            assert(buffers@.take(buffers@.len() as int) =~= buffers@);
        }
        while buffers.len() > kept
            invariant
                kept <= buffers@.len() <= total,
                total == old(self).buffers@.len(),
                buffers@ == old(self).buffers@.take(buffers@.len() as int),
            decreases buffers@.len(),
        {
            buffers.pop();
            proof {
                assert(buffers@ =~= old(self).buffers@.take(buffers@.len() as int));
            }
        }
        self.buffers = buffers;
        self.max_cursor = 0;
        self.cycle_depth_requirements = Vec::new();
        Ok(total - kept)
    }
}

/// Once a level's target fits what the frames asked of it, a push there asking no more
/// reuses the target: a steady frame makes no new target.
pub proof fn lemma_settled_push_reuses(before: TextureBufferStack, after: TextureBufferStack, r: Result<BufferWork, String>, depth: bool)
    requires
        before.wf(),
        before.cursor < before.buffers@.len(),
        before.cursor < before.cycle_depth_requirements@.len(),
        before.buffers@[before.cursor as int] == before.cycle_depth_requirements@[before.cursor as int],
        depth ==> before.cycle_depth_requirements@[before.cursor as int],
        TextureBufferStack::pushed(before, after, r, depth),
    ensures
        r == Ok::<BufferWork, String>(BufferWork::Reuse),
        after.buffers@ == before.buffers@,
{
    assert(after.buffers@ =~= before.buffers@);
}

/// A push works on the level at the cursor only: the targets and the depths below it are
/// left as they were, and a pop brings the cursor back.
pub proof fn lemma_push_keeps_lower_levels(
    before: TextureBufferStack,
    pushed: TextureBufferStack,
    r: Result<BufferWork, String>,
    depth: bool,
)
    requires
        before.wf(),
        TextureBufferStack::pushed(before, pushed, r, depth),
    ensures
        pushed.cursor == before.cursor + 1,
        pushed.buffers@.take(before.cursor as int) == before.buffers@.take(before.cursor as int),
        pushed.cycle_depth_requirements@.take(before.cursor as int)
            == before.cycle_depth_requirements@.take(before.cursor as int),
{
    assert(pushed.buffers@.take(before.cursor as int) =~= before.buffers@.take(before.cursor as int));
    assert(pushed.cycle_depth_requirements@.take(before.cursor as int)
        =~= before.cycle_depth_requirements@.take(before.cursor as int));
}

} // verus!
