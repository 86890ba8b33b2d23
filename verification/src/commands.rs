//! A recording model of a command buffer.
//!
//! Draw dispatch is a pure append to the command stream: it creates and
//! destroys nothing.  Recording the appended commands lets the dispatch
//! contract say exactly which commands are emitted, in which order, with
//! which parameters.

use vstd::prelude::*;

verus! {

/// One recorded rendering command.
#[derive(Clone, Copy, PartialEq, Eq, Structural, Debug)]
pub enum DrawCommand {
    /// Bind a graphics pipeline.
    BindPipeline { pipeline: u64 },
    /// Bind one descriptor set at the given set index of a pipeline layout.
    BindDescriptorSets { layout: u64, first_set: u32, set: u64 },
    /// Issue `draw_count` indirect draws read from `buffer` starting at
    /// byte `offset`, one record every `stride` bytes.
    DrawIndirect { buffer: u64, offset: u64, draw_count: u32, stride: u32 },
}

/// An append-only stream of recorded commands.
pub struct CommandStream {
    pub commands: Vec<DrawCommand>,
}

impl CommandStream {
    /// An empty stream.
    pub fn new() -> (r: CommandStream)
        ensures
            r.commands@ == Seq::<DrawCommand>::empty(),
    {
        CommandStream { commands: Vec::new() }
    }

    /// Append one command.
    pub fn record(&mut self, c: DrawCommand)
        ensures
            final(self).commands@ == old(self).commands@.push(c),
    {
        self.commands.push(c);
    }
}

} // verus!
