//! Recording units of device work.
use vstd::prelude::*;

use crate::renderer::pipeline::NULL_HANDLE;
use crate::renderer::resource::Resource;

verus! {

/// Usage bit of a unit that is submitted once and then recorded anew.
pub const USAGE_ONE_TIME_SUBMIT: u32 = 0x1;

/// Usage bit of a secondary unit that lies wholly inside a render pass.
pub const USAGE_RENDER_PASS_CONTINUE: u32 = 0x2;

/// Usage bit of a unit that may be pending several times at once.
pub const USAGE_SIMULTANEOUS_USE: u32 = 0x4;

/// Whether a unit is submitted directly or called from another unit.
#[derive(Clone, Copy, Debug, PartialEq, Eq, Structural)]
pub enum CommandBufferLevel {
    Primary,
    Secondary,
}

/// The description from which the device allocates command buffers.
#[derive(Clone, Copy, Debug, PartialEq, Eq, Structural)]
pub struct CommandBufferAllocateInfo {
    pub command_pool: u64,
    pub level: CommandBufferLevel,
    pub command_buffer_count: u32,
}

/// One step the device is asked to take with a command buffer.
#[derive(Clone, Copy, Debug, PartialEq, Eq, Structural)]
pub enum Command {
    /// Open the unit for recording with the given usage bits.
    Begin { command_buffer: u64, flags: u32 },
    /// Close the unit.
    End { command_buffer: u64 },
    /// Submit the unit to a queue. Nothing is waited for, and nothing is
    /// signalled but the fence, where one is named.
    Submit { queue: u64, command_buffer: u64, fence: u64 },
}

/// A recordable unit of device work.
#[derive(Clone, Copy, Debug, PartialEq, Eq, Structural)]
pub struct CommandBuffer {
    pub handle: u64,
}

/// The usage bits that three independent choices add up to.
pub open spec fn usage_flags(
    is_single_use: bool,
    is_render_pass_continue: bool,
    is_simultaneous_use: bool,
) -> u32 {
    ((if is_single_use {
        USAGE_ONE_TIME_SUBMIT as int
    } else {
        0
    }) + (if is_render_pass_continue {
        USAGE_RENDER_PASS_CONTINUE as int
    } else {
        0
    }) + (if is_simultaneous_use {
        USAGE_SIMULTANEOUS_USE as int
    } else {
        0
    })) as u32
}

impl CommandBuffer {
    /// Describes the allocation of one command buffer from a pool.
    pub fn allocate_info(command_pool: u64, is_primary: bool) -> (info: CommandBufferAllocateInfo)
        ensures
            info == (CommandBufferAllocateInfo {
                command_pool,
                level: if is_primary {
                    CommandBufferLevel::Primary
                } else {
                    CommandBufferLevel::Secondary
                },
                command_buffer_count: 1,
            }),
    {
        CommandBufferAllocateInfo {
            command_pool,
            level: if is_primary {
                CommandBufferLevel::Primary
            } else {
                CommandBufferLevel::Secondary
            },
            command_buffer_count: 1,
        }
    }

    /// Records the command buffer the device allocated. The device answers
    /// with a list, of which the first is the one asked for.
    pub fn new(allocated: &[u64]) -> (command_buffer: Self)
        requires
            allocated@.len() > 0,
        ensures
            command_buffer.handle == allocated@[0],
    {
        CommandBuffer { handle: allocated[0] }
    }

    /// What to give back when the command buffer goes away.
    pub fn destroy(&mut self, command_pool: u64) -> (freed: Resource)
        ensures
            freed == (Resource::CommandBuffer { pool: command_pool, handle: old(self).handle }),
            *final(self) == *old(self),
    {
        Resource::CommandBuffer { pool: command_pool, handle: self.handle }
    }

    /// Opens the unit for recording. Each choice contributes its own usage
    /// bit, independently of the others.
    pub fn begin(
        &self,
        is_single_use: bool,
        is_render_pass_continue: bool,
        is_simultaneous_use: bool,
    ) -> (command: Command)
        ensures
            command == (Command::Begin {
                command_buffer: self.handle,
                flags: usage_flags(is_single_use, is_render_pass_continue, is_simultaneous_use),
            }),
    {
        let mut flags: u32 = 0;
        if is_single_use {
            flags = flags | USAGE_ONE_TIME_SUBMIT;
        }
        if is_render_pass_continue {
            flags = flags | USAGE_RENDER_PASS_CONTINUE;
        }
        if is_simultaneous_use {
            flags = flags | USAGE_SIMULTANEOUS_USE;
        }
        assert(0u32 | 1u32 == 1u32 && 0u32 | 2u32 == 2u32 && 0u32 | 4u32 == 4u32 && 1u32 | 2u32
            == 3u32 && 1u32 | 4u32 == 5u32 && 2u32 | 4u32 == 6u32 && 3u32 | 4u32 == 7u32)
            by (bit_vector);
        Command::Begin { command_buffer: self.handle, flags }
    }

    /// Closes the unit.
    pub fn end(&self) -> (command: Command)
        ensures
            command == (Command::End { command_buffer: self.handle }),
    {
        Command::End { command_buffer: self.handle }
    }

    /// Closes the unit and submits it to `queue` with no completion signal
    /// at all: whoever reuses the unit has to synchronise by other means.
    pub fn end_and_submit_single_use(&self, queue: u64) -> (commands: Vec<Command>)
        ensures
            commands@ == seq![
                Command::End { command_buffer: self.handle },
                Command::Submit { queue, command_buffer: self.handle, fence: NULL_HANDLE },
            ],
    {
        let mut commands: Vec<Command> = Vec::new();
        commands.push(Command::End { command_buffer: self.handle });
        commands.push(Command::Submit { queue, command_buffer: self.handle, fence: NULL_HANDLE });
        assert(commands@ =~= seq![
            Command::End { command_buffer: self.handle },
            Command::Submit { queue, command_buffer: self.handle, fence: NULL_HANDLE },
        ]);
        commands
    }
}

} // verus!
