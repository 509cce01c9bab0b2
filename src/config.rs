use vstd::prelude::*;

verus! {

/// Queue depth of a worker loop unless configured otherwise.
pub const DEFAULT_WORKER_QUEUE_SIZE: usize = 64;

/// Queue depth of a pumped loop unless configured otherwise.
pub const DEFAULT_PUMPED_QUEUE_SIZE: usize = 8192;

/// Stack size, in bytes, of a worker loop's task unless configured otherwise.
pub const DEFAULT_TASK_STACK_SIZE: usize = 3072;

/// The processor core a worker task is pinned to.
#[derive(Clone, Copy, Debug, PartialEq, Eq, Structural)]
pub enum Core {
    Core0,
    Core1,
}

impl Core {
    pub open spec fn spec_id(self) -> i32 {
        match self {
            Core::Core0 => 0,
            Core::Core1 => 1,
        }
    }

    /// The native id of the core.
    pub fn id(&self) -> (r: i32)
        ensures
            r == self.spec_id(),
    {
        match self {
            Core::Core0 => 0,
            Core::Core1 => 1,
        }
    }
}

/// How to create a loop that runs its own worker task.
#[derive(Debug)]
pub struct BackgroundLoopConfiguration<'a> {
    pub queue_size: usize,
    pub task_name: &'a str,
    pub task_priority: u8,
    pub task_stack_size: usize,
    pub task_pin_to_core: Core,
}

impl<'a> Default for BackgroundLoopConfiguration<'a> {
    fn default() -> (r: Self)
        ensures
            r.queue_size == DEFAULT_WORKER_QUEUE_SIZE,
            r.task_name@ == "(unknown)"@,
            r.task_priority == 0,
            r.task_stack_size == DEFAULT_TASK_STACK_SIZE,
            r.task_pin_to_core == Core::Core0,
    {
        Self {
            queue_size: DEFAULT_WORKER_QUEUE_SIZE,
            task_name: "(unknown)",
            task_priority: 0,
            task_stack_size: DEFAULT_TASK_STACK_SIZE,
            task_pin_to_core: Core::Core0,
        }
    }
}

/// How to create a loop that delivers events only when pumped.
#[derive(Debug)]
pub struct ExplicitLoopConfiguration {
    pub queue_size: usize,
}

impl Default for ExplicitLoopConfiguration {
    fn default() -> (r: Self)
        ensures
            r.queue_size == DEFAULT_PUMPED_QUEUE_SIZE,
    {
        Self { queue_size: DEFAULT_PUMPED_QUEUE_SIZE }
    }
}

/// The arguments of the native loop creation call, as plain values.
/// A loop without a task name gets no worker task.
#[derive(Debug)]
pub struct LoopArgs<'a> {
    pub queue_size: i32,
    pub task_name: Option<&'a str>,
    pub task_priority: u32,
    pub task_stack_size: u32,
    pub task_core_id: i32,
}

impl<'a> BackgroundLoopConfiguration<'a> {
    /// Whether every value fits the native argument it is passed in.
    pub open spec fn fits_native(&self) -> bool {
        &&& self.queue_size <= i32::MAX
        &&& self.task_stack_size <= u32::MAX
    }

    /// The creation arguments of a loop with a worker task: every value is
    /// passed through unchanged.
    pub fn loop_args(&self) -> (r: LoopArgs<'a>)
        requires
            self.fits_native(),
        ensures
            r.queue_size as int == self.queue_size as int,
            r.task_name == Some(self.task_name),
            r.task_priority as int == self.task_priority as int,
            r.task_stack_size as int == self.task_stack_size as int,
            r.task_core_id == self.task_pin_to_core.spec_id(),
    {
        LoopArgs {
            queue_size: self.queue_size as i32,
            task_name: Some(self.task_name),
            task_priority: self.task_priority as u32,
            task_stack_size: self.task_stack_size as u32,
            task_core_id: self.task_pin_to_core.id(),
        }
    }
}

impl ExplicitLoopConfiguration {
    /// Whether the queue size fits the native argument.
    pub open spec fn fits_native(&self) -> bool {
        self.queue_size <= i32::MAX
    }

    /// The creation arguments of a pumped loop: the queue size, and no task.
    pub fn loop_args<'a>(&self) -> (r: LoopArgs<'a>)
        requires
            self.fits_native(),
        ensures
            r.queue_size as int == self.queue_size as int,
            r.task_name.is_none(),
            r.task_priority == 0,
            r.task_stack_size == 0,
            r.task_core_id == 0,
    {
        LoopArgs {
            queue_size: self.queue_size as i32,
            task_name: None,
            task_priority: 0,
            task_stack_size: 0,
            task_core_id: 0,
        }
    }
}

} // verus!
