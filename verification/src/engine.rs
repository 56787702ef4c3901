//! The boundary to the signal-processing graph: audio layout, buffer
//! configuration and the lifecycle that decides when the graph may compute.
//!
//! The graph itself is not part of this library. What is kept here is what
//! the graph was initialized with, and the test that every block passes
//! before the graph is asked to compute it.

use vstd::prelude::*;

verus! {

/// Channel counts of the main input and the main output.
#[derive(Clone, Copy, Debug, PartialEq, Eq, Structural)]
pub struct AudioLayout {
    /// Number of input channels.
    pub inputs: u32,
    /// Number of output channels.
    pub outputs: u32,
}

impl AudioLayout {
    /// Two channels in, two channels out.
    pub fn stereo() -> (layout: AudioLayout)
        ensures
            layout == (AudioLayout { inputs: 2, outputs: 2 }),
    {
        AudioLayout { inputs: 2, outputs: 2 }
    }

    /// One channel in, one channel out.
    pub fn mono() -> (layout: AudioLayout)
        ensures
            layout == (AudioLayout { inputs: 1, outputs: 1 }),
    {
        AudioLayout { inputs: 1, outputs: 1 }
    }
}

/// What the host announces before it starts to process.
#[derive(Clone, Copy, Debug, PartialEq, Eq, Structural)]
pub struct BufferConfig {
    /// Sample rate in Hz.
    pub sample_rate: i32,
    /// The largest number of frames that one block may hold.
    pub max_buffer_size: u32,
}

/// Where a plugin instance stands between construction and teardown.
#[derive(Clone, Copy, Debug, PartialEq, Eq, Structural)]
pub enum Lifecycle {
    /// Constructed; the graph has no sample rate yet and must not compute.
    Uninitialized,
    /// The graph was initialized and has not computed a block since.
    Initialized {
        /// The sample rate that the graph was initialized with.
        sample_rate: i32,
    },
    /// The graph has computed at least one block since it was initialized.
    Processing {
        /// The sample rate that the graph was initialized with.
        sample_rate: i32,
    },
}

/// Why an initialization was refused.
#[derive(Clone, Copy, Debug, PartialEq, Eq, Structural)]
pub enum InitError {
    /// The host's channel counts are not those of the declared layout.
    LayoutMismatch,
    /// The sample rate is not positive.
    InvalidSampleRate,
}

/// What is to be done with the block at hand.
#[derive(Clone, Copy, Debug, PartialEq, Eq, Structural)]
pub enum BlockAction {
    /// Hand the block to the graph, which computes `frames` frames per channel.
    Compute {
        /// Number of frames per channel.
        frames: i32,
    },
    /// Leave the block to the host as it is; the graph is not called.
    PassThrough,
}

/// The engine record as mathematics.
pub struct EngineModel {
    /// The layout that the graph was compiled for.
    pub layout: AudioLayout,
    /// The current state.
    pub lifecycle: Lifecycle,
    /// The largest block that the host announced.
    pub max_buffer_size: u32,
}

impl EngineModel {
    /// What an initialization with `layout` and `config` answers: the sample
    /// rate to initialize the graph with, or the reason for the refusal.
    pub open spec fn init_outcome(self, layout: AudioLayout, config: BufferConfig) -> Result<
        i32,
        InitError,
    > {
        if layout != self.layout {
            Err(InitError::LayoutMismatch)
        } else if config.sample_rate <= 0 {
            Err(InitError::InvalidSampleRate)
        } else {
            Ok(config.sample_rate)
        }
    }

    /// The record after an initialization: on success it holds the new
    /// configuration and nothing of the old one, on refusal it is unchanged.
    pub open spec fn initialize(self, layout: AudioLayout, config: BufferConfig) -> EngineModel {
        if self.init_outcome(layout, config) is Ok {
            EngineModel {
                lifecycle: Lifecycle::Initialized { sample_rate: config.sample_rate },
                max_buffer_size: config.max_buffer_size,
                ..self
            }
        } else {
            self
        }
    }

    /// The sample rate of the graph, once it has one.
    pub open spec fn sample_rate(self) -> Option<i32> {
        match self.lifecycle {
            Lifecycle::Uninitialized => None,
            Lifecycle::Initialized { sample_rate } => Some(sample_rate),
            Lifecycle::Processing { sample_rate } => Some(sample_rate),
        }
    }

    /// Whether the graph may compute a block of this shape: it has been
    /// initialized, the channel counts are those of the layout, and the block
    /// is no longer than announced nor than the graph can be told.
    pub open spec fn accepts(self, inputs: int, outputs: int, frames: int) -> bool {
        &&& self.lifecycle != Lifecycle::Uninitialized
        &&& inputs == self.layout.inputs
        &&& outputs == self.layout.outputs
        &&& frames <= self.max_buffer_size
        &&& frames <= i32::MAX
    }

    /// The record after the graph has computed a block.
    pub open spec fn after_block(self) -> EngineModel {
        match self.lifecycle {
            Lifecycle::Uninitialized => self,
            Lifecycle::Initialized { sample_rate } => EngineModel {
                lifecycle: Lifecycle::Processing { sample_rate },
                ..self
            },
            Lifecycle::Processing { sample_rate } => self,
        }
    }

    /// The record after a block of this shape was offered.
    pub open spec fn offer(self, inputs: int, outputs: int, frames: int) -> EngineModel {
        if self.accepts(inputs, outputs, frames) {
            self.after_block()
        } else {
            self
        }
    }
}

/// What this library keeps of the graph engine: the layout it was compiled
/// for, and what it was last initialized with.
#[derive(Clone, Copy, Debug, PartialEq, Eq)]
pub struct Engine {
    layout: AudioLayout,
    lifecycle: Lifecycle,
    max_buffer_size: u32,
}

impl View for Engine {
    type V = EngineModel;

    closed spec fn view(&self) -> EngineModel {
        EngineModel {
            layout: self.layout,
            lifecycle: self.lifecycle,
            max_buffer_size: self.max_buffer_size,
        }
    }
}

impl Engine {
    /// The record of a graph compiled for `layout` and not initialized yet.
    pub fn new(layout: AudioLayout) -> (engine: Engine)
        ensures
            engine@ == (EngineModel {
                layout: layout,
                lifecycle: Lifecycle::Uninitialized,
                max_buffer_size: 0,
            }),
    {
        Engine { layout, lifecycle: Lifecycle::Uninitialized, max_buffer_size: 0 }
    }

    /// Takes the host's configuration. On success the answer is the sample
    /// rate to initialize the graph with, and the record holds the new
    /// configuration in place of any earlier one. A layout other than the
    /// declared one, or a sample rate that is not positive, is refused, and
    /// the record stays as it was.
    pub fn initialize(&mut self, layout: &AudioLayout, config: &BufferConfig) -> (outcome: Result<
        i32,
        InitError,
    >)
        ensures
            outcome == old(self)@.init_outcome(*layout, *config),
            final(self)@ == old(self)@.initialize(*layout, *config),
    {
        if layout.inputs != self.layout.inputs || layout.outputs != self.layout.outputs {
            Err(InitError::LayoutMismatch)
        } else if config.sample_rate <= 0 {
            Err(InitError::InvalidSampleRate)
        } else {
            self.lifecycle = Lifecycle::Initialized { sample_rate: config.sample_rate };
            self.max_buffer_size = config.max_buffer_size;
            Ok(config.sample_rate)
        }
    }

    /// Decides what is to be done with a block of `frames` frames on `inputs`
    /// input and `outputs` output channels. A block that the graph may
    /// compute moves the lifecycle on; any other block changes nothing.
    pub fn offer(&mut self, inputs: usize, outputs: usize, frames: usize) -> (action: BlockAction)
        ensures
            final(self)@ == old(self)@.offer(inputs as int, outputs as int, frames as int),
            action == if old(self)@.accepts(inputs as int, outputs as int, frames as int) {
                BlockAction::Compute { frames: frames as i32 }
            } else {
                BlockAction::PassThrough
            },
    {
        let sample_rate = match self.lifecycle {
            Lifecycle::Uninitialized => {
                return BlockAction::PassThrough;
            },
            Lifecycle::Initialized { sample_rate } => sample_rate,
            Lifecycle::Processing { sample_rate } => sample_rate,
        };
        if inputs == self.layout.inputs as usize && outputs == self.layout.outputs as usize
            && frames <= self.max_buffer_size as usize && frames <= i32::MAX as usize {
            self.lifecycle = Lifecycle::Processing { sample_rate };
            BlockAction::Compute { frames: frames as i32 }
        } else {
            BlockAction::PassThrough
        }
    }

    /// The layout that the graph was compiled for.
    pub fn layout(&self) -> (layout: AudioLayout)
        ensures
            layout == self@.layout,
    {
        self.layout
    }

    /// The current state.
    pub fn lifecycle(&self) -> (lifecycle: Lifecycle)
        ensures
            lifecycle == self@.lifecycle,
    {
        self.lifecycle
    }

    /// The sample rate of the graph, once it has one.
    pub fn sample_rate(&self) -> (rate: Option<i32>)
        ensures
            rate == self@.sample_rate(),
    {
        match self.lifecycle {
            Lifecycle::Uninitialized => None,
            Lifecycle::Initialized { sample_rate } => Some(sample_rate),
            Lifecycle::Processing { sample_rate } => Some(sample_rate),
        }
    }

    /// The largest block that the host announced.
    pub fn max_buffer_size(&self) -> (frames: u32)
        ensures
            frames == self@.max_buffer_size,
    {
        self.max_buffer_size
    }
}

/// Initializing again supersedes: after two initializations of which the
/// second is accepted, the record is what the second alone would have left,
/// whatever the first one asked for.
pub proof fn law_reinitialize_supersedes(
    e: EngineModel,
    layout: AudioLayout,
    first: BufferConfig,
    second: BufferConfig,
)
    requires
        e.init_outcome(layout, second) is Ok,
    ensures
        e.initialize(layout, first).initialize(layout, second) == e.initialize(layout, second),
{
}

/// A refused initialization is no initialization: the record is unchanged.
pub proof fn law_refused_initialize_changes_nothing(
    e: EngineModel,
    layout: AudioLayout,
    config: BufferConfig,
)
    requires
        e.init_outcome(layout, config) is Err,
    ensures
        e.initialize(layout, config) == e,
{
}

/// The graph never computes before it was initialized.
pub proof fn law_no_compute_before_initialize(
    e: EngineModel,
    inputs: int,
    outputs: int,
    frames: int,
)
    requires
        e.lifecycle == Lifecycle::Uninitialized,
    ensures
        !e.accepts(inputs, outputs, frames),
        e.offer(inputs, outputs, frames) == e,
{
}

} // verus!
