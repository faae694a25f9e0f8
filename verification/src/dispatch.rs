use crate::driver::{Reply, ReplyModel};
use vstd::prelude::*;

pub mod history;

verus! {

/// The binding slot of the shader-storage class at which the shader finds its buffer.
pub const STORAGE_SLOT: u32 = 0;

/// The buffer name that stands for no buffer.
pub const NO_BUFFER: u32 = 0;

/// One request to the graphics driver while a compute program is run over a storage buffer.
#[derive(Debug, Clone, Copy, PartialEq, Eq)]
pub enum DispatchCommand {
    /// Make the program the active one.
    UseProgram { program: u32 },
    /// Create one buffer object. Answered with its handle.
    GenBuffer,
    /// Bind the buffer to the numbered slot of the shader-storage class.
    BindBufferBase { slot: u32, buffer: u32 },
    /// Give the bound storage buffer the upload of the dispatch as its whole contents, `size`
    /// bytes, with the hint that the host writes them and the device reads and writes them.
    BufferData { size: usize },
    /// Run the active program over `x` by `y` by `z` workgroups.
    DispatchCompute { x: u32, y: u32, z: u32 },
    /// Make the device's writes to storage buffers visible to what follows.
    StorageBarrier,
    /// Bind the buffer to the shader-storage target itself.
    BindBuffer { buffer: u32 },
    /// Map the bound storage buffer for reading and copy `size` bytes out of it. Answered with
    /// those bytes.
    MapBufferRead { size: usize },
    /// Unmap the bound storage buffer.
    UnmapBuffer,
}

/// How far a dispatch has come. Each phase but the last waits for the reply to one command.
#[derive(Debug, Clone, Copy, PartialEq, Eq)]
pub enum DispatchPhase {
    UsingProgram,
    CreatingBuffer,
    BindingSlot,
    Uploading,
    Dispatching,
    Synchronizing,
    ReleasingSlot,
    BindingBuffer,
    Mapping,
    Unmapping,
    /// The contents are read back.
    Finished,
}

/// One run of a compute program over a storage buffer, as a mathematical value.
pub struct DispatchModel {
    pub phase: DispatchPhase,
    /// The linked program that is run.
    pub program: u32,
    /// The workgroup counts along the three axes.
    pub layout: (u32, u32, u32),
    /// The initial contents of the buffer.
    pub upload: Seq<u8>,
    /// The buffer object, once it is created.
    pub buffer: u32,
    /// The contents after the run, once they are read.
    pub readback: Seq<u8>,
}

impl DispatchPhase {
    /// The number of commands that were answered before this phase was reached.
    pub open spec fn position(self) -> int {
        match self {
            DispatchPhase::UsingProgram => 0,
            DispatchPhase::CreatingBuffer => 1,
            DispatchPhase::BindingSlot => 2,
            DispatchPhase::Uploading => 3,
            DispatchPhase::Dispatching => 4,
            DispatchPhase::Synchronizing => 5,
            DispatchPhase::ReleasingSlot => 6,
            DispatchPhase::BindingBuffer => 7,
            DispatchPhase::Mapping => 8,
            DispatchPhase::Unmapping => 9,
            DispatchPhase::Finished => 10,
        }
    }

    /// Whether the buffer object is created by the time of this phase.
    pub open spec fn has_buffer(self) -> bool {
        self.position() >= 2
    }

    /// Whether the contents are read back by the time of this phase.
    pub open spec fn has_readback(self) -> bool {
        self.position() >= 9
    }
}

impl DispatchModel {
    /// The state in which a run of `program` over the contents `initial` begins.
    pub open spec fn start(program: u32, initial: Seq<u8>, layout: (u32, u32, u32)) -> DispatchModel {
        DispatchModel {
            phase: DispatchPhase::UsingProgram,
            program,
            layout,
            upload: initial,
            buffer: NO_BUFFER,
            readback: Seq::empty(),
        }
    }

    /// What holds of every state that a dispatch goes through: what is read back has the size
    /// of what was uploaded.
    pub open spec fn wf(self) -> bool {
        &&& self.upload.len() <= usize::MAX
        &&& if self.phase.has_readback() {
            self.readback.len() == self.upload.len()
        } else {
            self.readback.len() == 0
        }
    }

    /// The size of the buffer in bytes: that of the initial contents.
    pub open spec fn size(self) -> usize {
        self.upload.len() as usize
    }

    /// The command that the driver is to perform next, if any is left.
    pub open spec fn pending(self) -> Option<DispatchCommand> {
        match self.phase {
            DispatchPhase::UsingProgram => Some(
                DispatchCommand::UseProgram { program: self.program },
            ),
            DispatchPhase::CreatingBuffer => Some(DispatchCommand::GenBuffer),
            DispatchPhase::BindingSlot => Some(
                DispatchCommand::BindBufferBase { slot: STORAGE_SLOT, buffer: self.buffer },
            ),
            DispatchPhase::Uploading => Some(DispatchCommand::BufferData { size: self.size() }),
            DispatchPhase::Dispatching => Some(
                DispatchCommand::DispatchCompute {
                    x: self.layout.0,
                    y: self.layout.1,
                    z: self.layout.2,
                },
            ),
            DispatchPhase::Synchronizing => Some(DispatchCommand::StorageBarrier),
            DispatchPhase::ReleasingSlot => Some(
                DispatchCommand::BindBufferBase { slot: STORAGE_SLOT, buffer: NO_BUFFER },
            ),
            DispatchPhase::BindingBuffer => Some(
                DispatchCommand::BindBuffer { buffer: self.buffer },
            ),
            DispatchPhase::Mapping => Some(DispatchCommand::MapBufferRead { size: self.size() }),
            DispatchPhase::Unmapping => Some(DispatchCommand::UnmapBuffer),
            DispatchPhase::Finished => None,
        }
    }

    /// Whether `reply` answers the pending command: it is of the kind that the command is
    /// answered with, and where it holds the mapped contents, it holds as many bytes as were
    /// uploaded.
    pub open spec fn accepts(self, reply: ReplyModel) -> bool {
        match self.phase {
            DispatchPhase::CreatingBuffer => reply is Handle,
            DispatchPhase::Mapping => reply is Bytes && reply->Bytes_0.len() == self.upload.len(),
            DispatchPhase::Finished => false,
            _ => reply is Done,
        }
    }

    /// The state after the pending command was answered with `reply`.
    pub open spec fn next(self, reply: ReplyModel) -> DispatchModel
        recommends
            self.accepts(reply),
    {
        match self.phase {
            DispatchPhase::UsingProgram => DispatchModel {
                phase: DispatchPhase::CreatingBuffer,
                ..self
            },
            DispatchPhase::CreatingBuffer => DispatchModel {
                phase: DispatchPhase::BindingSlot,
                buffer: reply->Handle_0,
                ..self
            },
            DispatchPhase::BindingSlot => DispatchModel { phase: DispatchPhase::Uploading, ..self },
            DispatchPhase::Uploading => DispatchModel { phase: DispatchPhase::Dispatching, ..self },
            DispatchPhase::Dispatching => DispatchModel {
                phase: DispatchPhase::Synchronizing,
                ..self
            },
            DispatchPhase::Synchronizing => DispatchModel {
                phase: DispatchPhase::ReleasingSlot,
                ..self
            },
            DispatchPhase::ReleasingSlot => DispatchModel {
                phase: DispatchPhase::BindingBuffer,
                ..self
            },
            DispatchPhase::BindingBuffer => DispatchModel { phase: DispatchPhase::Mapping, ..self },
            DispatchPhase::Mapping => DispatchModel {
                phase: DispatchPhase::Unmapping,
                readback: reply->Bytes_0,
                ..self
            },
            DispatchPhase::Unmapping => DispatchModel { phase: DispatchPhase::Finished, ..self },
            DispatchPhase::Finished => self,
        }
    }

    /// The state after `reply` arrived: the next one where the reply answers the pending
    /// command, the same one where it does not.
    pub open spec fn step(self, reply: ReplyModel) -> DispatchModel {
        if self.accepts(reply) {
            self.next(reply)
        } else {
            self
        }
    }
}

/// One run of a compute program over a storage buffer: it says which command the driver is to
/// perform next, takes the driver's reply, and ends with the contents read back.
pub struct Dispatch {
    phase: DispatchPhase,
    program: u32,
    layout: (u32, u32, u32),
    upload: Vec<u8>,
    buffer: u32,
    readback: Vec<u8>,
}

impl View for Dispatch {
    type V = DispatchModel;

    closed spec fn view(&self) -> DispatchModel {
        DispatchModel {
            phase: self.phase,
            program: self.program,
            layout: self.layout,
            upload: self.upload@,
            buffer: self.buffer,
            readback: self.readback@,
        }
    }
}

/// Begins a run of the linked program `program` over a fresh storage buffer that holds
/// `initial`, with the workgroup counts `layout`.
pub fn run_compute_shader(program: u32, initial: &[u8], layout: (u32, u32, u32)) -> (dispatch:
    Dispatch)
    ensures
        dispatch@ == DispatchModel::start(program, initial@, layout),
        dispatch@.wf(),
{
    let mut upload: Vec<u8> = Vec::new();
    let mut i: usize = 0;
    while i < initial.len()
        invariant
            i <= initial.len(),
            upload@ == initial@.take(i as int),
        decreases initial.len() - i,
    {
        upload.push(initial[i]);
        proof {
            assert(upload@ =~= initial@.take(i + 1));
        }
        i = i + 1;
    }
    proof {
        assert(initial@.take(initial.len() as int) =~= initial@);
    }
    Dispatch {
        phase: DispatchPhase::UsingProgram,
        program,
        layout,
        upload,
        buffer: NO_BUFFER,
        readback: Vec::new(),
    }
}

impl Dispatch {
    /// The command that the driver is to perform next, if any is left.
    pub fn command(&self) -> (command: Option<DispatchCommand>)
        ensures
            command == self@.pending(),
    {
        match self.phase {
            DispatchPhase::UsingProgram => Some(
                DispatchCommand::UseProgram { program: self.program },
            ),
            DispatchPhase::CreatingBuffer => Some(DispatchCommand::GenBuffer),
            DispatchPhase::BindingSlot => Some(
                DispatchCommand::BindBufferBase { slot: STORAGE_SLOT, buffer: self.buffer },
            ),
            DispatchPhase::Uploading => Some(
                DispatchCommand::BufferData { size: self.upload.len() },
            ),
            DispatchPhase::Dispatching => Some(
                DispatchCommand::DispatchCompute {
                    x: self.layout.0,
                    y: self.layout.1,
                    z: self.layout.2,
                },
            ),
            DispatchPhase::Synchronizing => Some(DispatchCommand::StorageBarrier),
            DispatchPhase::ReleasingSlot => Some(
                DispatchCommand::BindBufferBase { slot: STORAGE_SLOT, buffer: NO_BUFFER },
            ),
            DispatchPhase::BindingBuffer => Some(
                DispatchCommand::BindBuffer { buffer: self.buffer },
            ),
            DispatchPhase::Mapping => Some(
                DispatchCommand::MapBufferRead { size: self.upload.len() },
            ),
            DispatchPhase::Unmapping => Some(DispatchCommand::UnmapBuffer),
            DispatchPhase::Finished => None,
        }
    }

    /// The initial contents of the buffer, as they are uploaded.
    pub fn upload(&self) -> (upload: &[u8])
        ensures
            upload@ == self@.upload,
    {
        self.upload.as_slice()
    }

    /// Takes the driver's reply to the pending command. A reply that does not answer it, or
    /// one that comes when nothing is pending, changes nothing.
    pub fn advance(&mut self, reply: Reply) -> (accepted: bool)
        ensures
            accepted == old(self)@.accepts(reply@),
            final(self)@ == old(self)@.step(reply@),
            old(self)@.wf() ==> final(self)@.wf(),
            accepted ==> final(self)@.phase.position() == old(self)@.phase.position() + 1,
    {
        match (self.phase, reply) {
            (DispatchPhase::UsingProgram, Reply::Done) => {
                self.phase = DispatchPhase::CreatingBuffer;
                true
            },
            (DispatchPhase::CreatingBuffer, Reply::Handle(buffer)) => {
                self.buffer = buffer;
                self.phase = DispatchPhase::BindingSlot;
                true
            },
            (DispatchPhase::BindingSlot, Reply::Done) => {
                self.phase = DispatchPhase::Uploading;
                true
            },
            (DispatchPhase::Uploading, Reply::Done) => {
                self.phase = DispatchPhase::Dispatching;
                true
            },
            (DispatchPhase::Dispatching, Reply::Done) => {
                self.phase = DispatchPhase::Synchronizing;
                true
            },
            (DispatchPhase::Synchronizing, Reply::Done) => {
                self.phase = DispatchPhase::ReleasingSlot;
                true
            },
            (DispatchPhase::ReleasingSlot, Reply::Done) => {
                self.phase = DispatchPhase::BindingBuffer;
                true
            },
            (DispatchPhase::BindingBuffer, Reply::Done) => {
                self.phase = DispatchPhase::Mapping;
                true
            },
            (DispatchPhase::Mapping, Reply::Bytes(contents)) => {
                if contents.len() == self.upload.len() {
                    self.readback = contents;
                    self.phase = DispatchPhase::Unmapping;
                    true
                } else {
                    false
                }
            },
            (DispatchPhase::Unmapping, Reply::Done) => {
                self.phase = DispatchPhase::Finished;
                true
            },
            _ => false,
        }
    }

    /// The contents of the buffer after the run, once they are read back and the buffer is
    /// unmapped; nothing before that.
    pub fn result(self) -> (contents: Option<Vec<u8>>)
        ensures
            contents.is_some() <==> self@.phase is Finished,
            contents.is_some() ==> contents.unwrap()@ == self@.readback,
    {
        match self.phase {
            DispatchPhase::Finished => Some(self.readback),
            _ => None,
        }
    }
}

} // verus!
