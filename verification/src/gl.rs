//! The OpenGL backend: the command queue with its cache of driver state.
//!
//! There is one queue. It keeps a copy of the little driver state that it
//! needs to know between command buffers: whether its vertex array object is
//! bound, which index buffer is bound, and how many viewports and scissor
//! rectangles are set. Before a command buffer is replayed the queue brings
//! the driver back to a known state and makes only the calls that the copy
//! says are needed.
//!
//! The queue makes no call itself. It says which calls are to be made and
//! in which order, and the owner of the context makes them.

use vstd::prelude::*;
use crate::gl::call::{
    Call, Source, ELEMENT_ARRAY_BUFFER, INVALID_ENUM, INVALID_FRAMEBUFFER_OPERATION,
    INVALID_OPERATION, INVALID_VALUE, NO_ERROR, OUT_OF_MEMORY, RENDERBUFFER,
};
use crate::gl::command::{
    calls_of, entries, plan, rejection_of, replayable, Command, DataBuffer, Outcome,
};
use crate::gl::info::{Features, Limits, PrivateCaps, Version};
use crate::gl::rects::{neutral_rects, rects, RectList, MAX_RECTS};
use crate::handle::{Heap, Manager};

pub mod adapter;
pub mod call;
pub mod cleanup;
pub mod command;
pub mod device;
pub mod info;
pub mod laws;
pub mod native;
pub mod pool;
pub mod rects;
pub mod submit;

verus! {

/// The OpenGL backend.
#[derive(Clone, Copy, Debug, PartialEq, Eq, Hash)]
pub enum Backend {
    OpenGl,
}

impl crate::Backend for Backend {
    type Buffer = native::Buffer;

    type Shader = native::Shader;

    type Program = native::Program;

    type PipelineStateObject = native::GraphicsPipeline;

    type Texture = native::Image;

    type ShaderResourceView = native::ResourceView;

    type UnorderedAccessView = native::UnorderedAccessView;

    type RenderTargetView = native::TargetView;

    type DepthStencilView = native::TargetView;

    type Sampler = native::FatSampler;

    type Fence = native::Fence;

    type Semaphore = native::Semaphore;

    type Mapping = device::MappingGate;
}

/// What the error flag of the implementation says.
#[derive(Clone, Copy, Debug, PartialEq, Eq, Structural)]
pub enum Error {
    NoError,
    InvalidEnum,
    InvalidValue,
    InvalidOperation,
    InvalidFramebufferOperation,
    OutOfMemory,
    UnknownError,
}

impl Error {
    /// What an error code stands for.
    pub open spec fn decoded(error_code: u32) -> Error {
        if error_code == NO_ERROR {
            Error::NoError
        } else if error_code == INVALID_ENUM {
            Error::InvalidEnum
        } else if error_code == INVALID_VALUE {
            Error::InvalidValue
        } else if error_code == INVALID_OPERATION {
            Error::InvalidOperation
        } else if error_code == INVALID_FRAMEBUFFER_OPERATION {
            Error::InvalidFramebufferOperation
        } else if error_code == OUT_OF_MEMORY {
            Error::OutOfMemory
        } else {
            Error::UnknownError
        }
    }

    /// Decodes the error flag.
    pub fn from_error_code(error_code: u32) -> (error: Error)
        ensures
            error == Error::decoded(error_code),
            error is NoError <==> error_code == NO_ERROR,
    {
        match error_code {
            NO_ERROR => Error::NoError,
            INVALID_ENUM => Error::InvalidEnum,
            INVALID_VALUE => Error::InvalidValue,
            INVALID_OPERATION => Error::InvalidOperation,
            INVALID_FRAMEBUFFER_OPERATION => Error::InvalidFramebufferOperation,
            OUT_OF_MEMORY => Error::OutOfMemory,
            _ => Error::UnknownError,
        }
    }
}

/// What the device and its queue share: what the implementation offers, and
/// the resources.
pub struct Share {
    pub version: Version,
    pub features: Features,
    pub limits: Limits,
    pub private_caps: PrivateCaps,
    /// Whether the error flag is read after each command.
    pub debug: bool,
    /// The pool: the manager in which the device makes its resources.
    pub handles: Manager<Backend>,
    /// Where the resources live.
    pub heap: Heap<Backend>,
}

impl Share {
    /// What was found out about the implementation, which never changes.
    pub open spec fn setup(self) -> (Version, Features, Limits, PrivateCaps, bool) {
        (self.version, self.features, self.limits, self.private_caps, self.debug)
    }

    /// What is shared at the start: no resources yet.
    pub fn new(
        version: Version,
        features: Features,
        limits: Limits,
        private_caps: PrivateCaps,
        debug: bool,
    ) -> (share: Share)
        ensures
            share.version == version,
            share.features == features,
            share.limits == limits,
            share.private_caps == private_caps,
            share.debug == debug,
            share.handles@ == crate::handle::ManagerView::empty(),
            share.heap@ == crate::handle::HeapView::<Backend>::empty(),
    {
        Share {
            version,
            features,
            limits,
            private_caps,
            debug,
            handles: Manager::new(),
            heap: Heap::new(),
        }
    }

    /// Fails where errors are checked and the error flag, as it was read, is
    /// set.
    pub fn check(&self, error_code: u32) -> (r: Result<(), Error>)
        ensures
            r == if self.debug && error_code != NO_ERROR {
                Err::<(), Error>(Error::decoded(error_code))
            } else {
                Ok(())
            },
    {
        if self.debug {
            let err = Error::from_error_code(error_code);
            match err {
                Error::NoError => Ok(()),
                _ => Err(err),
            }
        } else {
            Ok(())
        }
    }
}

/// The queue's copy of the driver state.
#[derive(Clone, Copy, Debug, PartialEq, Eq)]
pub struct State {
    /// Whether the queue's vertex array object is bound; also set where
    /// there are no vertex array objects.
    pub vao: bool,
    /// The index buffer that is bound; `None` where that is not known.
    pub index_buffer: Option<u32>,
    /// The number of viewports that are set.
    pub num_viewports: usize,
    /// The number of scissor rectangles that are set.
    pub num_scissors: usize,
}

impl State {
    /// No more scissor rectangles are set than can be set back in one call.
    pub open spec fn sound(self) -> bool {
        self.num_scissors <= MAX_RECTS
    }

    /// The copy agrees with the driver: commands can be replayed.
    pub open spec fn clean(self) -> bool {
        self.vao && self.index_buffer.is_some()
    }

    /// The state that a command buffer starts from: the vertex array object
    /// bound, no index buffer bound, no viewport and no scissor rectangle
    /// left over.
    pub open spec fn settled(self) -> bool {
        self.vao && self.index_buffer == Some(0u32) && self.num_viewports == 0
            && self.num_scissors == 0
    }

    /// The state of a fresh context.
    pub open spec fn new_spec() -> State {
        State { vao: false, index_buffer: None, num_viewports: 0, num_scissors: 0 }
    }

    /// The state of a fresh context, of which nothing is known to be bound.
    pub fn new() -> (state: State)
        ensures
            state == State::new_spec(),
    {
        State { vao: false, index_buffer: None, num_viewports: 0, num_scissors: 0 }
    }

    /// Forgets what is bound, after calls that the queue did not see.
    pub fn flush(&mut self)
        ensures
            *final(self) == (State { vao: false, index_buffer: None, ..*old(self) }),
            !final(self).clean(),
            final(self).sound() == old(self).sound(),
    {
        self.vao = false;
        self.index_buffer = None;
    }

    /// The state after a command was replayed.
    pub open spec fn after(self, cmd: Command) -> State {
        match cmd {
            Command::BindIndexBuffer(buffer) => State { index_buffer: Some(buffer), ..self },
            Command::SetViewports { viewport_ptr, .. } => State {
                num_viewports: entries(viewport_ptr) as usize,
                ..self
            },
            Command::SetScissors(ptr) => State { num_scissors: entries(ptr) as usize, ..self },
            _ => self,
        }
    }
}

/// The calls that bind the vertex array object `vao`, where that is due.
pub open spec fn array_reset(state: State, vao: u32, caps: PrivateCaps) -> Seq<Call> {
    if !state.vao && caps.array_buffer_supported {
        seq![Call::BindVertexArray { array: vao }]
    } else {
        seq![]
    }
}

/// The calls that unbind the index buffer, where one may be bound.
pub open spec fn index_reset(state: State) -> Seq<Call> {
    if state.index_buffer == Some(0u32) {
        seq![]
    } else {
        seq![Call::BindBuffer { target: ELEMENT_ARRAY_BUFFER, buffer: 0 }]
    }
}

/// The calls that set `n` viewports back: the one-viewport calls for one,
/// the array calls over all `n` for more.
pub open spec fn viewport_reset(n: usize) -> Seq<Call> {
    if n == 0 {
        seq![]
    } else if n == 1 {
        seq![Call::Viewport { x: 0, y: 0, width: 0, height: 0 }, Call::DepthRangeNeutral]
    } else {
        seq![
            Call::ViewportArray { first: 0, count: n as i32, rects: Source::Neutral },
            Call::DepthRangeArray { first: 0, count: n as i32, ranges: Source::Neutral },
        ]
    }
}

/// The calls that set `n` scissor rectangles back: the one-rectangle call
/// for one, the array call over all `n` for more.
pub open spec fn scissor_reset(n: usize) -> Seq<Call> {
    if n == 0 {
        seq![]
    } else if n == 1 {
        seq![Call::Scissor { x: 0, y: 0, width: 0, height: 0 }]
    } else {
        seq![Call::ScissorArray { first: 0, count: n as i32, rects: Source::Neutral }]
    }
}

/// The calls of a reset, in order.
pub open spec fn reset_calls(state: State, vao: u32, caps: PrivateCaps) -> Seq<Call> {
    array_reset(state, vao, caps) + index_reset(state) + viewport_reset(state.num_viewports)
        + scissor_reset(state.num_scissors)
}

/// The rectangles that the scissor array call of a reset over `n`
/// rectangles points at.
pub open spec fn reset_rects(n: usize) -> Seq<crate::gl::rects::Rect> {
    if n > 1 {
        neutral_rects(n as nat)
    } else {
        Seq::empty()
    }
}

/// What a reset asks for.
pub struct Reset {
    /// The calls to make, in order.
    pub calls: Vec<Call>,
    /// The rectangles for the scissor array call, where there is one. The
    /// arrays for the viewport and depth range array calls hold floating
    /// point zeros, and are made where the calls are made.
    pub scissors: RectList,
}

/// The one family of queues that OpenGL has.
#[derive(Debug)]
pub struct QueueFamily;

impl QueueFamily {
    /// The number of queues in the family.
    pub fn num_queues(&self) -> (n: u32)
        ensures
            n == 1,
    {
        1
    }
}

/// The command queue.
pub struct CommandQueue {
    /// The queue's own vertex array object.
    pub vao: u32,
    pub state: State,
    /// What the submitted command buffers refer to, kept alive until the
    /// next cleanup.
    pub frame_handles: Manager<Backend>,
    /// The number of references above which a frame is taken to have been
    /// left without cleanup; `None` once that was said.
    pub max_resource_count: Option<usize>,
}

/// The call that detaches whatever is attached at `attachment`.
pub open spec fn detach_call(point: u32, attachment: u32) -> Call {
    Call::FramebufferTexture { point, attachment, texture: 0, level: 0 }
}

/// The call that attaches `view` at `attachment`.
pub open spec fn attach_call(point: u32, attachment: u32, view: native::TargetView) -> Call {
    match view {
        native::TargetView::Surface(surface) => Call::FramebufferRenderbuffer {
            point,
            attachment,
            target: RENDERBUFFER,
            surface,
        },
        native::TargetView::Texture(texture, level) => Call::FramebufferTexture {
            point,
            attachment,
            texture,
            level: level as i32,
        },
        native::TargetView::TextureLayer(texture, level, layer) => Call::FramebufferTextureLayer {
            point,
            attachment,
            texture,
            level: level as i32,
            layer: layer as i32,
        },
    }
}

impl CommandQueue {
    /// A queue on a fresh context, with `vao` as its vertex array object.
    pub fn new(vao: u32) -> (queue: CommandQueue)
        ensures
            queue.vao == vao,
            queue.state == State::new_spec(),
            queue.frame_handles@ == crate::handle::ManagerView::empty(),
            queue.max_resource_count == Some(999999usize),
    {
        CommandQueue {
            vao,
            state: State::new(),
            frame_handles: Manager::new(),
            max_resource_count: Some(999999),
        }
    }

    /// Forgets what is bound. To be called after calls were made that the
    /// queue did not ask for; the next reset then binds everything anew.
    pub fn invalidate(&mut self)
        ensures
            final(self).state == (State { vao: false, index_buffer: None, ..old(self).state }),
            !final(self).state.clean(),
            final(self).vao == old(self).vao,
            final(self).frame_handles == old(self).frame_handles,
            final(self).max_resource_count == old(self).max_resource_count,
    {
        self.state.flush();
    }

    /// The call that attaches `view` at `attachment` of the framebuffer bound
    /// at `point`.
    pub fn bind_target(
        &self,
        point: u32,
        attachment: u32,
        view: &native::TargetView,
    ) -> (call: Call)
        ensures
            call == attach_call(point, attachment, *view),
    {
        match view {
            native::TargetView::Surface(surface) => Call::FramebufferRenderbuffer {
                point,
                attachment,
                target: RENDERBUFFER,
                surface: *surface,
            },
            native::TargetView::Texture(texture, level) => Call::FramebufferTexture {
                point,
                attachment,
                texture: *texture,
                level: *level as i32,
            },
            native::TargetView::TextureLayer(texture, level, layer) => Call::FramebufferTextureLayer {
                point,
                attachment,
                texture: *texture,
                level: *level as i32,
                layer: *layer as i32,
            },
        }
    }

    /// The call that detaches whatever is attached at `attachment` of the
    /// framebuffer bound at `point`.
    pub fn unbind_target(&self, point: u32, attachment: u32) -> (call: Call)
        ensures
            call == detach_call(point, attachment),
    {
        Call::FramebufferTexture { point, attachment, texture: 0, level: 0 }
    }

    /// Brings the driver to the state that a command buffer starts from, with
    /// the calls that the cached state says are needed and no others. The
    /// viewports and scissor rectangles that were set are all set back, in
    /// one call each.
    pub fn reset_state(&mut self, share: &Share) -> (reset: Reset)
        requires
            old(self).state.sound(),
        ensures
            reset.calls@ == reset_calls(old(self).state, old(self).vao, share.private_caps),
            rects(reset.scissors) == reset_rects(old(self).state.num_scissors),
            final(self).state.settled(),
            final(self).vao == old(self).vao,
            final(self).frame_handles == old(self).frame_handles,
            final(self).max_resource_count == old(self).max_resource_count,
    {
        let mut calls: Vec<Call> = Vec::new();
        if !self.state.vao {
            if share.private_caps.array_buffer_supported {
                calls.push(Call::BindVertexArray { array: self.vao });
            }
            self.state.vao = true;
        }
        assert(calls@ =~= array_reset(old(self).state, old(self).vao, share.private_caps));
        let unbound = match self.state.index_buffer {
            Some(buffer) => buffer == 0,
            None => false,
        };
        if !unbound {
            calls.push(Call::BindBuffer { target: ELEMENT_ARRAY_BUFFER, buffer: 0 });
            self.state.index_buffer = Some(0);
        }
        assert(calls@ =~= array_reset(old(self).state, old(self).vao, share.private_caps)
            + index_reset(old(self).state));
        let viewports = self.state.num_viewports;
        if viewports == 1 {
            calls.push(Call::Viewport { x: 0, y: 0, width: 0, height: 0 });
            calls.push(Call::DepthRangeNeutral);
        } else if viewports > 1 {
            let count = #[verifier::truncate] (viewports as i32);
            calls.push(Call::ViewportArray { first: 0, count, rects: Source::Neutral });
            calls.push(Call::DepthRangeArray { first: 0, count, ranges: Source::Neutral });
        }
        self.state.num_viewports = 0;
        assert(calls@ =~= array_reset(old(self).state, old(self).vao, share.private_caps)
            + index_reset(old(self).state) + viewport_reset(old(self).state.num_viewports));
        let scissors = self.state.num_scissors;
        let list = if scissors > 1 {
            RectList::neutral(scissors)
        } else {
            RectList::new()
        };
        if scissors == 1 {
            calls.push(Call::Scissor { x: 0, y: 0, width: 0, height: 0 });
        } else if scissors > 1 {
            let count = #[verifier::truncate] (list.len() as i32);
            calls.push(Call::ScissorArray { first: 0, count, rects: Source::Neutral });
        }
        self.state.num_scissors = 0;
        assert(calls@ =~= reset_calls(old(self).state, old(self).vao, share.private_caps));
        Reset { calls, scissors: list }
    }

    /// Replays one command: says which calls it is made of, and brings the
    /// cached state up to date. Where errors are checked, the last call reads
    /// the error flag.
    pub fn process(&mut self, share: &Share, cmd: &Command, data_buf: &DataBuffer) -> (out: Outcome)
        requires
            old(self).state.clean(),
            old(self).state.sound(),
            replayable(*cmd, data_buf@.len(), share.limits),
        ensures
            out.calls@ == calls_of(share.features, *cmd) + check_calls(share.debug),
            out.rejected == rejection_of(share.features, *cmd),
            final(self).state == old(self).state.after(*cmd),
            final(self).state.clean(),
            final(self).state.sound(),
            final(self).vao == old(self).vao,
            final(self).frame_handles == old(self).frame_handles,
            final(self).max_resource_count == old(self).max_resource_count,
    {
        let mut out = plan(&share.features, cmd);
        match cmd {
            Command::BindIndexBuffer(buffer) => {
                self.state.index_buffer = Some(*buffer);
            },
            Command::SetViewports { viewport_ptr, depth_range_ptr } => {
                match data_buf.count(*viewport_ptr) {
                    Some(number) => {
                        self.state.num_viewports = number;
                    },
                    None => {},
                }
            },
            Command::SetScissors(ptr) => {
                match data_buf.count(*ptr) {
                    Some(number) => {
                        self.state.num_scissors = number;
                    },
                    None => {},
                }
            },
            _ => {},
        }
        if share.debug {
            out.calls.push(Call::GetError);
        }
        assert(out.calls@ =~= calls_of(share.features, *cmd) + check_calls(share.debug));
        out
    }
}

/// The call that reads the error flag, where errors are checked.
pub open spec fn check_calls(debug: bool) -> Seq<Call> {
    if debug {
        seq![Call::GetError]
    } else {
        seq![]
    }
}

/// A reset that follows a reset, with no command replayed in between, makes
/// no call.
pub proof fn lemma_second_reset_is_silent(state: State, vao: u32, caps: PrivateCaps)
    requires
        state.settled(),
    ensures
        reset_calls(state, vao, caps) == Seq::<Call>::empty(),
        reset_rects(state.num_scissors) == Seq::<crate::gl::rects::Rect>::empty(),
{
    assert(reset_calls(state, vao, caps) =~= Seq::<Call>::empty());
}

} // verus!
