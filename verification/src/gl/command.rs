//! Portable commands, and how each is turned into native calls.
//!
//! A draw command names what it wants: a range of vertices or indices, and
//! perhaps a number of instances with a first instance and an offset added
//! to each index. Which native entry points exist depends on the
//! implementation. For each kind of draw there is a table of entry points,
//! the most capable first; the first one that exists and can express the
//! request exactly is taken. Where none can, the command is turned down with
//! the reason and no call is made: an offset that cannot be honoured is never
//! dropped.

use vstd::prelude::*;
use crate::gl::call::{Call, DataPointer, Source, DRAW_INDIRECT_BUFFER, ELEMENT_ARRAY_BUFFER};
use crate::gl::info::{Features, Limits};
use crate::gl::rects::MAX_RECTS;

verus! {

/// The bytes of one viewport rectangle, of one depth range and of one
/// scissor rectangle in a data block.
pub const ENTRY_BYTES: u32 = 16;

/// A number of instances and the first of them.
#[derive(Clone, Copy, Debug, PartialEq, Eq, Structural)]
pub struct Instances {
    pub count: u32,
    pub base: u32,
}

/// One recorded command.
#[derive(Clone, Copy, Debug, PartialEq, Eq)]
pub enum Command {
    BindIndexBuffer(u32),
    BindVertexBuffers(DataPointer),
    Draw { primitive: u32, start: u32, count: u32, instances: Option<Instances> },
    DrawIndexed {
        primitive: u32,
        index_type: u32,
        start: u32,
        count: u32,
        base: i32,
        instances: Option<Instances>,
    },
    Dispatch(u32, u32, u32),
    DispatchIndirect(u32, u64),
    SetViewports { viewport_ptr: DataPointer, depth_range_ptr: DataPointer },
    SetScissors(DataPointer),
}

/// The data recorded next to the commands of one command buffer.
pub struct DataBuffer {
    bytes: Vec<u8>,
}

impl View for DataBuffer {
    type V = Seq<u8>;

    closed spec fn view(&self) -> Seq<u8> {
        self.bytes@
    }
}

/// The range `ptr` lies within a block of `len` bytes and is made of whole
/// entries.
pub open spec fn holds_entries(len: nat, ptr: DataPointer) -> bool {
    ptr.offset + ptr.size <= len && ptr.size % ENTRY_BYTES == 0
}

/// The number of entries in the range `ptr`.
pub open spec fn entries(ptr: DataPointer) -> nat {
    (ptr.size / ENTRY_BYTES) as nat
}

impl DataBuffer {
    /// An empty block.
    pub fn new() -> (data: DataBuffer)
        ensures
            data@ == Seq::<u8>::empty(),
    {
        DataBuffer { bytes: Vec::new() }
    }

    /// The number of bytes in the block.
    pub fn len(&self) -> (n: usize)
        ensures
            n == self@.len(),
    {
        self.bytes.len()
    }

    /// The bytes of the block.
    pub fn bytes(&self) -> (bytes: &Vec<u8>)
        ensures
            bytes@ == self@,
    {
        &self.bytes
    }

    /// Forgets everything recorded.
    pub fn reset(&mut self)
        ensures
            final(self)@ == Seq::<u8>::empty(),
    {
        self.bytes.clear();
    }

    /// Records `data` at the end of the block and says where it went. Where
    /// the block would outgrow what a pointer can address, nothing is
    /// recorded.
    pub fn add(&mut self, data: &Vec<u8>) -> (ptr: Option<DataPointer>)
        ensures
            old(self)@.len() + data@.len() <= u32::MAX ==> ptr == Some(
                DataPointer { offset: old(self)@.len() as u32, size: data@.len() as u32 },
            ) && final(self)@ == old(self)@ + data@,
            old(self)@.len() + data@.len() > u32::MAX ==> ptr.is_none() && final(self)@ == old(
                self,
            )@,
    {
        let offset = self.bytes.len();
        let size = data.len();
        if offset > u32::MAX as usize || size > u32::MAX as usize - offset {
            return None;
        }
        let mut i: usize = 0;
        while i < size
            invariant
                i <= size,
                size == data@.len(),
                self.bytes@ == old(self).bytes@ + data@.subrange(0, i as int),
            decreases size - i,
        {
            self.bytes.push(data[i]);
            assert(data@.subrange(0, i as int + 1) =~= data@.subrange(0, i as int).push(
                data@[i as int],
            ));
            i = i + 1;
        }
        assert(data@.subrange(0, size as int) =~= data@);
        Some(DataPointer { offset: offset as u32, size: size as u32 })
    }

    /// The number of entries at `ptr`, where the block holds that range.
    pub fn count(&self, ptr: DataPointer) -> (n: Option<usize>)
        ensures
            n == if holds_entries(self@.len(), ptr) {
                Some(entries(ptr) as usize)
            } else {
                None
            },
    {
        let end = ptr.offset as u64 + ptr.size as u64;
        if end <= self.bytes.len() as u64 && ptr.size % ENTRY_BYTES == 0 {
            Some((ptr.size / ENTRY_BYTES) as usize)
        } else {
            None
        }
    }
}

/// One recorded command buffer: its commands and their data.
pub struct SubmitInfo {
    pub buf: Vec<Command>,
    pub data: DataBuffer,
}

/// Why a draw command was turned down.
#[derive(Clone, Copy, Debug, PartialEq, Eq, Structural)]
pub enum Rejection {
    /// Instances were asked for, and there is no instanced drawing.
    Instanced,
    /// A first instance other than zero was asked for, and instanced drawing
    /// cannot start at a given instance.
    BaseInstance,
    /// A first instance other than zero was asked for, and instanced indexed
    /// drawing cannot start at a given instance.
    IndexedBaseInstance,
    /// An index offset was asked for, and instanced indexed drawing cannot
    /// add one.
    IndexedInstancedBaseVertex,
    /// Instances were asked for, and there is no instanced indexed drawing.
    IndexedInstanced,
    /// An index offset was asked for, and indexed drawing cannot add one.
    IndexedBaseVertex,
}

impl Rejection {
    /// The words of each reason.
    pub open spec fn text(self) -> Seq<char> {
        match self {
            Rejection::Instanced => "Instanced draw calls are not supported"@,
            Rejection::BaseInstance =>
                "Instanced draw calls with non-zero base instance are not supported"@,
            Rejection::IndexedBaseInstance =>
                "Instance bases with instanced indexed drawing is not supported"@,
            Rejection::IndexedInstancedBaseVertex =>
                "Base vertex with instanced indexed drawing is not supported"@,
            Rejection::IndexedInstanced => "Instanced indexed drawing is not supported"@,
            Rejection::IndexedBaseVertex => "Base vertex with indexed drawing not supported"@,
        }
    }

    /// The reason in words, for the log.
    pub fn message(&self) -> (words: &'static str)
        ensures
            words@ == self.text(),
    {
        match self {
            Rejection::Instanced => "Instanced draw calls are not supported",
            Rejection::BaseInstance =>
                "Instanced draw calls with non-zero base instance are not supported",
            Rejection::IndexedBaseInstance =>
                "Instance bases with instanced indexed drawing is not supported",
            Rejection::IndexedInstancedBaseVertex =>
                "Base vertex with instanced indexed drawing is not supported",
            Rejection::IndexedInstanced => "Instanced indexed drawing is not supported",
            Rejection::IndexedBaseVertex => "Base vertex with indexed drawing not supported",
        }
    }
}

/// An entry point for drawing a range of vertices.
#[derive(Clone, Copy, Debug, PartialEq, Eq, Structural)]
pub enum DrawPath {
    InstancedBase,
    Instanced,
    Plain,
}

impl DrawPath {
    /// The implementation has this entry point.
    pub open spec fn supported(self, f: Features) -> bool {
        match self {
            DrawPath::InstancedBase => f.draw_instanced && f.draw_instanced_base,
            DrawPath::Instanced => f.draw_instanced,
            DrawPath::Plain => true,
        }
    }

    /// This entry point says exactly what the request says.
    pub open spec fn expresses(self, instances: Option<Instances>) -> bool {
        match self {
            DrawPath::InstancedBase => instances.is_some(),
            DrawPath::Instanced => instances.is_some() && instances.unwrap().base == 0,
            DrawPath::Plain => instances.is_none(),
        }
    }

    /// How much this entry point can say; more is better.
    pub open spec fn rank(self) -> nat {
        match self {
            DrawPath::InstancedBase => 2,
            DrawPath::Instanced => 1,
            DrawPath::Plain => 0,
        }
    }

    /// The implementation has this entry point, and it says exactly what the
    /// request says.
    pub open spec fn fits(self, f: Features, instances: Option<Instances>) -> bool {
        self.supported(f) && self.expresses(instances)
    }

    /// Whether this entry point exists and says what the request says.
    pub fn is_fit(&self, f: &Features, instances: &Option<Instances>) -> (r: bool)
        ensures
            r == self.fits(*f, *instances),
    {
        match self {
            DrawPath::InstancedBase => f.draw_instanced && f.draw_instanced_base
                && instances.is_some(),
            DrawPath::Instanced => f.draw_instanced && match instances {
                Some(i) => i.base == 0,
                None => false,
            },
            DrawPath::Plain => instances.is_none(),
        }
    }

    /// The call that this entry point makes of a request.
    pub open spec fn call_of(
        self,
        primitive: u32,
        start: u32,
        count: u32,
        instances: Option<Instances>,
    ) -> Call {
        let number = if instances.is_some() {
            instances.unwrap().count
        } else {
            1
        };
        let base = if instances.is_some() {
            instances.unwrap().base
        } else {
            0
        };
        match self {
            DrawPath::InstancedBase => Call::DrawArraysInstancedBaseInstance {
                mode: primitive,
                first: start as i32,
                count: count as i32,
                instances: number as i32,
                base_instance: base,
            },
            DrawPath::Instanced => Call::DrawArraysInstanced {
                mode: primitive,
                first: start as i32,
                count: count as i32,
                instances: number as i32,
            },
            DrawPath::Plain => Call::DrawArrays {
                mode: primitive,
                first: start as i32,
                count: count as i32,
            },
        }
    }

    /// Makes the call of this entry point for a request.
    pub fn call(
        &self,
        primitive: u32,
        start: u32,
        count: u32,
        instances: &Option<Instances>,
    ) -> (call: Call)
        ensures
            call == self.call_of(primitive, start, count, *instances),
    {
        let (number, base) = match instances {
            Some(i) => (i.count, i.base),
            None => (1u32, 0u32),
        };
        let first = #[verifier::truncate] (start as i32);
        let vertices = #[verifier::truncate] (count as i32);
        let copies = #[verifier::truncate] (number as i32);
        match self {
            DrawPath::InstancedBase => Call::DrawArraysInstancedBaseInstance {
                mode: primitive,
                first,
                count: vertices,
                instances: copies,
                base_instance: base,
            },
            DrawPath::Instanced => Call::DrawArraysInstanced {
                mode: primitive,
                first,
                count: vertices,
                instances: copies,
            },
            DrawPath::Plain => Call::DrawArrays { mode: primitive, first, count: vertices },
        }
    }
}

/// The entry points for drawing vertices, the most capable first.
pub open spec fn draw_order() -> Seq<DrawPath> {
    seq![DrawPath::InstancedBase, DrawPath::Instanced, DrawPath::Plain]
}

/// The first entry point of `order`, from position `from` on, that fits.
pub open spec fn first_draw_fit(
    order: Seq<DrawPath>,
    from: int,
    f: Features,
    instances: Option<Instances>,
) -> Option<DrawPath>
    decreases order.len() - from,
{
    if from < 0 || from >= order.len() {
        None
    } else if order[from].fits(f, instances) {
        Some(order[from])
    } else {
        first_draw_fit(order, from + 1, f, instances)
    }
}

/// The entry point that a draw of vertices goes to.
pub open spec fn chosen_draw(f: Features, instances: Option<Instances>) -> Option<DrawPath> {
    first_draw_fit(draw_order(), 0, f, instances)
}

/// Why a draw of vertices that fits no entry point is turned down.
pub open spec fn draw_rejection(f: Features) -> Rejection {
    if f.draw_instanced {
        Rejection::BaseInstance
    } else {
        Rejection::Instanced
    }
}

/// Picks the entry point for a draw of vertices from the table.
pub fn select_draw(f: &Features, instances: &Option<Instances>) -> (r: Result<DrawPath, Rejection>)
    ensures
        r == match chosen_draw(*f, *instances) {
            Some(path) => Ok::<DrawPath, Rejection>(path),
            None => Err(draw_rejection(*f)),
        },
{
    let order: [DrawPath; 3] = [DrawPath::InstancedBase, DrawPath::Instanced, DrawPath::Plain];
    assert(order@ =~= draw_order());
    let mut i: usize = 0;
    while i < 3
        invariant
            i <= 3,
            order@ == draw_order(),
            first_draw_fit(draw_order(), i as int, *f, *instances) == chosen_draw(*f, *instances),
        decreases 3 - i,
    {
        if order[i].is_fit(f, instances) {
            return Ok(order[i]);
        }
        i = i + 1;
    }
    if f.draw_instanced {
        Err(Rejection::BaseInstance)
    } else {
        Err(Rejection::Instanced)
    }
}

/// An entry point for drawing a range of indices.
#[derive(Clone, Copy, Debug, PartialEq, Eq, Structural)]
pub enum IndexedPath {
    InstancedBaseVertexBaseInstance,
    InstancedBaseVertex,
    Instanced,
    BaseVertex,
    Plain,
}

impl IndexedPath {
    /// The implementation has this entry point.
    pub open spec fn supported(self, f: Features) -> bool {
        match self {
            IndexedPath::InstancedBaseVertexBaseInstance => f.draw_indexed_instanced_base,
            IndexedPath::InstancedBaseVertex => f.draw_indexed_instanced_base_vertex,
            IndexedPath::Instanced => f.draw_indexed_instanced,
            IndexedPath::BaseVertex => f.draw_indexed_base,
            IndexedPath::Plain => true,
        }
    }

    /// This entry point says exactly what the request says.
    pub open spec fn expresses(self, base_vertex: i32, instances: Option<Instances>) -> bool {
        match self {
            IndexedPath::InstancedBaseVertexBaseInstance => instances.is_some(),
            IndexedPath::InstancedBaseVertex => instances.is_some() && instances.unwrap().base
                == 0,
            IndexedPath::Instanced => instances.is_some() && instances.unwrap().base == 0
                && base_vertex == 0,
            IndexedPath::BaseVertex => instances.is_none(),
            IndexedPath::Plain => instances.is_none() && base_vertex == 0,
        }
    }

    /// How much this entry point can say; more is better.
    pub open spec fn rank(self) -> nat {
        match self {
            IndexedPath::InstancedBaseVertexBaseInstance => 4,
            IndexedPath::InstancedBaseVertex => 3,
            IndexedPath::Instanced => 2,
            IndexedPath::BaseVertex => 1,
            IndexedPath::Plain => 0,
        }
    }

    /// The implementation has this entry point, and it says exactly what the
    /// request says.
    pub open spec fn fits(self, f: Features, base_vertex: i32, instances: Option<Instances>) -> bool {
        self.supported(f) && self.expresses(base_vertex, instances)
    }

    /// Whether this entry point exists and says what the request says.
    pub fn is_fit(&self, f: &Features, base_vertex: i32, instances: &Option<Instances>) -> (r: bool)
        ensures
            r == self.fits(*f, base_vertex, *instances),
    {
        let first_is_zero = match instances {
            Some(i) => i.base == 0,
            None => false,
        };
        match self {
            IndexedPath::InstancedBaseVertexBaseInstance => f.draw_indexed_instanced_base
                && instances.is_some(),
            IndexedPath::InstancedBaseVertex => f.draw_indexed_instanced_base_vertex
                && first_is_zero,
            IndexedPath::Instanced => f.draw_indexed_instanced && first_is_zero && base_vertex
                == 0,
            IndexedPath::BaseVertex => f.draw_indexed_base && instances.is_none(),
            IndexedPath::Plain => instances.is_none() && base_vertex == 0,
        }
    }

    /// The call that this entry point makes of a request.
    pub open spec fn call_of(
        self,
        primitive: u32,
        index_type: u32,
        start: u32,
        count: u32,
        base_vertex: i32,
        instances: Option<Instances>,
    ) -> Call {
        let number = if instances.is_some() {
            instances.unwrap().count
        } else {
            1
        };
        let base = if instances.is_some() {
            instances.unwrap().base
        } else {
            0
        };
        match self {
            IndexedPath::InstancedBaseVertexBaseInstance =>
                Call::DrawElementsInstancedBaseVertexBaseInstance {
                    mode: primitive,
                    count: count as i32,
                    index_type,
                    offset: start as usize,
                    instances: number as i32,
                    base_vertex,
                    base_instance: base,
                },
            IndexedPath::InstancedBaseVertex => Call::DrawElementsInstancedBaseVertex {
                mode: primitive,
                count: count as i32,
                index_type,
                offset: start as usize,
                instances: number as i32,
                base_vertex,
            },
            IndexedPath::Instanced => Call::DrawElementsInstanced {
                mode: primitive,
                count: count as i32,
                index_type,
                offset: start as usize,
                instances: number as i32,
            },
            IndexedPath::BaseVertex => Call::DrawElementsBaseVertex {
                mode: primitive,
                count: count as i32,
                index_type,
                offset: start as usize,
                base_vertex,
            },
            IndexedPath::Plain => Call::DrawElements {
                mode: primitive,
                count: count as i32,
                index_type,
                offset: start as usize,
            },
        }
    }

    /// Makes the call of this entry point for a request.
    pub fn call(
        &self,
        primitive: u32,
        index_type: u32,
        start: u32,
        count: u32,
        base_vertex: i32,
        instances: &Option<Instances>,
    ) -> (call: Call)
        ensures
            call == self.call_of(primitive, index_type, start, count, base_vertex, *instances),
    {
        let (number, base) = match instances {
            Some(i) => (i.count, i.base),
            None => (1u32, 0u32),
        };
        let offset = start as usize;
        let indices = #[verifier::truncate] (count as i32);
        let copies = #[verifier::truncate] (number as i32);
        match self {
            IndexedPath::InstancedBaseVertexBaseInstance =>
                Call::DrawElementsInstancedBaseVertexBaseInstance {
                    mode: primitive,
                    count: indices,
                    index_type,
                    offset,
                    instances: copies,
                    base_vertex,
                    base_instance: base,
                },
            IndexedPath::InstancedBaseVertex => Call::DrawElementsInstancedBaseVertex {
                mode: primitive,
                count: indices,
                index_type,
                offset,
                instances: copies,
                base_vertex,
            },
            IndexedPath::Instanced => Call::DrawElementsInstanced {
                mode: primitive,
                count: indices,
                index_type,
                offset,
                instances: copies,
            },
            IndexedPath::BaseVertex => Call::DrawElementsBaseVertex {
                mode: primitive,
                count: indices,
                index_type,
                offset,
                base_vertex,
            },
            IndexedPath::Plain => Call::DrawElements {
                mode: primitive,
                count: indices,
                index_type,
                offset,
            },
        }
    }
}

/// The entry points for drawing indices, the most capable first.
pub open spec fn indexed_order() -> Seq<IndexedPath> {
    seq![
        IndexedPath::InstancedBaseVertexBaseInstance,
        IndexedPath::InstancedBaseVertex,
        IndexedPath::Instanced,
        IndexedPath::BaseVertex,
        IndexedPath::Plain,
    ]
}

/// The first entry point of `order`, from position `from` on, that fits.
pub open spec fn first_indexed_fit(
    order: Seq<IndexedPath>,
    from: int,
    f: Features,
    base_vertex: i32,
    instances: Option<Instances>,
) -> Option<IndexedPath>
    decreases order.len() - from,
{
    if from < 0 || from >= order.len() {
        None
    } else if order[from].fits(f, base_vertex, instances) {
        Some(order[from])
    } else {
        first_indexed_fit(order, from + 1, f, base_vertex, instances)
    }
}

/// The entry point that a draw of indices goes to.
pub open spec fn chosen_indexed(f: Features, base_vertex: i32, instances: Option<Instances>) -> Option<
    IndexedPath,
> {
    first_indexed_fit(indexed_order(), 0, f, base_vertex, instances)
}

/// Why a draw of indices that fits no entry point is turned down: for the
/// first thing asked for that nothing can say.
pub open spec fn indexed_rejection(base_vertex: i32, instances: Option<Instances>) -> Rejection {
    if instances.is_none() {
        Rejection::IndexedBaseVertex
    } else if instances.unwrap().base != 0 {
        Rejection::IndexedBaseInstance
    } else if base_vertex != 0 {
        Rejection::IndexedInstancedBaseVertex
    } else {
        Rejection::IndexedInstanced
    }
}

/// Picks the entry point for a draw of indices from the table.
pub fn select_indexed(f: &Features, base_vertex: i32, instances: &Option<Instances>) -> (r: Result<
    IndexedPath,
    Rejection,
>)
    ensures
        r == match chosen_indexed(*f, base_vertex, *instances) {
            Some(path) => Ok::<IndexedPath, Rejection>(path),
            None => Err(indexed_rejection(base_vertex, *instances)),
        },
{
    let order: [IndexedPath; 5] = [
        IndexedPath::InstancedBaseVertexBaseInstance,
        IndexedPath::InstancedBaseVertex,
        IndexedPath::Instanced,
        IndexedPath::BaseVertex,
        IndexedPath::Plain,
    ];
    assert(order@ =~= indexed_order());
    let mut i: usize = 0;
    while i < 5
        invariant
            i <= 5,
            order@ == indexed_order(),
            first_indexed_fit(indexed_order(), i as int, *f, base_vertex, *instances)
                == chosen_indexed(*f, base_vertex, *instances),
        decreases 5 - i,
    {
        if order[i].is_fit(f, base_vertex, instances) {
            return Ok(order[i]);
        }
        i = i + 1;
    }
    match instances {
        None => Err(Rejection::IndexedBaseVertex),
        Some(i) => if i.base != 0 {
            Err(Rejection::IndexedBaseInstance)
        } else if base_vertex != 0 {
            Err(Rejection::IndexedInstancedBaseVertex)
        } else {
            Err(Rejection::IndexedInstanced)
        },
    }
}

/// The entry point chosen for a draw of vertices exists, says exactly what
/// was asked for, and no entry point that would do as well can say more.
/// Where none is chosen, none would do.
pub proof fn lemma_chosen_draw_is_most_capable(f: Features, instances: Option<Instances>)
    ensures
        match chosen_draw(f, instances) {
            Some(path) => path.fits(f, instances) && forall|other: DrawPath|
                other.fits(f, instances) ==> other.rank() <= path.rank(),
            None => forall|other: DrawPath| !other.fits(f, instances),
        },
{
    reveal_with_fuel(first_draw_fit, 4);
    let order = draw_order();
    assert(order[0] == DrawPath::InstancedBase);
    assert(order[1] == DrawPath::Instanced);
    assert(order[2] == DrawPath::Plain);
}

/// The entry point chosen for a draw of indices exists, says exactly what
/// was asked for, and no entry point that would do as well can say more.
/// Where none is chosen, none would do.
pub proof fn lemma_chosen_indexed_is_most_capable(
    f: Features,
    base_vertex: i32,
    instances: Option<Instances>,
)
    ensures
        match chosen_indexed(f, base_vertex, instances) {
            Some(path) => path.fits(f, base_vertex, instances) && forall|other: IndexedPath|
                other.fits(f, base_vertex, instances) ==> other.rank() <= path.rank(),
            None => forall|other: IndexedPath| !other.fits(f, base_vertex, instances),
        },
{
    reveal_with_fuel(first_indexed_fit, 6);
    let order = indexed_order();
    assert(order[0] == IndexedPath::InstancedBaseVertexBaseInstance);
    assert(order[1] == IndexedPath::InstancedBaseVertex);
    assert(order[2] == IndexedPath::Instanced);
    assert(order[3] == IndexedPath::BaseVertex);
    assert(order[4] == IndexedPath::Plain);
}

/// What becomes of one command: the calls to make for it, in order, and the
/// reason where it was turned down.
pub struct Outcome {
    pub calls: Vec<Call>,
    pub rejected: Option<Rejection>,
}

/// The command can be replayed against a block of `len` bytes: its data lies
/// within the block, and it sets at least one and at most `max_viewports`
/// viewports or scissor rectangles, with as many depth ranges as viewports.
/// No more scissor rectangles are set than can be set back in one call.
/// Binding vertex buffers cannot be replayed.
pub open spec fn replayable(cmd: Command, len: nat, limits: Limits) -> bool {
    match cmd {
        Command::BindVertexBuffers(_) => false,
        Command::SetViewports { viewport_ptr, depth_range_ptr } => holds_entries(len, viewport_ptr)
            && holds_entries(len, depth_range_ptr) && entries(viewport_ptr) == entries(
            depth_range_ptr,
        ) && 0 < entries(viewport_ptr) <= limits.max_viewports,
        Command::SetScissors(ptr) => holds_entries(len, ptr) && 0 < entries(ptr)
            <= limits.max_viewports && entries(ptr) <= MAX_RECTS,
        _ => true,
    }
}

/// Whether the command can be replayed.
pub fn is_replayable(cmd: &Command, data: &DataBuffer, limits: &Limits) -> (r: bool)
    ensures
        r == replayable(*cmd, data@.len(), *limits),
{
    match cmd {
        Command::BindVertexBuffers(_) => false,
        Command::SetViewports { viewport_ptr, depth_range_ptr } => {
            match (data.count(*viewport_ptr), data.count(*depth_range_ptr)) {
                (Some(viewports), Some(ranges)) => viewports == ranges && 0 < viewports
                    && viewports <= limits.max_viewports,
                _ => false,
            }
        },
        Command::SetScissors(ptr) => {
            match data.count(*ptr) {
                Some(scissors) => 0 < scissors && scissors <= limits.max_viewports && scissors
                    <= MAX_RECTS,
                None => false,
            }
        },
        _ => true,
    }
}

/// The calls that a command is replayed as, in order.
pub open spec fn calls_of(f: Features, cmd: Command) -> Seq<Call> {
    match cmd {
        Command::BindIndexBuffer(buffer) => seq![
            Call::BindBuffer { target: ELEMENT_ARRAY_BUFFER, buffer },
        ],
        Command::BindVertexBuffers(_) => seq![],
        Command::Draw { primitive, start, count, instances } => match chosen_draw(f, instances) {
            Some(path) => seq![path.call_of(primitive, start, count, instances)],
            None => seq![],
        },
        Command::DrawIndexed { primitive, index_type, start, count, base, instances } => match chosen_indexed(
            f,
            base,
            instances,
        ) {
            Some(path) => seq![path.call_of(primitive, index_type, start, count, base, instances)],
            None => seq![],
        },
        Command::Dispatch(x, y, z) => seq![Call::DispatchCompute { x, y, z }],
        Command::DispatchIndirect(buffer, offset) => seq![
            Call::BindBuffer { target: DRAW_INDIRECT_BUFFER, buffer },
            Call::DispatchComputeIndirect { offset: offset as isize },
        ],
        Command::SetViewports { viewport_ptr, depth_range_ptr } => if entries(viewport_ptr) == 1 {
            seq![Call::ViewportAt { rect: viewport_ptr }, Call::DepthRangeAt { range: depth_range_ptr }]
        } else {
            seq![
                Call::ViewportArray {
                    first: 0,
                    count: entries(viewport_ptr) as i32,
                    rects: Source::Data(viewport_ptr),
                },
                Call::DepthRangeArray {
                    first: 0,
                    count: entries(viewport_ptr) as i32,
                    ranges: Source::Data(depth_range_ptr),
                },
            ]
        },
        Command::SetScissors(ptr) => if entries(ptr) == 1 {
            seq![Call::ScissorAt { rect: ptr }]
        } else {
            seq![Call::ScissorArray { first: 0, count: entries(ptr) as i32, rects: Source::Data(ptr) }]
        },
    }
}

/// Why a command is turned down, where it is.
pub open spec fn rejection_of(f: Features, cmd: Command) -> Option<Rejection> {
    match cmd {
        Command::Draw { instances, .. } => if chosen_draw(f, instances).is_none() {
            Some(draw_rejection(f))
        } else {
            None
        },
        Command::DrawIndexed { base, instances, .. } => if chosen_indexed(f, base, instances).is_none() {
            Some(indexed_rejection(base, instances))
        } else {
            None
        },
        _ => None,
    }
}

/// Turns one command into calls.
pub fn plan(f: &Features, cmd: &Command) -> (out: Outcome)
    requires
        !(cmd is BindVertexBuffers),
    ensures
        out.calls@ == calls_of(*f, *cmd),
        out.rejected == rejection_of(*f, *cmd),
{
    let mut calls: Vec<Call> = Vec::new();
    let mut rejected: Option<Rejection> = None;
    match cmd {
        Command::BindIndexBuffer(buffer) => {
            calls.push(Call::BindBuffer { target: ELEMENT_ARRAY_BUFFER, buffer: *buffer });
        },
        Command::BindVertexBuffers(_) => {},
        Command::Draw { primitive, start, count, instances } => {
            match select_draw(f, instances) {
                Ok(path) => {
                    calls.push(path.call(*primitive, *start, *count, instances));
                },
                Err(reason) => {
                    rejected = Some(reason);
                },
            }
        },
        Command::DrawIndexed { primitive, index_type, start, count, base, instances } => {
            match select_indexed(f, *base, instances) {
                Ok(path) => {
                    calls.push(path.call(*primitive, *index_type, *start, *count, *base, instances));
                },
                Err(reason) => {
                    rejected = Some(reason);
                },
            }
        },
        Command::Dispatch(x, y, z) => {
            calls.push(Call::DispatchCompute { x: *x, y: *y, z: *z });
        },
        Command::DispatchIndirect(buffer, offset) => {
            calls.push(Call::BindBuffer { target: DRAW_INDIRECT_BUFFER, buffer: *buffer });
            calls.push(Call::DispatchComputeIndirect { offset: #[verifier::truncate] (*offset as isize) });
        },
        Command::SetViewports { viewport_ptr, depth_range_ptr } => {
            let number = viewport_ptr.size / ENTRY_BYTES;
            if number == 1 {
                calls.push(Call::ViewportAt { rect: *viewport_ptr });
                calls.push(Call::DepthRangeAt { range: *depth_range_ptr });
            } else {
                let count = #[verifier::truncate] (number as i32);
                calls.push(Call::ViewportArray { first: 0, count, rects: Source::Data(*viewport_ptr) });
                calls.push(
                    Call::DepthRangeArray { first: 0, count, ranges: Source::Data(*depth_range_ptr) },
                );
            }
        },
        Command::SetScissors(ptr) => {
            let number = ptr.size / ENTRY_BYTES;
            if number == 1 {
                calls.push(Call::ScissorAt { rect: *ptr });
            } else {
                let count = #[verifier::truncate] (number as i32);
                calls.push(Call::ScissorArray { first: 0, count, rects: Source::Data(*ptr) });
            }
        },
    }
    assert(calls@ =~= calls_of(*f, *cmd));
    Outcome { calls, rejected }
}

/// A draw that is made says what was asked for: the call starts at the
/// first instance and adds the index offset of the request, or the request
/// had none. A draw that is turned down makes no call.
pub proof fn lemma_no_offset_is_dropped(f: Features, cmd: Command)
    requires
        cmd is Draw || cmd is DrawIndexed,
    ensures
        rejection_of(f, cmd).is_some() <==> calls_of(f, cmd).len() == 0,
        rejection_of(f, cmd).is_none() ==> calls_of(f, cmd).len() == 1 && calls_of(f, cmd)[0].is_draw()
            && first_instance_of(calls_of(f, cmd)[0]) == requested_first_instance(cmd)
            && index_offset_of(calls_of(f, cmd)[0]) == requested_index_offset(cmd),
{
    match cmd {
        Command::Draw { instances, .. } => {
            lemma_chosen_draw_is_most_capable(f, instances);
        },
        Command::DrawIndexed { base, instances, .. } => {
            lemma_chosen_indexed_is_most_capable(f, base, instances);
        },
        _ => {},
    }
}

/// The first instance that a draw call starts at.
pub open spec fn first_instance_of(call: Call) -> u32 {
    match call {
        Call::DrawArraysInstancedBaseInstance { base_instance, .. } => base_instance,
        Call::DrawElementsInstancedBaseVertexBaseInstance { base_instance, .. } => base_instance,
        _ => 0,
    }
}

/// The offset that a draw call adds to each index.
pub open spec fn index_offset_of(call: Call) -> i32 {
    match call {
        Call::DrawElementsBaseVertex { base_vertex, .. } => base_vertex,
        Call::DrawElementsInstancedBaseVertex { base_vertex, .. } => base_vertex,
        Call::DrawElementsInstancedBaseVertexBaseInstance { base_vertex, .. } => base_vertex,
        _ => 0,
    }
}

/// The first instance that a draw command asks for.
pub open spec fn requested_first_instance(cmd: Command) -> u32 {
    match cmd {
        Command::Draw { instances: Some(i), .. } => i.base,
        Command::DrawIndexed { instances: Some(i), .. } => i.base,
        _ => 0,
    }
}

/// The offset that a draw command asks to add to each index.
pub open spec fn requested_index_offset(cmd: Command) -> i32 {
    match cmd {
        Command::DrawIndexed { base, .. } => base,
        _ => 0,
    }
}

} // verus!
