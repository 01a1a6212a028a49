//! The buffer pool: the memory-mapped buffers a device fills, each with its
//! place in the buffer lifecycle, and the round-robin capture cursor.

use vstd::prelude::*;

verus! {

/// Where a buffer stands in its lifecycle.
#[derive(Clone, Copy, PartialEq, Eq, Structural, Debug)]
pub enum BufferState {
    /// Mapped, not handed to the device.
    Free,
    /// Handed to the device, which may be writing into it.
    Queued,
    /// Filled by the device and exposed to the caller.
    Filled,
}

/// One mapped buffer: where the device placed it, how long it is, and its state.
#[derive(Clone, Copy, PartialEq, Eq, Structural, Debug)]
pub struct FrameBuffer {
    pub offset: u32,
    pub length: u32,
    pub state: BufferState,
}

/// What a pool is, mathematically.
pub struct PoolView {
    pub buffers: Seq<FrameBuffer>,
    pub cursor: u32,
    pub held: Option<u32>,
}

impl PoolView {
    pub open spec fn len(self) -> nat {
        self.buffers.len()
    }

    /// At most one buffer is filled, and it is the one exposed to the caller;
    /// the cursor names a buffer whenever there is one.
    pub open spec fn wf(self) -> bool {
        &&& self.len() <= u32::MAX
        &&& if self.len() == 0 {
            self.cursor == 0
        } else {
            self.cursor < self.len()
        }
        &&& match self.held {
            Some(h) => h < self.len(),
            None => true,
        }
        &&& forall|i: int|
            0 <= i < self.len() ==> (#[trigger] self.buffers[i].state == BufferState::Filled
                <==> self.held == Some(i as u32))
    }

    /// Every buffer is in the given state.
    pub open spec fn all_in(self, st: BufferState) -> bool {
        forall|i: int| 0 <= i < self.len() ==> #[trigger] self.buffers[i].state == st
    }

    pub open spec fn empty() -> PoolView {
        PoolView { buffers: Seq::empty(), cursor: 0, held: None }
    }

    /// The pool with one more buffer, not yet handed to the device.
    pub open spec fn pushed(self, offset: u32, length: u32) -> PoolView {
        PoolView {
            buffers: self.buffers.push(FrameBuffer { offset, length, state: BufferState::Free }),
            ..self
        }
    }

    /// The pool with buffer `i` moved to state `st`.
    pub open spec fn with_state(self, i: u32, st: BufferState) -> PoolView {
        PoolView {
            buffers: self.buffers.update(i as int, FrameBuffer { state: st, ..self.buffers[i as int] }),
            ..self
        }
    }

    /// The pool once the exposed buffer is back with the device.
    pub open spec fn released(self) -> PoolView {
        match self.held {
            Some(h) => PoolView { held: None, ..self.with_state(h, BufferState::Queued) },
            None => self,
        }
    }

    /// The cursor's next position, round-robin.
    pub open spec fn next_cursor(self) -> u32 {
        ((self.cursor + 1) % (self.len() as int)) as u32
    }

    /// The pool once buffer `i` has been filled and exposed, and the cursor has moved on.
    pub open spec fn delivered(self, i: u32) -> PoolView {
        PoolView {
            held: Some(i),
            cursor: self.next_cursor(),
            ..self.with_state(i, BufferState::Filled)
        }
    }
}

/// The buffers mapped from one device, in index order, with the capture cursor.
pub struct FrameBufferPool {
    pool: Vec<FrameBuffer>,
    idx: u32,
    held: Option<u32>,
}

impl View for FrameBufferPool {
    type V = PoolView;

    closed spec fn view(&self) -> PoolView {
        PoolView { buffers: self.pool@, cursor: self.idx, held: self.held }
    }
}

impl FrameBufferPool {
    /// A pool with no buffers.
    pub fn new() -> (r: FrameBufferPool)
        ensures
            r@ == PoolView::empty(),
    {
        FrameBufferPool { pool: Vec::new(), idx: 0, held: None }
    }

    /// The number of buffers.
    pub fn len(&self) -> (r: usize)
        ensures
            r == self@.len(),
    {
        self.pool.len()
    }

    /// The index the next capture starts from.
    pub fn cursor(&self) -> (r: u32)
        ensures
            r == self@.cursor,
    {
        self.idx
    }

    /// The index of the buffer exposed to the caller, if any.
    pub fn held(&self) -> (r: Option<u32>)
        ensures
            r == self@.held,
    {
        self.held
    }

    /// Buffer `i`.
    pub fn buffer(&self, i: u32) -> (r: FrameBuffer)
        requires
            i < self@.len(),
        ensures
            r == self@.buffers[i as int],
    {
        self.pool[i as usize]
    }

    /// Adds a freshly mapped buffer at the next index.
    pub(crate) fn push_mapped(&mut self, offset: u32, length: u32)
        ensures
            final(self)@ == old(self)@.pushed(offset, length),
    {
        self.pool.push(FrameBuffer { offset, length, state: BufferState::Free });
    }

    /// Moves buffer `i` to state `st`.
    pub(crate) fn set_state(&mut self, i: u32, st: BufferState)
        requires
            i < old(self)@.len(),
        ensures
            final(self)@ == old(self)@.with_state(i, st),
    {
        let b = self.pool[i as usize];
        self.pool.set(i as usize, FrameBuffer { state: st, ..b });
    }

    /// Forgets every buffer, once their mappings are gone.
    pub(crate) fn clear(&mut self)
        ensures
            final(self)@ == PoolView::empty(),
    {
        self.pool.clear();
        self.idx = 0;
        self.held = None;
        assert(self.pool@ =~= Seq::<FrameBuffer>::empty());
    }

    /// Hands the exposed buffer back to the device.
    pub(crate) fn release(&mut self)
        requires
            old(self)@.wf(),
        ensures
            final(self)@ == old(self)@.released(),
    {
        if let Some(h) = self.held {
            self.set_state(h, BufferState::Queued);
            self.held = None;
        }
    }

    /// Exposes buffer `i` as filled and moves the cursor on.
    pub(crate) fn deliver(&mut self, i: u32)
        requires
            old(self)@.wf(),
            i < old(self)@.len(),
        ensures
            final(self)@ == old(self)@.delivered(i),
    {
        self.set_state(i, BufferState::Filled);
        self.held = Some(i);
        let n = self.pool.len() as u32;
        self.idx = if self.idx + 1 < n { self.idx + 1 } else { 0 };
        assert(self.idx == old(self)@.next_cursor()) by {
            let c = old(self)@.cursor as int;
            if c + 1 < n {
                vstd::arithmetic::div_mod::lemma_small_mod((c + 1) as nat, n as nat);
            } else {
                vstd::arithmetic::div_mod::lemma_mod_self_0(n as int);
            }
        }
    }
}

} // verus!
