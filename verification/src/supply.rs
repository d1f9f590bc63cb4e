//! The look-ahead supply: a ring of five upcoming shapes and a cursor that
//! marks the next one.

use vstd::prelude::*;
use crate::shape::Tetromino;

verus! {

/// The mathematical view of the supply.
pub struct Supply {
    /// The five slots of the ring, in storage order.
    pub slots: Seq<Tetromino>,
    /// The slot that holds the next shape.
    pub cursor: int,
}

impl Supply {
    /// The supply before it is filled: every slot holds an `I`.
    pub open spec fn initial() -> Supply {
        Supply { slots: Seq::new(5, |i: int| Tetromino::I), cursor: 0 }
    }

    /// Five slots, a cursor that names one of them, and nothing but
    /// playable shapes.
    pub open spec fn valid(self) -> bool {
        &&& self.slots.len() == 5
        &&& 0 <= self.cursor < 5
        &&& forall|i: int| 0 <= i < 5 ==> (#[trigger] self.slots[i]).is_playable()
    }

    /// The shape that comes `i` pops from now.
    pub open spec fn peek(self, i: int) -> Tetromino {
        self.slots[(self.cursor + i) % 5]
    }

    /// The five upcoming shapes, the next one first.
    pub open spec fn preview(self) -> Seq<Tetromino> {
        Seq::new(5, |i: int| self.peek(i))
    }

    /// The supply after its head is taken and `fresh` has filled the gap.
    pub open spec fn popped(self, fresh: Tetromino) -> Supply {
        Supply { slots: self.slots.update(self.cursor, fresh), cursor: (self.cursor + 1) % 5 }
    }

    /// The supply with every slot replaced.
    pub open spec fn filled(self, shapes: Seq<Tetromino>) -> Supply {
        Supply { slots: shapes, ..self }
    }
}

/// The look-ahead supply of shapes.
pub struct TetrominoSupplier {
    idx: usize,
    list: [Tetromino; 5],
}

impl View for TetrominoSupplier {
    type V = Supply;

    closed spec fn view(&self) -> Supply {
        Supply { slots: self.list@, cursor: self.idx as int }
    }
}

impl TetrominoSupplier {
    /// The invariant of the supply: what it shows is valid.
    pub open spec fn wf(&self) -> bool {
        self@.valid()
    }

    /// A supply that holds five `I` shapes.
    pub fn new() -> (supplier: TetrominoSupplier)
        ensures
            supplier.wf(),
            supplier@ == Supply::initial(),
    {
        let supplier = TetrominoSupplier { idx: 0, list: [Tetromino::I;5] };
        proof {
            assert(supplier@.slots =~= Supply::initial().slots);
        }
        supplier
    }

    /// The shape that comes `idx` pops from now. The ring has five slots, so
    /// `idx` counts modulo five.
    pub fn get(&self, idx: usize) -> (shape: Tetromino)
        requires
            self.wf(),
        ensures
            shape == self@.peek(idx as int),
            shape.is_playable(),
    {
        self.list[(self.idx + idx % 5) % 5]
    }

    /// Replaces every slot by a freshly drawn shape.
    pub fn fill(&mut self, rng: &mut rand::rngs::StdRng)
        requires
            old(self).wf(),
        ensures
            final(self).wf(),
            final(self)@ == old(self)@.filled(final(self)@.slots),
    {
        let mut shapes: [Tetromino; 5] = [Tetromino::I;5];
        let mut i: usize = 0;
        while i < 5
            invariant
                i <= 5,
                forall|j: int| 0 <= j < 5 ==> (#[trigger] shapes[j]).is_playable(),
            decreases 5 - i,
        {
            shapes[i] = Tetromino::gen(rng);
            i += 1;
        }
        self.fill_with(shapes);
    }

    /// Replaces the five slots by `shapes`, slot by slot.
    pub fn fill_with(&mut self, shapes: [Tetromino; 5])
        requires
            old(self).wf(),
            forall|j: int| 0 <= j < 5 ==> (#[trigger] shapes[j]).is_playable(),
        ensures
            final(self).wf(),
            final(self)@ == old(self)@.filled(shapes@),
    {
        self.list = shapes;
    }

    /// Takes the next shape and refills its slot with a freshly drawn one.
    pub fn pop(&mut self, rng: &mut rand::rngs::StdRng) -> (shape: Tetromino)
        requires
            old(self).wf(),
        ensures
            final(self).wf(),
            shape == old(self)@.peek(0),
            shape.is_playable(),
            final(self)@ == old(self)@.popped(final(self)@.peek(4)),
    {
        let fresh = Tetromino::gen(rng);
        self.pop_with(fresh)
    }

    /// Takes the next shape and refills its slot with `fresh`.
    pub fn pop_with(&mut self, fresh: Tetromino) -> (shape: Tetromino)
        requires
            old(self).wf(),
            fresh.is_playable(),
        ensures
            final(self).wf(),
            shape == old(self)@.peek(0),
            shape.is_playable(),
            final(self)@ == old(self)@.popped(fresh),
    {
        let current = self.list[self.idx];
        self.list[self.idx] = fresh;
        self.idx = (self.idx + 1) % 5;
        current
    }
}

} // verus!
