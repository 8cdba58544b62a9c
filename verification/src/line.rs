//! A circular buffer with a write head: the memory of the delay and of the
//! reverb's filters.

use vstd::prelude::*;

verus! {

/// The slots of a [`Line`] and the place of its write head.
pub struct LineView<T> {
    /// The stored values.
    pub slots: Seq<T>,
    /// The slot that the next write goes to.
    pub position: nat,
}

impl<T> LineView<T> {
    /// What every line keeps: the write head is at one of the slots, or at
    /// zero where there are none.
    pub open spec fn wf(self) -> bool {
        self.position < self.slots.len() || (self.slots.len() == 0 && self.position == 0)
    }

    /// The slot `index`, counted round the buffer.
    pub open spec fn at(self, index: int) -> T {
        self.slots[index % (self.slots.len() as int)]
    }

    /// The line after `value` was written at the write head and the head
    /// moved on by one slot, round the buffer.
    pub open spec fn written(self, value: T) -> LineView<T> {
        LineView {
            slots: self.slots.update(self.position as int, value),
            position: ((self.position as int + 1) % (self.slots.len() as int)) as nat,
        }
    }

    /// The line after `values` were written, one after the other.
    pub open spec fn written_all(self, values: Seq<T>) -> LineView<T>
        decreases values.len(),
    {
        if values.len() == 0 {
            self
        } else {
            self.written_all(values.drop_last()).written(values.last())
        }
    }
}

/// A circular buffer with a write head.
pub struct Line<T> {
    buffer: Vec<T>,
    position: usize,
}

impl<T> View for Line<T> {
    type V = LineView<T>;

    closed spec fn view(&self) -> LineView<T> {
        LineView { slots: self.buffer@, position: self.position as nat }
    }
}

impl<T: Copy> Line<T> {
    /// Creates a line of `length` slots that all hold `fill`, with the write
    /// head at the first slot.
    pub fn new(length: usize, fill: T) -> (line: Line<T>)
        ensures
            line@.wf(),
            line@.position == 0,
            line@.slots.len() == length,
            forall|i: int| 0 <= i < length ==> line@.slots[i] == fill,
    {
        let mut buffer: Vec<T> = Vec::new();
        let mut i: usize = 0;
        while i < length
            invariant
                i <= length,
                buffer@.len() == i,
                forall|j: int| 0 <= j < i ==> buffer@[j] == fill,
            decreases length - i,
        {
            buffer.push(fill);
            i = i + 1;
        }
        Line { buffer, position: 0 }
    }

    /// The number of slots.
    pub fn len(&self) -> (length: usize)
        ensures
            length == self@.slots.len(),
    {
        self.buffer.len()
    }

    /// The slot that the next write goes to.
    pub fn position(&self) -> (position: usize)
        ensures
            position == self@.position,
    {
        self.position
    }

    /// The value in slot `index`, counted round the buffer.
    pub fn get(&self, index: usize) -> (value: T)
        requires
            self@.slots.len() > 0,
        ensures
            value == self@.at(index as int),
    {
        self.buffer[index % self.buffer.len()]
    }

    /// The value at the write head: the oldest one in the buffer.
    pub fn read(&self) -> (value: T)
        requires
            self@.wf(),
            self@.slots.len() > 0,
        ensures
            value == self@.slots[self@.position as int],
    {
        self.buffer[self.position]
    }

    /// The values round `index`, counted round the buffer: the one before
    /// it, the one at it, and the two after it.
    pub fn window(&self, index: usize) -> (values: (T, T, T, T))
        requires
            self@.slots.len() > 0,
        ensures
            values.0 == self@.at(index - 1),
            values.1 == self@.at(index as int),
            values.2 == self@.at(index + 1),
            values.3 == self@.at(index + 2),
    {
        let length = self.buffer.len();
        let current = index % length;
        let previous = if current == 0 {
            length - 1
        } else {
            current - 1
        };
        let next = if current + 1 == length {
            0
        } else {
            current + 1
        };
        let after_next = if next + 1 == length {
            0
        } else {
            next + 1
        };
        proof {
            lemma_neighbours(index as int, length as int);
        }
        (self.buffer[previous], self.buffer[current], self.buffer[next], self.buffer[after_next])
    }

    /// Writes `value` at the write head and moves the head on by one slot,
    /// round the buffer.
    pub fn write(&mut self, value: T)
        requires
            old(self)@.wf(),
            old(self)@.slots.len() > 0,
        ensures
            final(self)@.wf(),
            final(self)@ == old(self)@.written(value),
    {
        assert(self.position < self.buffer@.len());
        proof {
            lemma_step(self.position as int, self.buffer@.len() as int);
            assert((self.position as int) % (self.buffer@.len() as int) == self.position)
                by (nonlinear_arith)
                requires
                    0 <= self.position < self.buffer@.len(),
            ;
        }
        let length = self.buffer.len();
        let next = if self.position == length - 1 {
            0
        } else {
            self.position + 1
        };
        self.buffer[self.position] = value;
        self.position = next;
    }
}

/// The neighbours of a slot, round a buffer of `length` slots.
proof fn lemma_neighbours(index: int, length: int)
    requires
        0 <= index,
        0 < length,
    ensures
        (index - 1) % length == (if index % length == 0 {
            length - 1
        } else {
            index % length - 1
        }),
        (index + 1) % length == (if index % length + 1 == length {
            0
        } else {
            index % length + 1
        }),
        (index + 2) % length == (if (index + 1) % length + 1 == length {
            0
        } else {
            (index + 1) % length + 1
        }),
{
    lemma_step(index - 1, length);
    lemma_step(index, length);
    lemma_step(index + 1, length);
}

/// Going on by one, round a buffer of `length` slots.
proof fn lemma_step(index: int, length: int)
    requires
        0 < length,
    ensures
        (index + 1) % length == (if index % length + 1 == length {
            0
        } else {
            index % length + 1
        }),
{
    assert((index + 1) % length == (if index % length + 1 == length {
        0
    } else {
        index % length + 1
    })) by (nonlinear_arith)
        requires
            0 < length,
    ;
}

/// What was written is read back behind the write head.
///
/// After any writes to a line, the value written `age` writes ago sits
/// `age + 1` slots behind the write head, for every age less than the number
/// of slots: a value stays in the line for exactly as many writes as the
/// line has slots.
pub proof fn lemma_written_values_stay<T>(line: LineView<T>, values: Seq<T>, age: int)
    requires
        line.wf(),
        line.slots.len() > 0,
        0 <= age < values.len(),
        age < line.slots.len(),
    ensures
        line.written_all(values).wf(),
        line.written_all(values).slots.len() == line.slots.len(),
        line.written_all(values).at(line.written_all(values).position - 1 - age) == values[
            values.len() - 1 - age
        ],
    decreases values.len(),
{
    let length = line.slots.len() as int;
    let earlier = values.drop_last();
    let before = line.written_all(earlier);
    lemma_written_all_keeps_shape(line, earlier);
    let after = before.written(values.last());
    assert(line.written_all(values) == after);
    lemma_step(before.position as int - 1, length);
    lemma_step(before.position as int, length);
    if age == 0 {
        let head = before.position as int;
        let moved = after.position as int;
        assert((moved - 1) % length == head) by (nonlinear_arith)
            requires
                0 < length,
                0 <= head < length,
                moved == (head + 1) % length,
        ;
    } else {
        lemma_written_values_stay(line, earlier, age - 1);
        // The slot read now is the slot read before, and it is not the one
        // just written.
        let now = (after.position - 1 - age) % length;
        let then = (before.position - 1 - (age - 1)) % length;
        assert(now == then && now != before.position as int) by (nonlinear_arith)
            requires
                0 < length,
                0 < age < length,
                0 <= before.position < length,
                after.position == (before.position as int + 1) % length,
                now == (after.position - 1 - age) % length,
                then == (before.position - 1 - (age - 1)) % length,
        ;
        assert(earlier[earlier.len() - 1 - (age - 1)] == values[values.len() - 1 - age]);
    }
}

/// Writing keeps the number of slots and the write head among them.
pub proof fn lemma_written_all_keeps_shape<T>(line: LineView<T>, values: Seq<T>)
    requires
        line.wf(),
        line.slots.len() > 0,
    ensures
        line.written_all(values).wf(),
        line.written_all(values).slots.len() == line.slots.len(),
    decreases values.len(),
{
    if values.len() > 0 {
        lemma_written_all_keeps_shape(line, values.drop_last());
        let before = line.written_all(values.drop_last());
        let length = line.slots.len() as int;
        assert(0 <= (before.position as int + 1) % length < length) by (nonlinear_arith)
            requires
                0 < length,
        ;
    }
}

} // verus!
