//! The standard controller: eight buttons read out through a shift register.
use vstd::prelude::*;

verus! {

pub struct Controller {
    key_state: [bool; 8],
    is_set: bool,
    index: usize,
    register: [bool; 8],
}

/// The controller as a mathematical value.
pub struct ControllerView {
    /// Which of the eight buttons are held down right now.
    pub key_state: Seq<bool>,
    /// Whether the strobe is armed.
    pub is_set: bool,
    /// The position in `register` that the next read returns.
    pub index: int,
    /// The snapshot of `key_state` taken at the last strobe.
    pub register: Seq<bool>,
}

impl ControllerView {
    pub open spec fn wf(self) -> bool {
        &&& self.key_state.len() == 8
        &&& self.register.len() == 8
        &&& 0 <= self.index < 8
    }

    /// The controller after power-up: nothing pressed, nothing latched.
    pub open spec fn initial() -> ControllerView {
        ControllerView {
            key_state: Seq::new(8, |i: int| false),
            is_set: false,
            index: 0,
            register: Seq::new(8, |i: int| false),
        }
    }

    /// The bit that a read returns.
    pub open spec fn read_value(self) -> bool {
        self.register[self.index]
    }

    /// The controller after a read: the read position moves on, modulo 8.
    pub open spec fn read(self) -> ControllerView {
        ControllerView { index: (self.index + 1) % 8, ..self }
    }

    /// The controller after a write of `data` to its port. Bit 0 set arms the
    /// strobe; bit 0 clear on an armed strobe latches the buttons.
    pub open spec fn write(self, data: u8) -> ControllerView {
        if data & 0x01 != 0 {
            ControllerView { is_set: true, ..self }
        } else if self.is_set {
            ControllerView { is_set: false, index: 0, register: self.key_state, ..self }
        } else {
            self
        }
    }

    pub open spec fn key_down(self, key: u8) -> ControllerView {
        ControllerView { key_state: self.key_state.update(key as int, true), ..self }
    }

    pub open spec fn key_up(self, key: u8) -> ControllerView {
        ControllerView { key_state: self.key_state.update(key as int, false), ..self }
    }
}

impl View for Controller {
    type V = ControllerView;

    closed spec fn view(&self) -> ControllerView {
        ControllerView {
            key_state: self.key_state@,
            is_set: self.is_set,
            index: self.index as int,
            register: self.register@,
        }
    }
}

impl Default for Controller {
    fn default() -> (controller: Self)
        ensures
            controller@ == ControllerView::initial(),
            controller@.wf(),
    {
        let controller = Controller {
            key_state: [false; 8],
            is_set: false,
            index: 0,
            register: [false; 8],
        };
        assert(controller@.key_state =~= ControllerView::initial().key_state);
        assert(controller@.register =~= ControllerView::initial().register);
        controller
    }
}

impl Controller {
    pub fn read(&mut self) -> (bit: bool)
        requires
            old(self)@.wf(),
        ensures
            bit == old(self)@.read_value(),
            final(self)@ == old(self)@.read(),
            final(self)@.wf(),
    {
        let result = self.register[self.index];
        self.index = (self.index + 1) % 8;
        result
    }

    pub fn write(&mut self, data: u8)
        requires
            old(self)@.wf(),
        ensures
            final(self)@ == old(self)@.write(data),
            final(self)@.wf(),
    {
        if data & 0x01 != 0 {
            self.is_set = true;
        } else if self.is_set {
            self.is_set = false;
            self.index = 0;
            self.register = self.key_state;
        }
    }

    pub fn key_down(&mut self, key: u8)
        requires
            key < 8,
            old(self)@.wf(),
        ensures
            final(self)@ == old(self)@.key_down(key),
            final(self)@.wf(),
    {
        self.key_state[key as usize] = true;
    }

    pub fn key_up(&mut self, key: u8)
        requires
            key < 8,
            old(self)@.wf(),
        ensures
            final(self)@ == old(self)@.key_up(key),
            final(self)@.wf(),
    {
        self.key_state[key as usize] = false;
    }
}

/// After a strobe, eight reads return the eight buttons in order, as they were
/// held at the strobe, and the ninth read starts over with the first.
pub proof fn lemma_strobe_then_reads(controller: ControllerView, high: u8, low: u8, k: int)
    requires
        controller.wf(),
        high & 0x01 != 0,
        low & 0x01 == 0,
        0 <= k < 8,
    ensures
        reads(controller.write(high).write(low), k).read_value() == controller.key_state[k],
        reads(controller.write(high).write(low), 8).index == 0,
{
    let latched = controller.write(high).write(low);
    lemma_reads_index(latched, k);
    lemma_reads_index(latched, 8);
}

/// The controller after `n` reads.
pub open spec fn reads(controller: ControllerView, n: int) -> ControllerView
    decreases n,
{
    if n <= 0 {
        controller
    } else {
        reads(controller, n - 1).read()
    }
}

proof fn lemma_reads_index(controller: ControllerView, n: int)
    requires
        controller.wf(),
        0 <= n,
    ensures
        reads(controller, n).index == (controller.index + n) % 8,
        reads(controller, n).register == controller.register,
        reads(controller, n).key_state == controller.key_state,
        reads(controller, n).wf(),
    decreases n,
{
    if n > 0 {
        lemma_reads_index(controller, n - 1);
    }
}

} // verus!
