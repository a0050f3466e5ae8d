use vstd::prelude::*;
use vstd::array::spec_array_fill_for_copy_type;

verus! {

/// The eight buttons of a gamepad, in the order the shift register reports them.
#[derive(Clone, Copy, Debug, PartialEq, Eq)]
pub enum Button {
    A,
    B,
    Select,
    Start,
    Up,
    Down,
    Left,
    Right,
}

impl Button {
    /// Position of the button in the report.
    pub open spec fn index(self) -> int {
        match self {
            Button::A => 0,
            Button::B => 1,
            Button::Select => 2,
            Button::Start => 3,
            Button::Up => 4,
            Button::Down => 5,
            Button::Left => 6,
            Button::Right => 7,
        }
    }

    /// Position of the button in the report.
    pub fn slot(self) -> (i: usize)
        ensures
            i == self.index(),
    {
        match self {
            Button::A => 0,
            Button::B => 1,
            Button::Select => 2,
            Button::Start => 3,
            Button::Up => 4,
            Button::Down => 5,
            Button::Left => 6,
            Button::Right => 7,
        }
    }
}

/// A gamepad: button states, the strobe latch and the position of the next report.
pub struct Controller {
    pub buttons: [bool; 8],
    pub strobe: bool,
    pub index: usize,
}

impl Controller {
    /// The report position is at most one past the last button.
    pub open spec fn wf(&self) -> bool {
        self.index <= 8
    }

    /// The gamepad after a write of `value` to its register.
    pub open spec fn after_store(self, value: u8) -> Controller {
        Controller {
            strobe: value % 2 == 1,
            index: if value % 2 == 1 {
                0
            } else {
                self.index
            },
            ..self
        }
    }

    /// The byte a read of the register returns.
    pub open spec fn load_value(self) -> u8 {
        if self.strobe {
            if self.buttons[0] {
                1
            } else {
                0
            }
        } else if self.index < 8 {
            if self.buttons[self.index as int] {
                1
            } else {
                0
            }
        } else {
            1
        }
    }

    /// The gamepad after a read of its register.
    pub open spec fn after_load(self) -> Controller {
        if !self.strobe && self.index < 8 {
            Controller { index: (self.index + 1) as usize, ..self }
        } else {
            self
        }
    }

    /// The gamepad after `button` went down or up.
    pub open spec fn after_update(self, button: Button, pressed: bool) -> Controller {
        Controller { buttons: vstd::array::spec_array_update(self.buttons, button.index(), pressed), ..self }
    }

    /// A gamepad with no button held, ready to report from the first button.
    pub open spec fn idle() -> Controller {
        Controller { buttons: spec_array_fill_for_copy_type::<bool, 8>(false), strobe: false, index: 0 }
    }

    /// An idle gamepad.
    pub fn new() -> (c: Controller)
        ensures
            c == Controller::idle(),
            c.wf(),
    {
        Controller { buttons: [false; 8], strobe: false, index: 0 }
    }

    /// Writes the strobe: while bit 0 is set the report stays at the first button.
    pub fn store_u8(&mut self, value: u8)
        ensures
            *final(self) == old(self).after_store(value),
            old(self).wf() ==> final(self).wf(),
    {
        self.strobe = value % 2 == 1;
        if self.strobe {
            self.index = 0;
        }
    }

    /// Reads the next button of the report, 1 if held; after the eighth every read gives 1.
    pub fn load_u8(&mut self) -> (value: u8)
        requires
            old(self).wf(),
        ensures
            value == old(self).load_value(),
            *final(self) == old(self).after_load(),
            final(self).wf(),
    {
        if self.strobe {
            return if self.buttons[0] {
                1
            } else {
                0
            };
        }
        if self.index < 8 {
            let state = self.buttons[self.index];
            self.index += 1;
            return if state {
                1
            } else {
                0
            };
        }
        1
    }

    /// Records that `button` went down or up.
    pub fn update(&mut self, button: Button, pressed: bool)
        ensures
            *final(self) == old(self).after_update(button, pressed),
            old(self).wf() ==> final(self).wf(),
    {
        let i = button.slot();
        self.buttons[i] = pressed;
    }
}

} // verus!
