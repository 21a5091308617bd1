use vstd::prelude::*;

verus! {

/// How many key scancodes the table tracks.
pub const KEY_COUNT: usize = 350;

/// Which keys have been pressed, by scancode.
pub struct Teclado {
    teclas: [bool; 350],
}

impl View for Teclado {
    type V = Seq<bool>;

    closed spec fn view(&self) -> Seq<bool> {
        self.teclas@
    }
}

/// Every key table tracks exactly `KEY_COUNT` keys.
pub proof fn lemma_key_table_len(t: &Teclado)
    ensures
        t@.len() == KEY_COUNT,
{
    assert(t.teclas@.len() == 350);
}

impl Teclado {
    /// A table with no key pressed.
    pub fn new() -> (r: Teclado)
        ensures
            r@.len() == KEY_COUNT,
            forall|i: int| 0 <= i < KEY_COUNT ==> !#[trigger] r@[i],
    {
        Teclado { teclas: [false; 350] }
    }

    /// Marks the key with this scancode as pressed.
    pub fn presionada_tecla(&mut self, scancode: i32)
        requires
            0 <= scancode < KEY_COUNT,
        ensures
            final(self)@ == old(self)@.update(scancode as int, true),
    {
        self.teclas[scancode as usize] = true;
    }
}

} // verus!
