//! The state of the counter window of the desktop demo.

use vstd::prelude::*;

verus! {

/// A press of one of the counter's buttons.
#[derive(Debug, Clone, Copy, PartialEq, Eq, Structural)]
pub enum Message {
    IncrementPressed,
    DecrementPressed,
}

/// The counter that the window shows.
#[derive(Debug, Clone, Copy, PartialEq, Eq, Structural)]
pub struct Counter {
    pub value: i32,
}

/// Whether `message` can be applied to `c` without leaving the range of `i32`.
pub open spec fn can_update(c: Counter, message: Message) -> bool {
    match message {
        Message::IncrementPressed => c.value < i32::MAX,
        Message::DecrementPressed => c.value > i32::MIN,
    }
}

/// The counter after `message`.
pub open spec fn spec_update(c: Counter, message: Message) -> Counter {
    match message {
        Message::IncrementPressed => Counter { value: (c.value + 1) as i32 },
        Message::DecrementPressed => Counter { value: (c.value - 1) as i32 },
    }
}

/// Whether `message` can be applied to `counter` without leaving the range of `i32`.
pub fn can_update_now(counter: &Counter, message: Message) -> (res: bool)
    ensures
        res == can_update(*counter, message),
{
    match message {
        Message::IncrementPressed => counter.value < i32::MAX,
        Message::DecrementPressed => counter.value > i32::MIN,
    }
}

impl Counter {
    /// A counter at zero.
    pub fn new() -> (res: Self)
        ensures
            res.value == 0,
    {
        Counter { value: 0 }
    }

    /// The title of the window.
    pub fn title(&self) -> (res: String)
        ensures
            res@ == "Counter - Iced"@,
    {
        String::from_str("Counter - Iced")
    }

    /// Counts a button press: up for increment, down for decrement.
    pub fn update(&mut self, message: Message)
        requires
            can_update(*old(self), message),
        ensures
            *final(self) == spec_update(*old(self), message),
            message == Message::IncrementPressed ==> final(self).value == old(self).value + 1,
            message == Message::DecrementPressed ==> final(self).value == old(self).value - 1,
    {
        match message {
            Message::IncrementPressed => {
                self.value += 1;
            },
            Message::DecrementPressed => {
                self.value -= 1;
            },
        }
    }
}

/// A decrement undoes an increment, and an increment undoes a decrement.
pub proof fn lemma_update_undo(c: Counter)
    ensures
        can_update(c, Message::IncrementPressed) ==> spec_update(
            spec_update(c, Message::IncrementPressed),
            Message::DecrementPressed,
        ) == c,
        can_update(c, Message::DecrementPressed) ==> spec_update(
            spec_update(c, Message::DecrementPressed),
            Message::IncrementPressed,
        ) == c,
{
}

} // verus!
