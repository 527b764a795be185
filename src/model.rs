//! The counter register and the commands that the window's buttons send it.

use crate::label::{decimal, label_of, label_text_of};
use vstd::arithmetic::div_mod::lemma_add_mod_noop;
use vstd::prelude::*;

verus! {

/// A command from the window: one per button.
#[derive(Debug, Clone, Copy, PartialEq, Eq, Structural)]
pub enum AppInput {
    /// The "Increment" button.
    Increment,
    /// The "Decrement" button.
    Decrement,
    /// The decorative icon button, which leaves the counter alone.
    NoOp,
}

/// `v + 1`, wrapping 255 round to 0.
pub open spec fn wrap_inc(v: u8) -> u8 {
    ((v + 1) % 256) as u8
}

/// `v - 1`, wrapping 0 round to 255.
pub open spec fn wrap_dec(v: u8) -> u8 {
    ((v - 1) % 256) as u8
}

/// The value that command `m` leaves in a counter that held `v`.
pub open spec fn step(v: u8, m: AppInput) -> u8 {
    match m {
        AppInput::Increment => wrap_inc(v),
        AppInput::Decrement => wrap_dec(v),
        AppInput::NoOp => v,
    }
}

/// The value after the commands `ms`, applied in order, to a counter that held `v`.
pub open spec fn run(v: u8, ms: Seq<AppInput>) -> u8
    decreases ms.len(),
{
    if ms.len() == 0 {
        v
    } else {
        run(step(v, ms[0]), ms.drop_first())
    }
}

/// The number of increments in `ms` less the number of decrements.
pub open spec fn net_delta(ms: Seq<AppInput>) -> int
    decreases ms.len(),
{
    if ms.len() == 0 {
        0
    } else {
        let d: int = match ms[0] {
            AppInput::Increment => 1,
            AppInput::Decrement => -1,
            AppInput::NoOp => 0,
        };
        d + net_delta(ms.drop_first())
    }
}

/// Incrementing and then decrementing gives back the value started from, and
/// so does decrementing and then incrementing.
pub proof fn lemma_increment_decrement_round_trip(v: u8)
    ensures
        wrap_dec(wrap_inc(v)) == v,
        wrap_inc(wrap_dec(v)) == v,
{
}

/// After any sequence of commands the counter holds the start value plus the
/// increments less the decrements, modulo 256, and the label shows that number.
pub proof fn lemma_run_net_delta(init: u8, ms: Seq<AppInput>)
    ensures
        run(init, ms) as int == (init + net_delta(ms)) % 256,
        label_of(run(init, ms)) == "Counter: "@ + decimal(((init + net_delta(ms)) % 256) as nat),
    decreases ms.len(),
{
    if ms.len() > 0 {
        let v1 = step(init, ms[0]);
        let rest = ms.drop_first();
        let d = net_delta(ms) - net_delta(rest);
        lemma_run_net_delta(v1, rest);
        assert(v1 as int == (init + d) % 256);
        lemma_add_mod_noop(init + d, net_delta(rest), 256);
        lemma_add_mod_noop(v1 as int, net_delta(rest), 256);
    }
}

/// The decorative button's command never changes what the label shows.
pub proof fn lemma_no_op_keeps_label(v: u8)
    ensures
        label_of(step(v, AppInput::NoOp)) == label_of(v),
{
}

/// The counter: one 8-bit register.
pub struct AppModel {
    counter: u8,
}

impl View for AppModel {
    type V = u8;

    closed spec fn view(&self) -> u8 {
        self.counter
    }
}

impl AppModel {
    /// A counter that starts at `init`.
    pub fn init(init: u8) -> (r: AppModel)
        ensures
            r@ == init,
    {
        AppModel { counter: init }
    }

    /// The value held.
    pub fn current(&self) -> (r: u8)
        ensures
            r == self@,
    {
        self.counter
    }

    /// Adds one, wrapping 255 round to 0.
    pub fn increment(&mut self)
        ensures
            final(self)@ == wrap_inc(old(self)@),
    {
        self.counter = self.counter.wrapping_add(1);
    }

    /// Takes one away, wrapping 0 round to 255.
    pub fn decrement(&mut self)
        ensures
            final(self)@ == wrap_dec(old(self)@),
    {
        self.counter = self.counter.wrapping_sub(1);
    }

    /// Applies one command from the window.
    pub fn update(&mut self, message: AppInput)
        ensures
            final(self)@ == step(old(self)@, message),
    {
        match message {
            AppInput::Increment => self.increment(),
            AppInput::Decrement => self.decrement(),
            AppInput::NoOp => {},
        }
    }

    /// The text that the label shows: `Counter: ` and the value in decimal.
    pub fn label_text(&self) -> (r: String)
        ensures
            r@ == label_of(self@),
    {
        label_text_of(self.counter)
    }
}

impl Default for AppModel {
    /// A counter that starts at 0.
    fn default() -> (r: AppModel)
        ensures
            r@ == 0,
    {
        AppModel::init(0)
    }
}

} // verus!
