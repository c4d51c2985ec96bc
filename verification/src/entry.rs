//! The exported entry points, modelled over the host import table.
//!
//! The module's imports are two diagnostic sinks: one takes the address
//! and length of a byte sequence, one takes a signed 32-bit integer.  An
//! entry point here returns the exact sequence of import calls it makes,
//! in order, as a log of [`Emit`] values; the host side performs them.
//! The contracts pin, for every input, which sink is called, with which
//! bytes and which number, so that forwarding is exact: no truncation, no
//! missing or extra call.

use vstd::prelude::*;

use crate::heap::align8;
use crate::heap::align_heap_base;
use crate::messages::get_string;
use crate::messages::greeting;
use crate::messages::selected_message;

verus! {

/// One call into the host import table: either a byte sequence handed to
/// the byte sink (the import receives its address and exact length), or a
/// signed 32-bit integer handed to the numeric sink.
#[derive(Clone, Copy, Debug, PartialEq, Eq)]
pub enum Emit {
    Text(&'static str),
    Num(i32),
}

/// Holds when `log` is a single byte-sink call carrying exactly `bytes`.
pub open spec fn emits_text(log: Seq<Emit>, bytes: Seq<char>) -> bool {
    log.len() == 1 && (log[0] matches Emit::Text(s) && s@ == bytes)
}

/// Selector entry point: selects one of the two fixed diagnostic messages
/// and forwards it, whole, to the byte sink.
pub fn print_string(choice: i32) -> (log: Vec<Emit>)
    ensures
        emits_text(log@, selected_message(choice)),
{
    let s = get_string(choice);
    let mut log: Vec<Emit> = Vec::new();
    log.push(Emit::Text(s));
    log
}

/// No-parameter entry point: unconditionally forwards the fixed greeting
/// to the byte sink.
pub fn hello() -> (log: Vec<Emit>)
    ensures
        emits_text(log@, "Hello World!\n"@),
{
    let s = greeting();
    let mut log: Vec<Emit> = Vec::new();
    log.push(Emit::Text(s));
    log
}

/// Heap-initialization entry point: computes the 8-byte-aligned heap start
/// and reports the raw and the aligned value through the numeric sink,
/// each preceded by its label on the byte sink.
pub fn init_heap(heap_base: u32) -> (log: Vec<Emit>)
    ensures
        log@.len() == 4,
        log@[0] matches Emit::Text(s) && s@ == "Heap base: "@,
        log@[1] == Emit::Num(heap_base as i32),
        log@[2] matches Emit::Text(s) && s@ == "Heap base aligned: "@,
        log@[3] == Emit::Num(align8(heap_base) as i32),
{
    let aligned = align_heap_base(heap_base);
    let mut log: Vec<Emit> = Vec::new();
    log.push(Emit::Text("Heap base: "));
    log.push(Emit::Num(#[verifier::truncate] (heap_base as i32)));
    log.push(Emit::Text("Heap base aligned: "));
    log.push(Emit::Num(#[verifier::truncate] (aligned as i32)));
    log
}

/// Fixed-greeting idempotence: the greeting entry point holds no state, so
/// its contract pins every call to the same observable behaviour.  Any two
/// logs it can produce forward the identical byte sequence.
pub proof fn lemma_hello_idempotent(a: Seq<Emit>, b: Seq<Emit>)
    requires
        emits_text(a, "Hello World!\n"@),
        emits_text(b, "Hello World!\n"@),
    ensures
        a.len() == b.len(),
        a[0]->Text_0@ == b[0]->Text_0@,
{
}

} // verus!
