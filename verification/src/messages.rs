//! The static read-only text embedded in the module image, and the pure
//! helper that picks a diagnostic message from an integer selector.

use vstd::prelude::*;

verus! {

/// The message that the selector maps `choice` to: selector 0 names the
/// zero message, every other selector the else-branch message.
pub open spec fn selected_message(choice: i32) -> Seq<char> {
    if choice == 0 {
        "Zero\n"@
    } else {
        "Else branch\n"@
    }
}

/// Pure helper, externally callable: maps an integer selector to one of
/// two fixed static strings.  No side effect, no host call.
pub fn get_string(choice: i32) -> (s: &'static str)
    ensures
        s@ == selected_message(choice),
{
    if choice == 0 {
        "Zero\n"
    } else {
        "Else branch\n"
    }
}

/// The fixed greeting that the no-parameter entry point emits.
pub fn greeting() -> (s: &'static str)
    ensures
        s@ == "Hello World!\n"@,
{
    "Hello World!\n"
}

/// The exact shape of the two selector messages: the zero message is the 5
/// bytes "Zero" plus a terminating newline, the else-branch message the 12
/// bytes "Else branch" plus a terminating newline, and the two differ.
pub proof fn lemma_message_shapes()
    ensures
        "Zero\n"@.len() == 5,
        "Zero\n"@[4] == '\n',
        "Else branch\n"@.len() == 12,
        "Else branch\n"@[11] == '\n',
        "Zero\n"@ != "Else branch\n"@,
{
    reveal_strlit("Zero\n");
    reveal_strlit("Else branch\n");
}

/// The greeting is the 13 bytes "Hello World!" plus a terminating newline.
pub proof fn lemma_greeting_shape()
    ensures
        "Hello World!\n"@.len() == 13,
        "Hello World!\n"@[12] == '\n',
{
    reveal_strlit("Hello World!\n");
}

} // verus!
