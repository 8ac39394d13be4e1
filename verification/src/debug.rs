//! How loud a message of the Vulkan validation layers is reported.
use crate::text::chars_of;
use vstd::prelude::*;

verus! {

/// How a validation message is reported.
#[derive(Debug, Clone, Copy, PartialEq, Eq, Structural)]
pub enum MessageLevel {
    /// Not reported.
    Ignored,
    /// Reported as a warning.
    Warning,
    /// Reported as an error.
    Error,
}

/// `s` begins with `prefix`.
pub open spec fn starts_with(s: Seq<char>, prefix: Seq<char>) -> bool {
    prefix.len() <= s.len() && s.take(prefix.len() as int) == prefix
}

/// `s` begins with `prefix`.
pub fn str_starts_with(s: &str, prefix: &str) -> (begins: bool)
    ensures
        begins == starts_with(s@, prefix@),
{
    let text = chars_of(s);
    let head = chars_of(prefix);
    if head.len() > text.len() {
        return false;
    }
    let mut i: usize = 0;
    while i < head.len()
        invariant
            text@ == s@,
            head@ == prefix@,
            head@.len() <= text@.len(),
            i <= head@.len(),
            forall|j: int| 0 <= j < i ==> text@[j] == head@[j],
        decreases head@.len() - i,
    {
        if text[i] != head[i] {
            assert(s@.take(prefix@.len() as int)[i as int] != prefix@[i as int]);
            return false;
        }
        i += 1;
    }
    assert(s@.take(prefix@.len() as int) =~= prefix@);
    true
}

/// The report level of a validation message: performance warnings are
/// dropped, warnings about undefined valid usage are warnings, and all else
/// is an error.
pub open spec fn spec_message_level(message: Seq<char>) -> MessageLevel {
    if starts_with(message, "Validation Performance Warning"@) {
        MessageLevel::Ignored
    } else if starts_with(message, "Validation Warning: [ VUID_Undefined ]"@) {
        MessageLevel::Warning
    } else {
        MessageLevel::Error
    }
}

/// The report level of the validation message `message`.
pub fn message_level(message: &str) -> (level: MessageLevel)
    ensures
        level == spec_message_level(message@),
{
    if str_starts_with(message, "Validation Performance Warning") {
        MessageLevel::Ignored
    } else if str_starts_with(message, "Validation Warning: [ VUID_Undefined ]") {
        MessageLevel::Warning
    } else {
        MessageLevel::Error
    }
}

} // verus!
