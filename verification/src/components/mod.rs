//! The components that come with the library.

pub mod container;
pub mod echo_text;
pub mod fps;
pub mod positioned_text;
pub mod spinner;
pub mod text_input;

pub use container::Container;
pub use echo_text::EchoText;
pub use fps::Fps;
pub use positioned_text::PositionedText;
pub use spinner::Spinner;
pub use text_input::TextInput;

use vstd::prelude::*;
use crate::component::{MakeupMessage, RawComponentMessage};

verus! {

/// The text after the first `n` messages of a mailbox have been read in order:
/// that of the last `TextUpdate` among them, or the text as it was.
pub open spec fn text_after<M>(mailbox: Seq<RawComponentMessage<M>>, n: nat, text: Seq<char>) -> Seq<
    char,
>
    decreases n,
{
    if n == 0 || n > mailbox.len() {
        text
    } else {
        match mailbox[n - 1] {
            RawComponentMessage::Makeup(MakeupMessage::TextUpdate(update)) => update@,
            _ => text_after(mailbox, (n - 1) as nat, text),
        }
    }
}

/// Reads the mailbox in order and takes over the text of every `TextUpdate`.
pub fn read_text_updates<M>(mailbox: &Vec<RawComponentMessage<M>>, text: &mut String)
    ensures
        final(text)@ == text_after(mailbox@, mailbox@.len(), old(text)@),
{
    let mut i: usize = 0;
    while i < mailbox.len()
        invariant
            i <= mailbox.len(),
            text@ == text_after(mailbox@, i as nat, old(text)@),
        decreases mailbox.len() - i,
    {
        match &mailbox[i] {
            RawComponentMessage::Makeup(MakeupMessage::TextUpdate(update)) => {
                *text = update.clone();
            },
            _ => {},
        }
        i += 1;
    }
}

} // verus!
