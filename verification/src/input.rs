//! Input: what a source of keys hands to the UI.

use vstd::prelude::*;
use crate::console::{ConsoleError, IoFailure, Keypress};

verus! {

/// What one look at the input brought.
#[derive(Debug, Clone, PartialEq, Eq)]
pub enum InputFrame {
    /// A key.
    Frame(Keypress),
    /// Nothing came in time.
    Empty,
    /// The input has ended.
    End,
}

/// A source of keys.
pub trait Input {
    /// Looks at the input once.
    fn next_frame(&mut self) -> Result<InputFrame, ConsoleError>;
}

/// Turns what the console read into an input frame: a key becomes a frame, no
/// key an empty frame. An interrupt and the end of the input both end the
/// input; every other error stays an error.
pub fn frame_of(read: Result<Option<Keypress>, ConsoleError>) -> (r: Result<
    InputFrame,
    ConsoleError,
>)
    ensures
        r == match read {
            Ok(Some(key)) => Ok::<InputFrame, ConsoleError>(InputFrame::Frame(key)),
            Ok(None) => Ok(InputFrame::Empty),
            Err(ConsoleError::Interrupted) => Ok(InputFrame::End),
            Err(ConsoleError::Io(IoFailure::UnexpectedEof)) => Ok(InputFrame::End),
            Err(e) => Err(e),
        },
{
    match read {
        Ok(Some(key)) => Ok(InputFrame::Frame(key)),
        Ok(None) => Ok(InputFrame::Empty),
        Err(ConsoleError::Interrupted) => Ok(InputFrame::End),
        Err(ConsoleError::Io(IoFailure::UnexpectedEof)) => Ok(InputFrame::End),
        Err(e) => Err(e),
    }
}

/// The keys among the first `n` frames, in order.
pub open spec fn pressed(frames: Seq<InputFrame>, n: nat) -> Seq<Keypress>
    decreases n,
{
    if n == 0 || n > frames.len() {
        Seq::empty()
    } else {
        match frames[n - 1] {
            InputFrame::Frame(key) => pressed(frames, (n - 1) as nat).push(key),
            _ => pressed(frames, (n - 1) as nat),
        }
    }
}

/// Whether one of the frames says that the input has ended.
pub open spec fn input_ended(frames: Seq<InputFrame>) -> bool {
    exists|i: int| 0 <= i < frames.len() && frames[i] == InputFrame::End
}

/// Collects the keys of the frames that came since the last update, in order.
/// `None` where the input has ended.
pub fn collect_pending_input(frames: Vec<InputFrame>) -> (keys: Option<Vec<Keypress>>)
    ensures
        input_ended(frames@) ==> keys is None,
        !input_ended(frames@) ==> (keys matches Some(k) && k@ == pressed(frames@, frames@.len())),
{
    let ghost all = frames@;
    let mut pending_input: Vec<Keypress> = Vec::new();
    for frame in it: frames
        invariant
            it.seq() == all,
            pending_input@ == pressed(all, it.index() as nat),
            forall|j: int| 0 <= j < it.index() ==> all[j] != InputFrame::End,
    {
        match frame {
            InputFrame::Frame(key) => {
                pending_input.push(key);
            },
            InputFrame::Empty => {},
            InputFrame::End => {
                assert(all[it.index() as int] == InputFrame::End);
                return None;
            },
        }
    }
    Some(pending_input)
}

} // verus!
