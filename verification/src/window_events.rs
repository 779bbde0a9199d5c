//! How a Win32 window reacts to the messages it is sent.
//!
//! The message loop lives with the platform; this module decides, for each
//! message, what the window does and what it answers.
use vstd::prelude::*;

verus! {

/// The messages a Frame window tells apart.
#[derive(Debug, Clone, Copy, PartialEq, Eq, Structural)]
pub enum WindowMessage {
    Destroy,
    Paint,
    Size,
    EraseBackground,
    LeftButtonDown,
    LeftButtonUp,
    MouseMove,
    KeyDown,
    KeyUp,
    Other,
}

/// What a window does with a message.
#[derive(Debug, Clone, Copy, PartialEq, Eq, Structural)]
pub enum WindowReaction {
    /// Release the window's state and ask the message loop to quit.
    Quit,
    /// Validate the window's area.
    Repaint,
    /// Resize the surface to the new client size, in pixels.
    Resize { width: u32, height: u32 },
    /// Leave the background as it is.
    KeepBackground,
    /// A click at the given point, in pixels.
    Click { x: u32, y: u32 },
    /// Nothing to do.
    Ignore,
    /// Hand the message to the default window procedure.
    Default,
}

/// The low 16 bits of a message parameter.
pub open spec fn low_word(param: int) -> int {
    param % 0x10000
}

/// The 16 bits above the low 16 of a message parameter.
pub open spec fn high_word(param: int) -> int {
    (param / 0x10000) % 0x10000
}

/// The two 16-bit halves packed into the low 32 bits of a message parameter:
/// the low word, then the high word.
pub fn split_param(param: isize) -> (words: (u32, u32))
    ensures
        words.0 == low_word(param as int),
        words.1 == high_word(param as int),
{
    let low = param & 0xFFFF;
    let high = (param >> 16usize) & 0xFFFF;
    assert(low == param % 0x10000 && 0 <= low < 0x10000) by (bit_vector)
        requires
            low == param & 0xFFFF,
    ;
    assert(high == (param / 0x10000) % 0x10000 && 0 <= high < 0x10000) by (bit_vector)
        requires
            high == (param >> 16usize) & 0xFFFF,
    ;
    (low as u32, high as u32)
}

/// The reaction to `message` whose parameter is `param`.
pub open spec fn reaction_to(message: WindowMessage, param: int) -> WindowReaction {
    match message {
        WindowMessage::Destroy => WindowReaction::Quit,
        WindowMessage::Paint => WindowReaction::Repaint,
        WindowMessage::Size => WindowReaction::Resize {
            width: low_word(param) as u32,
            height: high_word(param) as u32,
        },
        WindowMessage::EraseBackground => WindowReaction::KeepBackground,
        WindowMessage::LeftButtonDown => WindowReaction::Click {
            x: low_word(param) as u32,
            y: high_word(param) as u32,
        },
        WindowMessage::LeftButtonUp | WindowMessage::MouseMove => WindowReaction::Ignore,
        WindowMessage::KeyDown | WindowMessage::KeyUp | WindowMessage::Other => WindowReaction::Default,
    }
}

/// What the window does with `message`, whose parameter is `param`.
pub fn react(message: WindowMessage, param: isize) -> (r: WindowReaction)
    ensures
        r == reaction_to(message, param as int),
{
    match message {
        WindowMessage::Destroy => WindowReaction::Quit,
        WindowMessage::Paint => WindowReaction::Repaint,
        WindowMessage::Size => {
            let (width, height) = split_param(param);
            WindowReaction::Resize { width, height }
        },
        WindowMessage::EraseBackground => WindowReaction::KeepBackground,
        WindowMessage::LeftButtonDown => {
            let (x, y) = split_param(param);
            WindowReaction::Click { x, y }
        },
        WindowMessage::LeftButtonUp => WindowReaction::Ignore,
        WindowMessage::MouseMove => WindowReaction::Ignore,
        WindowMessage::KeyDown => WindowReaction::Default,
        WindowMessage::KeyUp => WindowReaction::Default,
        WindowMessage::Other => WindowReaction::Default,
    }
}

/// The two 16-bit words of a parameter, low word first and high word on top,
/// make up its low 32 bits again.
proof fn lemma_words_rebuild(param: int)
    ensures
        0 <= low_word(param) < 0x10000,
        0 <= high_word(param) < 0x10000,
        low_word(param) + 0x10000 * high_word(param) == param % 0x1_0000_0000,
{
    let q = param / 0x10000;
    let x = param % 0x10000;
    let y = q % 0x10000;
    assert(param == 0x10000 * q + x) by (nonlinear_arith)
        requires
            q == param / 0x10000,
            x == param % 0x10000,
    ;
    assert(q == 0x10000 * (q / 0x10000) + y) by (nonlinear_arith)
        requires
            y == q % 0x10000,
    ;
    assert(param == 0x1_0000_0000 * (q / 0x10000) + (x + 0x10000 * y)) by (nonlinear_arith)
        requires
            param == 0x10000 * q + x,
            q == 0x10000 * (q / 0x10000) + y,
    ;
    assert((x + 0x10000 * y) == param % 0x1_0000_0000) by (nonlinear_arith)
        requires
            param == 0x1_0000_0000 * (q / 0x10000) + (x + 0x10000 * y),
            0 <= x < 0x10000,
            0 <= y < 0x10000,
    ;
}

/// Whether `low` and `high` are the two 16-bit words that make up the low 32
/// bits of `param`, low word first.
pub open spec fn packs(low: u32, high: u32, param: int) -> bool {
    &&& low < 0x10000
    &&& high < 0x10000
    &&& low + 0x10000 * high == param % 0x1_0000_0000
}

/// Only a left-button press is a click: releasing the button or moving the
/// mouse is ignored, whatever the parameter, and no other message gives a
/// click. A click's point, like a new size, is read from the parameter's low
/// 32 bits: x (or the width) in the low word, y (or the height) in the high
/// word.
pub proof fn law_only_press_clicks(message: WindowMessage, param: int)
    ensures
        (reaction_to(message, param) is Click) ==> message == WindowMessage::LeftButtonDown,
        message == WindowMessage::LeftButtonUp ==> reaction_to(message, param) == WindowReaction::Ignore,
        message == WindowMessage::MouseMove ==> reaction_to(message, param) == WindowReaction::Ignore,
        message == WindowMessage::LeftButtonDown ==> (reaction_to(message, param) matches WindowReaction::Click { x, y } && packs(x, y, param)),
        message == WindowMessage::Size ==> (reaction_to(message, param) matches WindowReaction::Resize { width, height } && packs(width, height, param)),
{
    lemma_words_rebuild(param);
}

/// The answer the window procedure gives for a reaction it handles itself:
/// 1 for keeping the background, 0 otherwise; `None` when the default
/// procedure answers.
pub fn answer(reaction: WindowReaction) -> (r: Option<isize>)
    ensures
        reaction == WindowReaction::Default ==> r is None,
        reaction == WindowReaction::KeepBackground ==> r == Some(1isize),
        reaction != WindowReaction::Default && reaction != WindowReaction::KeepBackground ==> r
            == Some(0isize),
{
    match reaction {
        WindowReaction::Default => None,
        WindowReaction::KeepBackground => Some(1),
        _ => Some(0),
    }
}

} // verus!
