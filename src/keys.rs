use vstd::prelude::*;

verus! {

/// A key press, as the terminal reports it.
#[derive(Clone, Copy, Debug, PartialEq, Eq, Hash, Structural)]
pub enum Key {
    Enter,
    Tab,
    Backspace,
    Esc,
    Left,
    Right,
    Up,
    Down,
    Ins,
    Delete,
    Home,
    End,
    PageUp,
    PageDown,
    Char(char),
    Ctrl(char),
    Alt(char),
    Unknown,
}

pub fn down_event(key: Key) -> (r: bool)
    ensures
        r == (key == Key::Down || key == Key::Char('j') || key == Key::Ctrl('n')),
{
    matches!(key, Key::Down | Key::Char('j') | Key::Ctrl('n'))
}

pub fn up_event(key: Key) -> (r: bool)
    ensures
        r == (key == Key::Up || key == Key::Char('k') || key == Key::Ctrl('p')),
{
    matches!(key, Key::Up | Key::Char('k') | Key::Ctrl('p'))
}

pub fn left_event(key: Key) -> (r: bool)
    ensures
        r == (key == Key::Left || key == Key::Char('h') || key == Key::Ctrl('b')),
{
    matches!(key, Key::Left | Key::Char('h') | Key::Ctrl('b'))
}

pub fn right_event(key: Key) -> (r: bool)
    ensures
        r == (key == Key::Right || key == Key::Char('l') || key == Key::Ctrl('f')),
{
    matches!(key, Key::Right | Key::Char('l') | Key::Ctrl('f'))
}

pub fn high_event(key: Key) -> (r: bool)
    ensures
        r == (key == Key::Char('H')),
{
    matches!(key, Key::Char('H'))
}

pub fn middle_event(key: Key) -> (r: bool)
    ensures
        r == (key == Key::Char('M')),
{
    matches!(key, Key::Char('M'))
}

pub fn low_event(key: Key) -> (r: bool)
    ensures
        r == (key == Key::Char('L')),
{
    matches!(key, Key::Char('L'))
}

/// The selection after moving down a list of `len` items: the next item,
/// wrapping to the first after the last.
pub open spec fn next_down(len: int, index: Option<usize>) -> int {
    match index {
        Some(i) => if len > 0 && i + 1 <= len - 1 { i + 1 } else { 0 },
        None => 0,
    }
}

/// The selection after moving up a list of `len` items: the previous item,
/// wrapping to the last before the first.
pub open spec fn next_up(len: int, index: Option<usize>) -> int {
    match index {
        Some(i) => if len == 0 { 0 } else if i > 0 { i - 1 } else { len - 1 },
        None => 0,
    }
}

pub fn on_down_press_handler<T>(selection_data: &[T], selection_index: Option<usize>) -> (r: usize)
    ensures
        r == next_down(selection_data@.len() as int, selection_index),
{
    match selection_index {
        Some(selection_index) => {
            if selection_data.len() > 0 {
                if selection_index >= selection_data.len() - 1 {
                    return 0;
                } else {
                    return selection_index + 1;
                }
            }
            0
        },
        None => 0,
    }
}

pub fn on_up_press_handler<T>(selection_data: &[T], selection_index: Option<usize>) -> (r: usize)
    ensures
        r == next_up(selection_data@.len() as int, selection_index),
{
    match selection_index {
        Some(selection_index) => {
            if selection_data.len() > 0 {
                if selection_index > 0 {
                    return selection_index - 1;
                } else {
                    return selection_data.len() - 1;
                }
            }
            0
        },
        None => 0,
    }
}

pub fn on_high_press_handler() -> (r: usize)
    ensures
        r == 0,
{
    0
}

/// The middle item: of an even count, the lower of the two middle ones.
pub fn on_middle_press_handler<T>(selection_data: &[T]) -> (r: usize)
    requires
        selection_data@.len() > 0,
    ensures
        r == if selection_data@.len() % 2 == 0 {
            selection_data@.len() / 2 - 1
        } else {
            (selection_data@.len() / 2) as int
        },
        r < selection_data@.len(),
{
    let mut index = selection_data.len() / 2;
    if selection_data.len() % 2 == 0 {
        index = index - 1;
    }
    index
}

pub fn on_low_press_handler<T>(selection_data: &[T]) -> (r: usize)
    requires
        selection_data@.len() > 0,
    ensures
        r == selection_data@.len() - 1,
{
    selection_data.len() - 1
}

} // verus!
