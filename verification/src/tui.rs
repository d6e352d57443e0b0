//! The single-choice menu: which key does what, where the highlight stands, and
//! what a frame looks like. Reading keys and drawing frames is left to the caller.

use vstd::prelude::*;
use vstd::string::*;

verus! {

/// The keys that the menu tells apart.
#[derive(Clone, Copy, Debug, PartialEq, Eq)]
pub enum Key {
    Esc,
    Enter,
    Up,
    Down,
    Char(char),
    Other,
}

/// One key press: the key, and whether Control, and no other modifier, was held.
#[derive(Clone, Copy, Debug, PartialEq, Eq)]
pub struct KeyPress {
    pub key: Key,
    pub control: bool,
}

/// What a key press asks of the menu.
#[derive(Clone, Copy, Debug, PartialEq, Eq, Structural)]
pub enum Command {
    Cancel,
    Confirm,
    Next,
    Previous,
    Ignore,
}

/// What the menu has come to after a key press.
#[derive(Clone, Copy, Debug, PartialEq, Eq, Structural)]
pub enum Progress {
    /// The menu stays open.
    Open,
    /// The item at this index was chosen.
    Chosen(usize),
    /// The menu was left without a choice.
    Cancelled,
}

/// The state of an open menu: `len` items, the one at `position` highlighted.
#[derive(Clone, Copy, Debug, PartialEq, Eq, Structural)]
pub struct Menu {
    pub position: usize,
    pub len: usize,
}

/// Escape, `q` and Control-`c` cancel; Enter confirms; Down and `j` go forward;
/// Up and `k` go back; every other key is ignored.
pub open spec fn command_of(press: KeyPress) -> Command {
    match press.key {
        Key::Esc => Command::Cancel,
        Key::Enter => Command::Confirm,
        Key::Down => Command::Next,
        Key::Up => Command::Previous,
        Key::Char(c) => if c == 'q' {
            Command::Cancel
        } else if c == 'c' {
            if press.control {
                Command::Cancel
            } else {
                Command::Ignore
            }
        } else if c == 'j' {
            Command::Next
        } else if c == 'k' {
            Command::Previous
        } else {
            Command::Ignore
        },
        Key::Other => Command::Ignore,
    }
}

/// Where the highlight stands after a command: one forward, held at the last
/// item; one back, held at the first; unmoved otherwise.
pub open spec fn moved(position: int, len: int, command: Command) -> int {
    match command {
        Command::Next => if position + 1 < len {
            position + 1
        } else {
            position
        },
        Command::Previous => if position > 0 {
            position - 1
        } else {
            position
        },
        _ => position,
    }
}

/// The index chosen by pressing `keys` in turn on a menu of `len` items whose
/// highlight starts at `position`: the highlight at the first Enter, unless a
/// cancelling key comes before it or the keys run out.
pub open spec fn chosen(position: int, len: int, keys: Seq<KeyPress>) -> Option<int>
    decreases keys.len(),
{
    if keys.len() == 0 {
        None
    } else {
        match command_of(keys[0]) {
            Command::Cancel => None,
            Command::Confirm => Some(position),
            command => chosen(moved(position, len, command), len, keys.drop_first()),
        }
    }
}

/// The line drawn for one item: `* ` before the highlighted one, `- ` before the rest.
pub open spec fn item_line(item: Seq<char>, highlighted: bool) -> Seq<char> {
    if highlighted {
        "* "@ + item
    } else {
        "- "@ + item
    }
}

/// One frame: the label, and below it a line for each item.
pub open spec fn frame(label: Seq<char>, items: Seq<Seq<char>>, position: int) -> Seq<Seq<char>> {
    seq![label] + Seq::new(items.len(), |i: int| item_line(items[i], i == position))
}

/// Tells what a key press asks for.
pub fn command(press: &KeyPress) -> (asked: Command)
    ensures
        asked == command_of(*press),
{
    match press.key {
        Key::Esc => Command::Cancel,
        Key::Enter => Command::Confirm,
        Key::Down => Command::Next,
        Key::Up => Command::Previous,
        Key::Char(c) => {
            if c == 'q' {
                Command::Cancel
            } else if c == 'c' {
                if press.control {
                    Command::Cancel
                } else {
                    Command::Ignore
                }
            } else if c == 'j' {
                Command::Next
            } else if c == 'k' {
                Command::Previous
            } else {
                Command::Ignore
            }
        },
        Key::Other => Command::Ignore,
    }
}

impl Menu {
    /// A menu has at least one item, and its highlight is on one of them.
    pub open spec fn wf(self) -> bool {
        self.position < self.len
    }

    /// Opens a menu of `len` items with the first one highlighted.
    pub fn new(len: usize) -> (menu: Menu)
        requires
            len > 0,
        ensures
            menu == (Menu { position: 0, len }),
            menu.wf(),
    {
        Menu { position: 0, len }
    }

    /// Takes one key press: moves the highlight, or closes the menu with the
    /// highlighted item or with none.
    pub fn press(&mut self, press: &KeyPress) -> (progress: Progress)
        requires
            old(self).wf(),
        ensures
            final(self).wf(),
            final(self).len == old(self).len,
            final(self).position == moved(
                old(self).position as int,
                old(self).len as int,
                command_of(*press),
            ),
            progress == match command_of(*press) {
                Command::Cancel => Progress::Cancelled,
                Command::Confirm => Progress::Chosen(old(self).position),
                _ => Progress::Open,
            },
    {
        match command(press) {
            Command::Cancel => Progress::Cancelled,
            Command::Confirm => Progress::Chosen(self.position),
            Command::Next => {
                if self.position < self.len - 1 {
                    self.position = self.position + 1;
                }
                Progress::Open
            },
            Command::Previous => {
                if self.position > 0 {
                    self.position = self.position - 1;
                }
                Progress::Open
            },
            Command::Ignore => Progress::Open,
        }
    }

    /// The lines of the frame to draw for this state.
    pub fn render(&self, label: &str, items: &Vec<String>) -> (lines: Vec<String>)
        requires
            self.wf(),
            items.len() == self.len,
        ensures
            lines@.map_values(|line: String| line@) == frame(
                label@,
                items@.map_values(|item: String| item@),
                self.position as int,
            ),
    {
        let mut lines: Vec<String> = Vec::new();
        lines.push(String::from_str(label));
        let ghost texts = items@.map_values(|item: String| item@);
        let mut index: usize = 0;
        while index < items.len()
            invariant
                index <= items.len(),
                texts == items@.map_values(|item: String| item@),
                lines@.len() == index + 1,
                lines@[0]@ == label@,
                forall|j: int|
                    1 <= j <= index ==> (#[trigger] lines@[j])@ == item_line(
                        texts[j - 1],
                        j - 1 == self.position,
                    ),
            decreases items.len() - index,
        {
            let mut line = if index == self.position {
                String::from_str("* ")
            } else {
                String::from_str("- ")
            };
            line.append(items[index].as_str());
            lines.push(line);
            index = index + 1;
        }
        lines
    }
}

/// Plays `keys` in turn on a menu over `items` and returns the item chosen:
/// the one highlighted at the first Enter, or none when a cancelling key comes
/// first or the keys run out before a choice is made.
pub fn menu<'a>(items: &'a Vec<String>, keys: &Vec<KeyPress>) -> (choice: Option<&'a String>)
    requires
        items.len() > 0,
    ensures
        choice == match chosen(0, items.len() as int, keys@) {
            Some(index) => Some(&items@[index]),
            None => None,
        },
        chosen(0, items.len() as int, keys@) matches Some(index) ==> 0 <= index < items.len(),
{
    let mut state = Menu::new(items.len());
    let mut next: usize = 0;
    assert(keys@.skip(0) =~= keys@);
    while next < keys.len()
        invariant
            next <= keys.len(),
            state.wf(),
            state.len == items.len(),
            chosen(0, items.len() as int, keys@) == chosen(
                state.position as int,
                items.len() as int,
                keys@.skip(next as int),
            ),
        decreases keys.len() - next,
    {
        let ghost rest = keys@.skip(next as int);
        assert(rest.drop_first() =~= keys@.skip(next as int + 1));
        match state.press(&keys[next]) {
            Progress::Cancelled => {
                return None;
            },
            Progress::Chosen(index) => {
                return Some(&items[index]);
            },
            Progress::Open => {},
        }
        next = next + 1;
    }
    None
}

/// A menu never leaves its items: whatever keys are pressed, the index chosen,
/// if any, is that of an item.
pub proof fn lemma_chosen_in_range(position: int, len: int, keys: Seq<KeyPress>)
    requires
        0 <= position < len,
    ensures
        chosen(position, len, keys) matches Some(index) ==> 0 <= index < len,
    decreases keys.len(),
{
    if keys.len() > 0 {
        let command = command_of(keys[0]);
        if command != Command::Cancel && command != Command::Confirm {
            lemma_chosen_in_range(moved(position, len, command), len, keys.drop_first());
        }
    }
}

} // verus!
