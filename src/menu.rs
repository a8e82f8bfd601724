use vstd::prelude::*;

verus! {

/// A list of menu items, each with a position from 0.
pub trait MenuItemList: Sized {
    /// How many items the list has.
    spec fn count() -> nat;

    /// The position of an item.
    spec fn index_of(&self) -> nat;

    /// The position of the item.
    fn as_index(&self) -> (r: usize)
        ensures
            r == self.index_of(),
            r < Self::count(),
    ;

    /// The item at `index`; past the end, the first item.
    fn from_index(index: usize) -> (r: Self)
        ensures
            index < Self::count() ==> r.index_of() == index,
            index >= Self::count() ==> r.index_of() == 0,
    ;

    /// How many items the list has, at least one.
    fn length() -> (r: usize)
        ensures
            r == Self::count(),
            r >= 1,
    ;
}

/// The entries of the main menu.
#[derive(Clone, Copy, PartialEq, Eq, Structural, Debug)]
pub enum MainMenuItem {
    StartSequencer,
    LinkController,
    Settings,
    Exit,
}

/// The entries of the sequencer's side menu.
#[derive(Clone, Copy, PartialEq, Eq, Structural, Debug)]
pub enum SequencerMenuItem {
    OnOff,
    Scale,
    Save,
    Load,
    Exit,
}

impl MenuItemList for MainMenuItem {
    open spec fn count() -> nat {
        4
    }

    open spec fn index_of(&self) -> nat {
        match self {
            MainMenuItem::StartSequencer => 0,
            MainMenuItem::LinkController => 1,
            MainMenuItem::Settings => 2,
            MainMenuItem::Exit => 3,
        }
    }

    fn as_index(&self) -> (r: usize) {
        match self {
            MainMenuItem::StartSequencer => 0,
            MainMenuItem::LinkController => 1,
            MainMenuItem::Settings => 2,
            MainMenuItem::Exit => 3,
        }
    }

    fn from_index(index: usize) -> (r: Self) {
        match index {
            0 => MainMenuItem::StartSequencer,
            1 => MainMenuItem::LinkController,
            2 => MainMenuItem::Settings,
            3 => MainMenuItem::Exit,
            _ => MainMenuItem::StartSequencer,
        }
    }

    fn length() -> (r: usize) {
        MainMenuItem::Exit.as_index() + 1
    }
}

impl MenuItemList for SequencerMenuItem {
    open spec fn count() -> nat {
        5
    }

    open spec fn index_of(&self) -> nat {
        match self {
            SequencerMenuItem::OnOff => 0,
            SequencerMenuItem::Scale => 1,
            SequencerMenuItem::Save => 2,
            SequencerMenuItem::Load => 3,
            SequencerMenuItem::Exit => 4,
        }
    }

    fn as_index(&self) -> (r: usize) {
        match self {
            SequencerMenuItem::OnOff => 0,
            SequencerMenuItem::Scale => 1,
            SequencerMenuItem::Save => 2,
            SequencerMenuItem::Load => 3,
            SequencerMenuItem::Exit => 4,
        }
    }

    fn from_index(index: usize) -> (r: Self) {
        match index {
            0 => SequencerMenuItem::OnOff,
            1 => SequencerMenuItem::Scale,
            2 => SequencerMenuItem::Save,
            3 => SequencerMenuItem::Load,
            4 => SequencerMenuItem::Exit,
            _ => SequencerMenuItem::OnOff,
        }
    }

    fn length() -> (r: usize) {
        SequencerMenuItem::Exit.as_index() + 1
    }
}

/// The item above `item`, from the first wrapping round to the last.
pub fn previous_wrapping<T: MenuItemList>(item: &T) -> (r: T)
    ensures
        r.index_of() == (item.index_of() + T::count() - 1) % (T::count() as int),
{
    let len = T::length();
    let i = item.as_index();
    let target = if i == 0 {
        len - 1
    } else {
        i - 1
    };
    proof {
        vstd::arithmetic::div_mod::lemma_small_mod(target as nat, len as nat);
        if i != 0 {
            vstd::arithmetic::div_mod::lemma_mod_add_multiples_vanish(i - 1, len as int);
        }
    }
    T::from_index(target)
}

/// The item below `item`, from the last wrapping round to the first.
pub fn next_wrapping<T: MenuItemList>(item: &T) -> (r: T)
    ensures
        r.index_of() == (item.index_of() as int + 1) % (T::count() as int),
{
    let len = T::length();
    let i = item.as_index();
    let target = if i + 1 == len {
        0
    } else {
        i + 1
    };
    proof {
        if i + 1 == len {
            vstd::arithmetic::div_mod::lemma_mod_self_0(len as int);
        } else {
            vstd::arithmetic::div_mod::lemma_small_mod((i + 1) as nat, len as nat);
        }
    }
    T::from_index(target)
}

/// The item above `item`; the first stays where it is.
pub fn previous_clamped<T: MenuItemList>(item: &T) -> (r: T)
    ensures
        r.index_of() == if item.index_of() == 0 {
            0
        } else {
            item.index_of() - 1
        },
{
    let i = item.as_index();
    if i == 0 {
        T::from_index(0)
    } else {
        T::from_index(i - 1)
    }
}

/// The item below `item`; the last stays where it is.
pub fn next_clamped<T: MenuItemList>(item: &T) -> (r: T)
    ensures
        r.index_of() == if item.index_of() + 1 == T::count() {
            item.index_of() as int
        } else {
            item.index_of() as int + 1
        },
{
    let len = T::length();
    let i = item.as_index();
    if i + 1 == len {
        T::from_index(i)
    } else {
        T::from_index(i + 1)
    }
}

/// The screen shown and what is selected on it.
#[derive(Clone, Copy, PartialEq, Eq, Debug)]
pub enum Menu {
    Main { selected_menu: MainMenuItem },
    /// The sequencer screen: either an entry of its side menu is selected, or
    /// a note of the current sequence, or a sequence of the playlist.
    Sequencer {
        selected_menu: Option<SequencerMenuItem>,
        selected_note: Option<usize>,
        selected_sequence: Option<usize>,
    },
    LinkController,
    Settings,
}

impl Menu {
    /// The up key: in the main menu the selection moves up, wrapping round;
    /// elsewhere nothing changes.
    pub fn on_up(&self) -> (r: Menu)
        ensures
            self matches Menu::Main { selected_menu } ==> (r matches Menu::Main {
                selected_menu: m,
            } && m.index_of() == (selected_menu.index_of() + 3) % 4),
            !(self matches Menu::Main { .. }) ==> r == *self,
    {
        match self {
            Menu::Main { selected_menu } => Menu::Main {
                selected_menu: previous_wrapping(selected_menu),
            },
            _ => *self,
        }
    }

    /// The down key: in the main menu the selection moves down, wrapping round;
    /// elsewhere nothing changes.
    pub fn on_down(&self) -> (r: Menu)
        ensures
            self matches Menu::Main { selected_menu } ==> (r matches Menu::Main {
                selected_menu: m,
            } && m.index_of() == (selected_menu.index_of() + 1) % 4),
            !(self matches Menu::Main { .. }) ==> r == *self,
    {
        match self {
            Menu::Main { selected_menu } => Menu::Main { selected_menu: next_wrapping(selected_menu) },
            _ => *self,
        }
    }

    /// The sequencer screen with entry `item` of the side menu selected.
    pub fn sequencer_at(item: SequencerMenuItem) -> (r: Menu)
        ensures
            r == (Menu::Sequencer {
                selected_menu: Some(item),
                selected_note: None,
                selected_sequence: None,
            }),
    {
        Menu::Sequencer { selected_menu: Some(item), selected_note: None, selected_sequence: None }
    }

    /// The up key on the sequencer's side menu: the selection moves up, stopping
    /// at the first entry; elsewhere nothing changes.
    pub fn on_up_submenu(&self) -> (r: Menu)
        ensures
            self matches Menu::Sequencer { selected_menu: Some(item), .. } ==> (r matches Menu::Sequencer {
                selected_menu: Some(m),
                selected_note: None,
                selected_sequence: None,
            } && m.index_of() == if item.index_of() == 0 {
                0
            } else {
                item.index_of() - 1
            }),
            !(self matches Menu::Sequencer { selected_menu: Some(_), .. }) ==> r == *self,
    {
        match self {
            Menu::Sequencer { selected_menu: Some(item), .. } => Menu::sequencer_at(
                previous_clamped(item),
            ),
            _ => *self,
        }
    }

    /// The down key on the sequencer's side menu: the selection moves down,
    /// stopping at the last entry; elsewhere nothing changes.
    pub fn on_down_submenu(&self) -> (r: Menu)
        ensures
            self matches Menu::Sequencer { selected_menu: Some(item), .. } ==> (r matches Menu::Sequencer {
                selected_menu: Some(m),
                selected_note: None,
                selected_sequence: None,
            } && m.index_of() == if item.index_of() == 4 {
                4
            } else {
                item.index_of() + 1
            }),
            !(self matches Menu::Sequencer { selected_menu: Some(_), .. }) ==> r == *self,
    {
        match self {
            Menu::Sequencer { selected_menu: Some(item), .. } => Menu::sequencer_at(next_clamped(item)),
            _ => *self,
        }
    }

    /// The right key on the sequencer's side menu: the selection goes to the
    /// first note; elsewhere nothing changes.
    pub fn on_right_submenu(&self) -> (r: Menu)
        ensures
            self matches Menu::Sequencer { selected_menu: Some(_), .. } ==> r == (Menu::Sequencer {
                selected_menu: None,
                selected_note: Some(0),
                selected_sequence: None,
            }),
            !(self matches Menu::Sequencer { selected_menu: Some(_), .. }) ==> r == *self,
    {
        match self {
            Menu::Sequencer { selected_menu: Some(_), .. } => Menu::Sequencer {
                selected_menu: None,
                selected_note: Some(0),
                selected_sequence: None,
            },
            _ => *self,
        }
    }

    /// The left key on a selected note: the selection moves one note left, and
    /// from the first note back to the first entry of the side menu; elsewhere
    /// nothing changes.
    pub fn on_left_notes(&self) -> (r: Menu)
        ensures
            self matches Menu::Sequencer { selected_note: Some(i), .. } ==> r == if i > 0 {
                Menu::Sequencer {
                    selected_menu: None,
                    selected_note: Some((i - 1) as usize),
                    selected_sequence: None,
                }
            } else {
                Menu::Sequencer {
                    selected_menu: Some(SequencerMenuItem::OnOff),
                    selected_note: None,
                    selected_sequence: None,
                }
            },
            !(self matches Menu::Sequencer { selected_note: Some(_), .. }) ==> r == *self,
    {
        match self {
            Menu::Sequencer { selected_note: Some(i), .. } => {
                if *i > 0 {
                    Menu::Sequencer {
                        selected_menu: None,
                        selected_note: Some(*i - 1),
                        selected_sequence: None,
                    }
                } else {
                    Menu::sequencer_at(SequencerMenuItem::OnOff)
                }
            },
            _ => *self,
        }
    }

    /// The right key on a selected note of a sequence of `sequence_length`
    /// notes: the selection moves one note right, stopping at the last note;
    /// elsewhere nothing changes.
    pub fn on_right_notes(&self, sequence_length: usize) -> (r: Menu)
        ensures
            self matches Menu::Sequencer { selected_note: Some(i), .. } ==> r == if i + 1
                < sequence_length {
                Menu::Sequencer {
                    selected_menu: None,
                    selected_note: Some((i + 1) as usize),
                    selected_sequence: None,
                }
            } else {
                *self
            },
            !(self matches Menu::Sequencer { selected_note: Some(_), .. }) ==> r == *self,
    {
        match self {
            Menu::Sequencer { selected_note: Some(i), .. } => {
                if *i < sequence_length && *i + 1 < sequence_length {
                    Menu::Sequencer {
                        selected_menu: None,
                        selected_note: Some(*i + 1),
                        selected_sequence: None,
                    }
                } else {
                    *self
                }
            },
            _ => *self,
        }
    }
}

} // verus!
