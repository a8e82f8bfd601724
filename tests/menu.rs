use microtonal_sequencer::menu::{
    next_clamped, next_wrapping, previous_clamped, previous_wrapping, MainMenuItem, Menu,
    MenuItemList, SequencerMenuItem,
};

#[test]
fn main_menu_indices_round_trip() {
    assert_eq!(MainMenuItem::length(), 4);
    for i in 0..4 {
        assert_eq!(MainMenuItem::from_index(i).as_index(), i);
    }
    assert_eq!(MainMenuItem::from_index(9), MainMenuItem::StartSequencer);
    assert_eq!(MainMenuItem::Exit.as_index(), 3);
}

#[test]
fn sequencer_menu_indices_round_trip() {
    assert_eq!(SequencerMenuItem::length(), 5);
    for i in 0..5 {
        assert_eq!(SequencerMenuItem::from_index(i).as_index(), i);
    }
    assert_eq!(SequencerMenuItem::from_index(5), SequencerMenuItem::OnOff);
}

#[test]
fn wrapping_and_clamped_moves() {
    assert_eq!(next_wrapping(&MainMenuItem::Exit), MainMenuItem::StartSequencer);
    assert_eq!(previous_wrapping(&MainMenuItem::StartSequencer), MainMenuItem::Exit);
    assert_eq!(next_wrapping(&MainMenuItem::LinkController), MainMenuItem::Settings);
    assert_eq!(next_clamped(&SequencerMenuItem::Exit), SequencerMenuItem::Exit);
    assert_eq!(previous_clamped(&SequencerMenuItem::OnOff), SequencerMenuItem::OnOff);
    assert_eq!(previous_clamped(&SequencerMenuItem::Load), SequencerMenuItem::Save);
}

#[test]
fn main_menu_keys() {
    let m = Menu::Main { selected_menu: MainMenuItem::StartSequencer };
    assert_eq!(m.on_up(), Menu::Main { selected_menu: MainMenuItem::Exit });
    assert_eq!(m.on_down(), Menu::Main { selected_menu: MainMenuItem::LinkController });
    assert_eq!(Menu::Settings.on_up(), Menu::Settings);
}

#[test]
fn sequencer_menu_keys() {
    let m = Menu::sequencer_at(SequencerMenuItem::OnOff);
    assert_eq!(m.on_up_submenu(), m);
    let down = m.on_down_submenu();
    assert_eq!(down, Menu::sequencer_at(SequencerMenuItem::Scale));
    let last = Menu::sequencer_at(SequencerMenuItem::Exit);
    assert_eq!(last.on_down_submenu(), last);
    let notes = m.on_right_submenu();
    assert_eq!(
        notes,
        Menu::Sequencer { selected_menu: None, selected_note: Some(0), selected_sequence: None }
    );
    assert_eq!(notes.on_left_notes(), m);
    let second = notes.on_right_notes(3);
    assert_eq!(
        second,
        Menu::Sequencer { selected_menu: None, selected_note: Some(1), selected_sequence: None }
    );
    let third = second.on_right_notes(3);
    assert_eq!(third.on_right_notes(3), third);
    assert_eq!(third.on_left_notes(), second);
    assert_eq!(Menu::LinkController.on_right_notes(3), Menu::LinkController);
}
