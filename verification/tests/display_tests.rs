use brlapi_server::display::{Command, DisplayState};

#[test]
fn new_display_publishes_blank_snapshot() {
    let (state, snapshot) = DisplayState::new(40, 2);
    assert_eq!(snapshot.len(), 80);
    assert!(snapshot.iter().all(|&c| c == 0));
    assert_eq!(state.braille_matrix.len(), 80);
    assert_eq!(state.cursor_position, None);
}

#[test]
fn get_dimensions_publishes_nothing() {
    let (mut state, _) = DisplayState::new(40, 1);
    let (snapshot, dims) = state.apply(&Command::GetDimensions);
    assert!(snapshot.is_none());
    assert_eq!(dims, Some((40, 1)));
}

#[test]
fn set_cursor_overlays_without_mutating_matrix() {
    let (mut state, _) = DisplayState::new(10, 1);
    let (snapshot, _) = state.apply(&Command::SetBrailleMatrixSection {
        start: 0,
        length: 2,
        braille: vec![0x01, 0x02],
    });
    assert_eq!(snapshot.unwrap(), vec![0x01, 0x02, 0, 0, 0, 0, 0, 0, 0, 0]);
    let (snapshot, _) = state.apply(&Command::SetCursor { position: Some(1) });
    // the snapshot shows dots seven and eight on the cursor cell
    assert_eq!(snapshot.unwrap(), vec![0x01, 0xc2, 0, 0, 0, 0, 0, 0, 0, 0]);
    // the stored matrix is untouched
    assert_eq!(state.braille_matrix, vec![0x01, 0x02, 0, 0, 0, 0, 0, 0, 0, 0]);
    assert_eq!(state.cursor_position, Some(1));
}

#[test]
fn clearing_the_cursor_drops_the_overlay() {
    let (mut state, _) = DisplayState::new(4, 1);
    state.apply(&Command::SetCursor { position: Some(0) });
    let (snapshot, _) = state.apply(&Command::SetCursor { position: None });
    assert_eq!(snapshot.unwrap(), vec![0, 0, 0, 0]);
    assert_eq!(state.cursor_position, None);
}

#[test]
fn section_write_leaves_outside_cells_unchanged() {
    let (mut state, _) = DisplayState::new(6, 1);
    state.apply(&Command::SetBrailleMatrixSection {
        start: 0,
        length: 6,
        braille: vec![1, 2, 3, 4, 5, 6],
    });
    let (snapshot, _) = state.apply(&Command::SetBrailleMatrixSection {
        start: 2,
        length: 2,
        braille: vec![0x70, 0x71],
    });
    assert_eq!(snapshot.unwrap(), vec![1, 2, 0x70, 0x71, 5, 6]);
}

#[test]
fn section_write_keeps_cursor_overlay_in_snapshot() {
    let (mut state, _) = DisplayState::new(3, 1);
    state.apply(&Command::SetCursor { position: Some(0) });
    let (snapshot, _) = state.apply(&Command::SetBrailleMatrixSection {
        start: 0,
        length: 1,
        braille: vec![0x01],
    });
    assert_eq!(snapshot.unwrap(), vec![0xc1, 0, 0]);
    assert_eq!(state.braille_matrix, vec![0x01, 0, 0]);
}

#[test]
fn every_mutating_command_publishes_exactly_one_snapshot() {
    let (mut state, _) = DisplayState::new(5, 1);
    let commands = vec![
        Command::SetCursor { position: Some(2) },
        Command::GetDimensions,
        Command::SetBrailleMatrixSection { start: 1, length: 1, braille: vec![9] },
        Command::GetDimensions,
        Command::SetCursor { position: None },
    ];
    let mut published = 0;
    for cmd in &commands {
        let (snapshot, _) = state.apply(cmd);
        if let Some(s) = snapshot {
            published += 1;
            assert_eq!(s.len(), 5);
        }
    }
    assert_eq!(published, 3);
}
