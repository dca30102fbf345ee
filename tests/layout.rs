use tcp_chat::layout::{status_bar, BarLayout};

#[test]
fn bar_on_ordinary_viewport() {
    assert_eq!(
        status_bar((80, 24), 17, 24),
        BarLayout { row: 23, fill_len: 79, prompt_col: 17, help_col: 56 }
    );
}

#[test]
fn bar_on_empty_viewport() {
    assert_eq!(
        status_bar((0, 0), 17, 24),
        BarLayout { row: 0, fill_len: 0, prompt_col: 0, help_col: 0 }
    );
}

#[test]
fn bar_narrower_than_its_texts() {
    let l = status_bar((10, 5), 17, 24);
    assert_eq!(l.prompt_col, 10);
    assert_eq!(l.help_col, 0);
    assert_eq!(l.row, 4);
    assert_eq!(l.fill_len, 9);
    assert_eq!(status_bar((24, 1), 0, 24).help_col, 0);
    assert_eq!(status_bar((u16::MAX, u16::MAX), 70000, 1).prompt_col, u16::MAX);
}
