use ahenk_tui::tab::TabItem;

#[test]
fn every_tab_is_found_at_its_index() {
    for index in 0..7 {
        assert_eq!(TabItem::from_index(index).index(), index);
    }
    assert_eq!(TabItem::from_index(0), TabItem::Dashboard);
    assert_eq!(TabItem::from_index(4), TabItem::DbQuery);
    assert_eq!(TabItem::from_index(6), TabItem::Help);
}

#[test]
fn indexes_past_the_end_open_help() {
    assert_eq!(TabItem::from_index(7), TabItem::Help);
    assert_eq!(TabItem::from_index(usize::MAX), TabItem::Help);
}
