use chat_tui::app::{Mode, ModeHolderLock};
use chat_tui::action::Action;
use chat_tui::components::navigation::{cal_padding, padding_for, Navigation, NavigationItem};
use unicode_width::UnicodeWidthStr;

#[test]
fn test_string_width() {
    let string = String::from("我的好友");
    let width = UnicodeWidthStr::width(string.as_str());
    println!("width: {width}, string: {string}");
    let width = UnicodeWidthStr::width_cjk(string.as_str());
    println!("width_cjk: {width}, string: {string}");
}

#[test]
fn test_len() {
    let i = NavigationItem::all().len();
    println!("{}", i);
    assert_eq!(i, 3);
}

#[test]
fn navigation_items_in_bar_order() {
    assert_eq!(
        NavigationItem::all(),
        vec![NavigationItem::RecentChat, NavigationItem::Contact, NavigationItem::Setting]
    );
    assert_eq!(NavigationItem::from_repr(1), Some(NavigationItem::Contact));
    assert_eq!(NavigationItem::from_repr(3), None);
    assert_eq!(NavigationItem::Setting.repr(), 2);
}

#[test]
fn navigation_item_circle_previous_next() {
    assert_eq!(NavigationItem::RecentChat.circle(), NavigationItem::Contact);
    assert_eq!(NavigationItem::Setting.circle(), NavigationItem::RecentChat);
    assert_eq!(NavigationItem::RecentChat.previous(), NavigationItem::RecentChat);
    assert_eq!(NavigationItem::Setting.previous(), NavigationItem::Contact);
    assert_eq!(NavigationItem::Setting.next(), NavigationItem::Setting);
    assert_eq!(NavigationItem::RecentChat.next(), NavigationItem::Contact);
}

#[test]
fn navigation_labels_and_titles() {
    assert_eq!(NavigationItem::RecentChat.label(), "最近聊天");
    assert_eq!(NavigationItem::Contact.label(), "我的好友");
    assert_eq!(NavigationItem::Setting.label(), "我的设置");
    assert_eq!(NavigationItem::Contact.title(), "  我的好友  ");
}

#[test]
fn next_tab_cycles_the_three_tabbed_modes() {
    let mut bar = Navigation::new();
    let mut mode = ModeHolderLock::new(Mode::RecentChat);
    assert_eq!(bar.update(&mut mode, &Action::NextTab), None);
    assert_eq!(mode.get_mode(), Mode::Contact);
    assert_eq!(bar.item, NavigationItem::Contact);
    bar.update(&mut mode, &Action::NextTab);
    assert_eq!(mode.get_mode(), Mode::Setting);
    bar.update(&mut mode, &Action::NextTab);
    assert_eq!(mode.get_mode(), Mode::RecentChat);
    assert_eq!(bar.item, NavigationItem::RecentChat);
}

#[test]
fn next_tab_is_ignored_outside_the_tabbed_modes() {
    for start in [Mode::Login, Mode::Chat, Mode::GroupManager, Mode::Alert] {
        let mut bar = Navigation::new();
        let mut mode = ModeHolderLock::new(start);
        bar.update(&mut mode, &Action::NextTab);
        assert_eq!(mode.get_mode(), start);
        assert_eq!(bar.item, NavigationItem::RecentChat);
    }
    let mut bar = Navigation::new();
    let mut mode = ModeHolderLock::new(Mode::Contact);
    bar.update(&mut mode, &Action::Tick);
    assert_eq!(mode.get_mode(), Mode::Contact);
}

#[test]
fn navigation_bar_is_hidden_on_login_only() {
    assert!(!Navigation::is_visible(Mode::Login));
    assert!(Navigation::is_visible(Mode::RecentChat));
    assert!(Navigation::is_visible(Mode::Alert));
}

#[test]
fn padding_for_shares_out_what_the_titles_leave() {
    // titles take (8 + 4) * 3 + 2 = 38 columns
    assert_eq!(padding_for(80, 8, 8, 8), 7);
    assert_eq!(padding_for(38, 8, 8, 8), 0);
    assert_eq!(padding_for(37, 8, 8, 8), 0);
    assert_eq!(padding_for(44, 8, 8, 8), 1);
    assert_eq!(padding_for(10, usize::MAX, usize::MAX, usize::MAX), 0);
}

#[test]
fn cal_padding_counts_wide_characters() {
    // each label is four wide characters: 8 columns
    assert_eq!(cal_padding(80), 7);
    assert_eq!(cal_padding(20), 0);
}
