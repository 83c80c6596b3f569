//! The tab bar: which tab is highlighted, and how a tab switch moves the mode.

use crate::action::Action;
use crate::app::Mode;
use crate::app::ModeHolderLock;
use unicode_width::UnicodeWidthStr;
use vstd::prelude::*;
use vstd::string::StringExecFns;

verus! {

/// One tab of the bar.
#[derive(Debug, Clone, Copy, PartialEq, Eq, Hash, Structural)]
pub enum NavigationItem {
    RecentChat,
    Contact,
    Setting,
}

/// How many tabs the bar has.
pub const NAVIGATION_ITEM_COUNT: usize = 3;

impl NavigationItem {
    /// The position of the tab in the bar.
    pub open spec fn index(self) -> nat {
        match self {
            NavigationItem::RecentChat => 0,
            NavigationItem::Contact => 1,
            NavigationItem::Setting => 2,
        }
    }

    /// The tab at position `repr`, if the bar has one there.
    pub open spec fn spec_from_repr(repr: nat) -> Option<NavigationItem> {
        if repr == 0 {
            Some(NavigationItem::RecentChat)
        } else if repr == 1 {
            Some(NavigationItem::Contact)
        } else if repr == 2 {
            Some(NavigationItem::Setting)
        } else {
            None
        }
    }

    /// The tab to the right, and the first tab after the last.
    pub open spec fn spec_circle(self) -> NavigationItem {
        match self {
            NavigationItem::RecentChat => NavigationItem::Contact,
            NavigationItem::Contact => NavigationItem::Setting,
            NavigationItem::Setting => NavigationItem::RecentChat,
        }
    }

    /// The name of the tab.
    pub open spec fn spec_label(self) -> Seq<char> {
        match self {
            NavigationItem::RecentChat => "最近聊天"@,
            NavigationItem::Contact => "我的好友"@,
            NavigationItem::Setting => "我的设置"@,
        }
    }

    /// The tab at position `repr`: `None` from 3 on.
    pub fn from_repr(repr: usize) -> (item: Option<NavigationItem>)
        ensures
            item == Self::spec_from_repr(repr as nat),
    {
        if repr == 0 {
            Some(NavigationItem::RecentChat)
        } else if repr == 1 {
            Some(NavigationItem::Contact)
        } else if repr == 2 {
            Some(NavigationItem::Setting)
        } else {
            None
        }
    }

    /// The position of the tab in the bar.
    pub fn repr(self) -> (repr: usize)
        ensures
            repr == self.index(),
            Self::spec_from_repr(repr as nat) == Some(self),
    {
        match self {
            NavigationItem::RecentChat => 0,
            NavigationItem::Contact => 1,
            NavigationItem::Setting => 2,
        }
    }

    /// All tabs, from left to right.
    pub fn all() -> (items: Vec<NavigationItem>)
        ensures
            items@.len() == NAVIGATION_ITEM_COUNT,
            forall|i: int| 0 <= i < 3 ==> Self::spec_from_repr(i as nat) == Some(#[trigger] items@[i]),
    {
        let mut items: Vec<NavigationItem> = Vec::new();
        items.push(NavigationItem::RecentChat);
        items.push(NavigationItem::Contact);
        items.push(NavigationItem::Setting);
        items
    }

    /// The tab to the right, and the first tab after the last.
    pub fn circle(self) -> (item: NavigationItem)
        ensures
            item == self.spec_circle(),
    {
        match self {
            NavigationItem::RecentChat => NavigationItem::Contact,
            NavigationItem::Contact => NavigationItem::Setting,
            NavigationItem::Setting => NavigationItem::RecentChat,
        }
    }

    /// The tab to the left; the first tab stays where it is.
    pub fn previous(self) -> (item: NavigationItem)
        ensures
            self.index() == 0 ==> item == self,
            self.index() > 0 ==> item.index() == self.index() - 1,
    {
        let current_index = self.repr();
        let previous_index = if current_index == 0 {
            0
        } else {
            current_index - 1
        };
        match Self::from_repr(previous_index) {
            Some(item) => item,
            None => self,
        }
    }

    /// The tab to the right; the last tab stays where it is.
    pub fn next(self) -> (item: NavigationItem)
        ensures
            self.index() == 2 ==> item == self,
            self.index() < 2 ==> item.index() == self.index() + 1,
    {
        let next_index = self.repr() + 1;
        match Self::from_repr(next_index) {
            Some(item) => item,
            None => self,
        }
    }

    /// The name of the tab.
    pub fn label(self) -> (text: String)
        ensures
            text@ == self.spec_label(),
    {
        match self {
            NavigationItem::RecentChat => String::from_str("最近聊天"),
            NavigationItem::Contact => String::from_str("我的好友"),
            NavigationItem::Setting => String::from_str("我的设置"),
        }
    }

    /// The name of the tab with two blanks on either side, as the bar shows it.
    pub fn title(self) -> (text: String)
        ensures
            text@ == "  "@ + self.spec_label() + "  "@,
    {
        let mut text = String::from_str("  ");
        let label = self.label();
        text.append(label.as_str());
        text.append("  ");
        text
    }
}

/// The mode that a tab switch leads to: the three tabbed screens follow one
/// another in a circle, and every other mode stays.
pub open spec fn next_tab_mode(mode: Mode) -> Mode {
    match mode {
        Mode::RecentChat => Mode::Contact,
        Mode::Contact => Mode::Setting,
        Mode::Setting => Mode::RecentChat,
        _ => mode,
    }
}

/// Whether the tab bar reacts to a tab switch in `mode`.
pub open spec fn is_tabbed(mode: Mode) -> bool {
    mode == Mode::RecentChat || mode == Mode::Contact || mode == Mode::Setting
}

/// The tab bar.
#[derive(Debug, Clone, Copy, PartialEq, Eq)]
pub struct Navigation {
    /// The highlighted tab.
    pub item: NavigationItem,
}

impl Navigation {
    /// A bar with the first tab highlighted.
    pub fn new() -> (bar: Self)
        ensures
            bar.item == NavigationItem::RecentChat,
    {
        Navigation { item: NavigationItem::RecentChat }
    }

    /// Moves the highlight and the mode one tab to the right.
    pub fn next(&mut self, mode_holder: &mut ModeHolderLock)
        ensures
            final(self).item == old(self).item.spec_circle(),
            final(mode_holder).mode() == next_tab_mode(old(mode_holder).mode()),
    {
        self.item = self.item.circle();
        let next_mode = match mode_holder.get_mode() {
            Mode::RecentChat => Mode::Contact,
            Mode::Contact => Mode::Setting,
            Mode::Setting => Mode::RecentChat,
            other => other,
        };
        mode_holder.set_mode(next_mode);
    }

    /// Reacts to an action: `NextTab` on one of the three tabbed screens
    /// switches the tab, and nothing else does anything. The bar never
    /// answers with an action of its own.
    pub fn update(&mut self, mode_holder: &mut ModeHolderLock, action: &Action) -> (answer: Option<Action>)
        ensures
            answer is None,
            action@ is NextTab && is_tabbed(old(mode_holder).mode()) ==> {
                &&& final(self).item == old(self).item.spec_circle()
                &&& final(mode_holder).mode() == next_tab_mode(old(mode_holder).mode())
            },
            !(action@ is NextTab && is_tabbed(old(mode_holder).mode())) ==> {
                &&& *final(self) == *old(self)
                &&& *final(mode_holder) == *old(mode_holder)
            },
    {
        match mode_holder.get_mode() {
            Mode::RecentChat | Mode::Contact | Mode::Setting => {
                if let Action::NextTab = action {
                    self.next(mode_holder);
                }
            },
            _ => {},
        }
        None
    }

    /// Whether the bar is drawn in `mode`: on every screen but the login.
    pub fn is_visible(mode: Mode) -> (visible: bool)
        ensures
            visible == (mode != Mode::Login),
    {
        match mode {
            Mode::Login => false,
            _ => true,
        }
    }
}

/// The number of columns that a text takes on a terminal where the
/// characters of ambiguous width count as wide.
pub uninterp spec fn str_width_cjk(text: Seq<char>) -> nat;

/// The columns that `text` takes, as `unicode_width`'s
/// `UnicodeWidthStr::width_cjk` counts them. The count depends on the
/// characters of the text alone.
#[verifier::external_body]
pub(crate) fn width_cjk(text: &str) -> (width: usize)
    ensures
        width == str_width_cjk(text@),
{
    UnicodeWidthStr::width_cjk(text)
}

/// The columns that the three titles and what stands between them take:
/// each label's width and 4, and 2 more.
pub open spec fn navigation_width(recent: int, contact: int, setting: int) -> int {
    (recent + 4) + (contact + 4) + (setting + 4) + 2
}

/// The blanks on either side of a title in a bar that is `width` columns
/// wide: what the titles leave over, shared out evenly among the six sides,
/// and none where the bar is too narrow for the titles.
pub open spec fn spec_padding(width: int, recent: int, contact: int, setting: int) -> int {
    if width < navigation_width(recent, contact, setting) {
        0
    } else {
        (width - navigation_width(recent, contact, setting)) / 6
    }
}

/// The blanks on either side of a title, for labels of the given widths.
pub fn padding_for(width: usize, recent: usize, contact: usize, setting: usize) -> (padding: usize)
    ensures
        padding == spec_padding(width as int, recent as int, contact as int, setting as int),
{
    let mut rest = width;
    if rest < 14 {
        return 0;
    }
    rest = rest - 14;
    if rest < recent {
        return 0;
    }
    rest = rest - recent;
    if rest < contact {
        return 0;
    }
    rest = rest - contact;
    if rest < setting {
        return 0;
    }
    rest = rest - setting;
    rest / 6
}

/// The blanks on either side of a title in a bar that is `width` columns wide.
pub fn cal_padding(width: u16) -> (padding: usize)
    ensures
        padding == spec_padding(
            width as int,
            str_width_cjk(NavigationItem::RecentChat.spec_label()) as int,
            str_width_cjk(NavigationItem::Contact.spec_label()) as int,
            str_width_cjk(NavigationItem::Setting.spec_label()) as int,
        ),
{
    let recent = NavigationItem::RecentChat.label();
    let contact = NavigationItem::Contact.label();
    let setting = NavigationItem::Setting.label();
    padding_for(
        width as usize,
        width_cjk(recent.as_str()),
        width_cjk(contact.as_str()),
        width_cjk(setting.as_str()),
    )
}

} // verus!
