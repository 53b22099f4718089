//! Navigation through the menus: the encoder moves within a menu and its button enters the
//! selected item, which leads to another menu or opens the editor on a setting.
use crate::model::{Editable, KeyEvent};
use vstd::prelude::*;

verus! {

/// What a menu item holds besides the menu it leads to.
#[derive(Clone, Copy, PartialEq, Eq, Debug, Structural)]
pub enum MenuItemContent {
    /// A setting to edit when the item is entered.
    EditItem(Editable),
    /// Only the way to another menu.
    Menu,
}

/// One item of a menu: the index of the menu that entering it leads to, and its content.
#[derive(Clone, Copy, PartialEq, Eq, Debug, Structural)]
pub struct MenuItem {
    pub next_menu_idx: usize,
    pub content: MenuItemContent,
}

/// A menu: its depth (0 for the root) and its items.
pub struct Menu {
    pub level: usize,
    pub items: Vec<MenuItem>,
}

/// All menus, with the indices of the root, of the flight menu and of the vario settings.
pub struct MenuList {
    pub menus: Vec<Menu>,
    pub root: usize,
    pub flight_menu: usize,
    pub vario_settings: usize,
}

/// Each menu lies less than five levels deep, and every index in the list points into it.
pub open spec fn menu_list_valid(list: &MenuList) -> bool {
    &&& list.root < list.menus.len()
    &&& list.flight_menu < list.menus.len()
    &&& list.vario_settings < list.menus.len()
    &&& forall|i: int| 0 <= i < list.menus.len() ==> #[trigger] list.menus@[i].level < 5
    &&& forall|i: int, j: int|
        0 <= i < list.menus.len() && 0 <= j < list.menus@[i].items.len() ==> #[trigger] list.menus@[i].items@[j].next_menu_idx
            < list.menus.len()
}

/// Which screens show the menu: the whole display, or the overlay on the flight display.
#[derive(Clone, Copy, PartialEq, Eq, Debug, Structural)]
pub struct MenuScreens {
    pub display: bool,
    pub overlay: bool,
}

/// What happens to the timer that closes the menu after a while without keys.
#[derive(Clone, Copy, PartialEq, Eq, Debug, Structural)]
pub enum CloseTimer {
    Keep,
    Restart,
    Stop,
}

/// What a key in the menus asks of the caller: the key as it goes on (`NoEvent` when the
/// menu took it), the close timer, and a setting to open the editor on.
#[derive(Clone, Copy, PartialEq, Eq, Debug, Structural)]
pub struct MenuEffect {
    pub key: KeyEvent,
    pub timer: CloseTimer,
    pub edit: Option<Editable>,
}

/// Where the menus stand: the position in each level, and the menu shown.
pub struct MenuControlView {
    pub pos: Seq<usize>,
    pub return_idx: usize,
    pub menu: usize,
}

/// Where the menus stand.
pub struct MenuControl {
    pos: [usize; 5],
    return_idx: usize,
    menu: usize,
}

impl View for MenuControl {
    type V = MenuControlView;

    closed spec fn view(&self) -> MenuControlView {
        MenuControlView { pos: self.pos@, return_idx: self.return_idx, menu: self.menu }
    }
}

/// The menus after `activate_menu(m)`: the position in its level back to the first item, and
/// the menu shown, on the overlay for the flight menu and on the whole display otherwise.
pub open spec fn activated(list: &MenuList, c: MenuControlView, s: MenuScreens, m: usize) -> (MenuControlView, MenuScreens) {
    (
        MenuControlView { pos: c.pos.update(list.menus@[m as int].level as int, 0), menu: m, ..c },
        if m == list.flight_menu { MenuScreens { overlay: true, ..s } } else { MenuScreens { display: true, ..s } },
    )
}

/// The menus after `close_menu_display`: no screen shows a menu, and the root is selected.
pub open spec fn closed(list: &MenuList, c: MenuControlView) -> (MenuControlView, MenuScreens) {
    (MenuControlView { menu: list.root, ..c }, MenuScreens { display: false, overlay: false })
}

/// What `key` does in the menus; see `MenuControl::key_action`.
pub open spec fn menu_key_step(
    list: &MenuList,
    c: MenuControlView,
    s: MenuScreens,
    editor_window: bool,
    key: KeyEvent,
) -> (MenuControlView, MenuScreens, MenuEffect) {
    let keep = MenuEffect { key, timer: CloseTimer::Keep, edit: None };
    if editor_window {
        (c, s, keep)
    } else if s.display || s.overlay {
        let menu = list.menus@[c.menu as int];
        let level = menu.level as int;
        let p = c.pos[level];
        match key {
            KeyEvent::Rotary1Left | KeyEvent::Rotary2Left => (
                MenuControlView { pos: if p > 0 { c.pos.update(level, (p - 1) as usize) } else { c.pos }, ..c },
                s,
                MenuEffect { key: KeyEvent::NoEvent, timer: CloseTimer::Restart, edit: None },
            ),
            KeyEvent::Rotary1Right | KeyEvent::Rotary2Right => (
                MenuControlView {
                    pos: if p + 1 < menu.items.len() { c.pos.update(level, (p + 1) as usize) } else { c.pos },
                    ..c
                },
                s,
                MenuEffect { key: KeyEvent::NoEvent, timer: CloseTimer::Restart, edit: None },
            ),
            KeyEvent::BtnEnc => {
                let item = menu.items@[p as int];
                let next = item.next_menu_idx;
                let next_level = list.menus@[next as int].level as int;
                let pos = if next_level > level { c.pos.update(next_level, 0) } else { c.pos };
                let c2 = MenuControlView { pos, menu: next, ..c };
                let (c3, s3) = if next == list.root { closed(list, c2) } else { (c2, s) };
                let edit = match item.content {
                    MenuItemContent::EditItem(e) => if e != Editable::Return { Some(e) } else { None },
                    MenuItemContent::Menu => None,
                };
                (
                    c3,
                    s3,
                    MenuEffect { key, timer: if next == list.root { CloseTimer::Stop } else { CloseTimer::Restart }, edit },
                )
            },
            _ => (c, s, MenuEffect { key, timer: CloseTimer::Restart, edit: None }),
        }
    } else {
        match key {
            KeyEvent::BtnEnc => {
                let (c2, s2) = activated(list, c, s, list.flight_menu);
                (c2, s2, MenuEffect { key: KeyEvent::NoEvent, timer: CloseTimer::Restart, edit: None })
            },
            KeyEvent::BtnEncS3 => {
                let (c2, s2) = activated(list, c, s, list.vario_settings);
                (c2, s2, MenuEffect { key: KeyEvent::NoEvent, timer: CloseTimer::Restart, edit: None })
            },
            _ => (c, s, keep),
        }
    }
}

impl MenuControl {
    /// The flight menu selected, every position at the first item.
    pub fn new(list: &MenuList) -> (r: Self)
        ensures
            r@ == (MenuControlView { pos: seq![0usize, 0, 0, 0, 0], return_idx: 0, menu: list.flight_menu }),
    {
        let r = MenuControl { pos: [0;5], return_idx: 0, menu: list.flight_menu };
        assert(r@.pos =~= seq![0usize, 0, 0, 0, 0]);
        r
    }

    /// Whether the positions and the menu fit `list`.
    pub open spec fn fits(c: MenuControlView, list: &MenuList) -> bool {
        &&& c.pos.len() == 5
        &&& c.menu < list.menus.len()
    }

    /// Shows `menu`, at its first item: on the overlay for the flight menu, on the whole
    /// display otherwise. The caller restarts the close timer.
    pub fn activate_menu(&mut self, screens: &mut MenuScreens, list: &MenuList, menu: usize)
        requires
            menu_list_valid(list),
            Self::fits(old(self)@, list),
            menu < list.menus.len(),
        ensures
            (final(self)@, *final(screens)) == activated(list, old(self)@, *old(screens), menu),
            Self::fits(final(self)@, list),
    {
        let level = list.menus[menu].level;
        self.pos[level] = 0;
        self.menu = menu;
        if menu == list.flight_menu {
            screens.overlay = true;
        } else {
            screens.display = true;
        }
    }

    /// Takes the menu off the screens and selects the root. The caller stops the close timer.
    pub fn close_menu_display(&mut self, screens: &mut MenuScreens, list: &MenuList)
        requires
            menu_list_valid(list),
        ensures
            (final(self)@, *final(screens)) == closed(list, old(self)@),
    {
        screens.display = false;
        screens.overlay = false;
        self.menu = list.root;
    }

    /// Handles a key. Nothing happens while the editor has a window open. While a menu is
    /// shown, the encoders move within it (the menu takes the key) and the button enters the
    /// selected item: a deeper menu starts at its first item, the root closes the menus, and a
    /// setting other than `Return` opens the editor; the button goes on to the caller. With no
    /// menu shown, the button opens the flight menu and the button with the third key the vario
    /// settings.
    pub fn key_action(&mut self, screens: &mut MenuScreens, list: &MenuList, editor_window: bool, key: KeyEvent) -> (r: MenuEffect)
        requires
            menu_list_valid(list),
            Self::fits(old(self)@, list),
            !editor_window && (old(screens).display || old(screens).overlay) && key == KeyEvent::BtnEnc
                ==> old(self)@.pos[list.menus@[old(self)@.menu as int].level as int] < list.menus@[old(self)@.menu as int].items.len(),
        ensures
            (final(self)@, *final(screens), r) == menu_key_step(list, old(self)@, *old(screens), editor_window, key),
            Self::fits(final(self)@, list),
    {
        if editor_window {
            return MenuEffect { key, timer: CloseTimer::Keep, edit: None };
        }
        if screens.display || screens.overlay {
            let level = list.menus[self.menu].level;
            match key {
                KeyEvent::Rotary1Left | KeyEvent::Rotary2Left => {
                    if self.pos[level] > 0 {
                        self.pos[level] = self.pos[level] - 1;
                    }
                    MenuEffect { key: KeyEvent::NoEvent, timer: CloseTimer::Restart, edit: None }
                },
                KeyEvent::Rotary1Right | KeyEvent::Rotary2Right => {
                    let p = self.pos[level];
                    let n = list.menus[self.menu].items.len();
                    if p < n && p + 1 < n {
                        self.pos[level] = p + 1;
                    }
                    MenuEffect { key: KeyEvent::NoEvent, timer: CloseTimer::Restart, edit: None }
                },
                KeyEvent::BtnEnc => {
                    let pos = self.pos[level];
                    let item = list.menus[self.menu].items[pos];
                    let next = item.next_menu_idx;
                    let next_level = list.menus[next].level;
                    if next_level > level {
                        self.pos[next_level] = 0;
                    }
                    self.menu = next;
                    let mut timer = CloseTimer::Restart;
                    if next == list.root {
                        self.close_menu_display(screens, list);
                        timer = CloseTimer::Stop;
                    }
                    let edit = match item.content {
                        MenuItemContent::EditItem(e) => if e != Editable::Return { Some(e) } else { None },
                        MenuItemContent::Menu => None,
                    };
                    MenuEffect { key, timer, edit }
                },
                _ => MenuEffect { key, timer: CloseTimer::Restart, edit: None },
            }
        } else {
            match key {
                KeyEvent::BtnEnc => {
                    self.activate_menu(screens, list, list.flight_menu);
                    MenuEffect { key: KeyEvent::NoEvent, timer: CloseTimer::Restart, edit: None }
                },
                KeyEvent::BtnEncS3 => {
                    self.activate_menu(screens, list, list.vario_settings);
                    MenuEffect { key: KeyEvent::NoEvent, timer: CloseTimer::Restart, edit: None }
                },
                _ => MenuEffect { key, timer: CloseTimer::Keep, edit: None },
            }
        }
    }

    /// The position in level `level`.
    pub fn pos(&self, level: usize) -> (r: usize)
        requires
            level < 5,
        ensures
            r == self@.pos[level as int],
    {
        self.pos[level]
    }

    /// The menu shown.
    pub fn menu(&self) -> (r: usize)
        ensures
            r == self@.menu,
    {
        self.menu
    }
}

/// The position within a menu stays within its items: the encoders never move it past the
/// first or the last item.
pub proof fn lemma_position_stays_in_menu(
    list: &MenuList,
    c: MenuControlView,
    s: MenuScreens,
    key: KeyEvent,
)
    requires
        menu_list_valid(list),
        c.pos.len() == 5,
        c.menu < list.menus.len(),
        key == KeyEvent::Rotary1Left || key == KeyEvent::Rotary2Left || key == KeyEvent::Rotary1Right || key
            == KeyEvent::Rotary2Right,
        c.pos[list.menus@[c.menu as int].level as int] < list.menus@[c.menu as int].items.len(),
    ensures
        ({
            let (c2, _, _) = menu_key_step(list, c, s, false, key);
            let level = list.menus@[c.menu as int].level as int;
            &&& c2.menu == c.menu
            &&& c2.pos[level] < list.menus@[c.menu as int].items.len()
        }),
{
}

} // verus!
