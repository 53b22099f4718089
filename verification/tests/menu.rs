use larus_core::menu::{CloseTimer, Menu, MenuControl, MenuItem, MenuItemContent, MenuList, MenuScreens};
use larus_core::model::{Editable, KeyEvent};

fn item(next_menu_idx: usize, content: MenuItemContent) -> MenuItem {
    MenuItem { next_menu_idx, content }
}

/// Root 0, flight menu 1 (level 1), a deeper menu 2 (level 2), vario settings 3 (level 1).
fn list() -> MenuList {
    MenuList {
        menus: vec![
            Menu { level: 0, items: vec![item(1, MenuItemContent::Menu)] },
            Menu {
                level: 1,
                items: vec![
                    item(1, MenuItemContent::EditItem(Editable::McCready)),
                    item(2, MenuItemContent::Menu),
                    item(0, MenuItemContent::EditItem(Editable::Return)),
                ],
            },
            Menu { level: 2, items: vec![item(2, MenuItemContent::EditItem(Editable::Volume)), item(1, MenuItemContent::Menu)] },
            Menu { level: 1, items: vec![item(0, MenuItemContent::Menu)] },
        ],
        root: 0,
        flight_menu: 1,
        vario_settings: 3,
    }
}

#[test]
fn button_opens_the_flight_menu_on_the_overlay() {
    let l = list();
    let mut c = MenuControl::new(&l);
    let mut s = MenuScreens { display: false, overlay: false };
    let e = c.key_action(&mut s, &l, false, KeyEvent::BtnEnc);
    assert_eq!(e.key, KeyEvent::NoEvent);
    assert_eq!(e.timer, CloseTimer::Restart);
    assert_eq!(s, MenuScreens { display: false, overlay: true });
    assert_eq!(c.menu(), 1);
    let e = c.key_action(&mut s, &l, false, KeyEvent::BtnEnc);
    assert_eq!(e.edit, Some(Editable::McCready));
    assert_eq!(e.key, KeyEvent::BtnEnc);
}

#[test]
fn encoders_move_within_the_menu_and_stop_at_its_ends() {
    let l = list();
    let mut c = MenuControl::new(&l);
    let mut s = MenuScreens { display: false, overlay: true };
    c.key_action(&mut s, &l, false, KeyEvent::Rotary1Left);
    assert_eq!(c.pos(1), 0);
    for _ in 0..5 {
        c.key_action(&mut s, &l, false, KeyEvent::Rotary2Right);
    }
    assert_eq!(c.pos(1), 2);
    let e = c.key_action(&mut s, &l, false, KeyEvent::BtnEnc);
    // the return item leads to the root: the menus close
    assert_eq!(e.timer, CloseTimer::Stop);
    assert_eq!(e.edit, None);
    assert_eq!(s, MenuScreens { display: false, overlay: false });
    assert_eq!(c.menu(), 0);
}

#[test]
fn deeper_menus_start_at_their_first_item() {
    let l = list();
    let mut c = MenuControl::new(&l);
    let mut s = MenuScreens { display: false, overlay: true };
    c.key_action(&mut s, &l, false, KeyEvent::Rotary1Right);
    c.key_action(&mut s, &l, false, KeyEvent::BtnEnc);
    assert_eq!(c.menu(), 2);
    assert_eq!(c.pos(2), 0);
    assert_eq!(c.pos(1), 1);
}

#[test]
fn vario_settings_fill_the_display_and_the_editor_window_blocks_keys() {
    let l = list();
    let mut c = MenuControl::new(&l);
    let mut s = MenuScreens { display: false, overlay: false };
    let e = c.key_action(&mut s, &l, true, KeyEvent::BtnEnc);
    assert_eq!(e.timer, CloseTimer::Keep);
    assert_eq!(s, MenuScreens { display: false, overlay: false });
    c.key_action(&mut s, &l, false, KeyEvent::BtnEncS3);
    assert_eq!(s, MenuScreens { display: true, overlay: false });
    assert_eq!(c.menu(), 3);
    c.close_menu_display(&mut s, &l);
    assert_eq!(s, MenuScreens { display: false, overlay: false });
    assert_eq!(c.menu(), 0);
}
