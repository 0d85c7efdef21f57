use bevy_3ds::core_plugin::exit_requested;
use bevy_3ds::default_plugin::{check_apt, check_keys, AptOutcome};
use bevy_3ds::graphics::ConsoleList;
use bevy_3ds::input::{KeyPad, KEY_A, KEY_SELECT, KEY_START};
use bevy_3ds::{DefaultPlugins, PluginId};

#[test]
fn default_plugins_order() {
    assert_eq!(
        DefaultPlugins.build(),
        vec![
            PluginId::Log3ds,
            PluginId::Log,
            PluginId::TaskPool,
            PluginId::TypeRegistration,
            PluginId::FrameCount,
            PluginId::Time,
            PluginId::Transform,
            PluginId::Hierarchy,
            PluginId::Diagnostics,
            PluginId::Input,
            PluginId::Window,
            PluginId::Accessibility,
            PluginId::Core3ds,
            PluginId::Input3ds,
        ]
    );
}

#[test]
fn default_plugins_log_first_and_distinct() {
    let plugins = DefaultPlugins.build();
    assert_eq!(plugins[0], PluginId::Log3ds);
    for i in 0..plugins.len() {
        for j in (i + 1)..plugins.len() {
            assert_ne!(plugins[i], plugins[j]);
        }
    }
}

#[test]
fn core_exit_when_main_loop_ends() {
    assert!(exit_requested(false));
    assert!(!exit_requested(true));
}

#[test]
fn default_plugin_exit_check() {
    assert_eq!(check_apt(false), AptOutcome::Exit);
    assert_eq!(check_apt(true), AptOutcome::ScanInput);
    assert!(check_keys(KeyPad::from_bits(KEY_SELECT)));
    assert!(check_keys(KeyPad::from_bits(KEY_SELECT | KEY_A)));
    assert!(!check_keys(KeyPad::from_bits(KEY_START)));
    assert!(!check_keys(KeyPad::from_bits(0)));
}

#[test]
fn console_ids_follow_registration() {
    let gfx = 7u32;
    let mut list: ConsoleList<String> = ConsoleList::new();
    assert_eq!(list.len(), 0);
    let bottom = list.add_console_with(&gfx, |g: &u32| format!("bottom {}", g));
    let top = list.add_console_with(&gfx, |g: &u32| format!("top {}", g + 1));
    assert_eq!(bottom.index(), 0);
    assert_eq!(top.index(), 1);
    assert_eq!(list.len(), 2);
    assert!(list.is_valid(bottom));
    assert!(list.is_valid(top));
    assert_eq!(list.console(bottom), "bottom 7");
    assert_eq!(list.console(top), "top 8");
}

#[test]
fn console_mut_changes_one_console() {
    let mut list: ConsoleList<u32> = ConsoleList::new();
    let a = list.add_console_with(&(), |_: &()| 1);
    let b = list.add_console_with(&(), |_: &()| 2);
    *list.console_mut(a) += 10;
    assert_eq!(*list.console(a), 11);
    assert_eq!(*list.console(b), 2);
}

#[test]
fn console_id_validity() {
    let mut other: ConsoleList<u8> = ConsoleList::new();
    let first = other.add_console_with(&(), |_: &()| 0);
    let second = other.add_console_with(&(), |_: &()| 1);
    let mut list: ConsoleList<u8> = ConsoleList::new();
    let only = list.add_console_with(&(), |_: &()| 5);
    assert_eq!(only, first);
    assert!(list.is_valid(first));
    assert!(!list.is_valid(second));
}
