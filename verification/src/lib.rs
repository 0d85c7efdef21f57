//! Verified core of a Bevy integration for the Nintendo 3DS.
//!
//! The modules hold the decisions that the 3DS plugins make: which gamepad
//! events the key pad state turns into, when the application exits, how
//! consoles are registered, which plugins make up the default group, and the
//! logic of the small demo game that ships with the crate.
use vstd::prelude::*;

pub mod core_plugin;
pub mod default_plugin;
pub mod game;
pub mod graphics;
pub mod input;

verus! {

/// The plugins of the default group.
#[derive(Clone, Copy, Debug, PartialEq, Eq, Structural)]
pub enum PluginId {
    /// Console logging back to the development machine (3DS).
    Log3ds,
    /// Bevy's logging.
    Log,
    TaskPool,
    TypeRegistration,
    FrameCount,
    Time,
    Transform,
    Hierarchy,
    Diagnostics,
    /// Bevy's input handling.
    Input,
    Window,
    Accessibility,
    /// The 3DS main loop and screen handling.
    Core3ds,
    /// The 3DS key pad as a gamepad.
    Input3ds,
}

/// The order in which the default group adds its plugins: the 3DS logger
/// first, so that everything after it can be seen, then most of Bevy's
/// default plugins, then the 3DS plugins.
pub open spec fn default_plugin_order() -> Seq<PluginId> {
    seq![
        PluginId::Log3ds,
        PluginId::Log,
        PluginId::TaskPool,
        PluginId::TypeRegistration,
        PluginId::FrameCount,
        PluginId::Time,
        PluginId::Transform,
        PluginId::Hierarchy,
        PluginId::Diagnostics,
        PluginId::Input,
        PluginId::Window,
        PluginId::Accessibility,
        PluginId::Core3ds,
        PluginId::Input3ds,
    ]
}

/// A default set of plugins to get an app up and running. This also includes
/// most (but not all) of the plugins of Bevy's own default set.
#[derive(Clone, Copy, Debug, PartialEq, Eq, Structural)]
pub struct DefaultPlugins;

impl DefaultPlugins {
    /// The plugins of the group, in the order in which they are added.
    pub fn build(self) -> (plugins: Vec<PluginId>)
        ensures
            plugins@ == default_plugin_order(),
    {
        let plugins = vec![
            PluginId::Log3ds,
            PluginId::Log,
            PluginId::TaskPool,
            PluginId::TypeRegistration,
            PluginId::FrameCount,
            PluginId::Time,
            PluginId::Transform,
            PluginId::Hierarchy,
            PluginId::Diagnostics,
            PluginId::Input,
            PluginId::Window,
            PluginId::Accessibility,
            PluginId::Core3ds,
            PluginId::Input3ds,
        ];
        assert(plugins@ =~= default_plugin_order());
        plugins
    }
}

/// The default group adds the 3DS logger before anything else, adds no plugin
/// twice, and adds the 3DS input plugin after Bevy's input plugin.
pub proof fn lemma_default_plugin_order()
    ensures
        default_plugin_order()[0] == PluginId::Log3ds,
        forall|i: int, j: int|
            0 <= i < j < default_plugin_order().len() ==> default_plugin_order()[i]
                != default_plugin_order()[j],
        exists|i: int, j: int|
            0 <= i < j < default_plugin_order().len() && default_plugin_order()[i]
                == PluginId::Input && default_plugin_order()[j] == PluginId::Input3ds,
{
    let s = default_plugin_order();
    assert(s[9] == PluginId::Input && s[13] == PluginId::Input3ds);
}

} // verus!
