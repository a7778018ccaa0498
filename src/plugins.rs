//! The engine subsystems the board runs on.
use vstd::prelude::*;

verus! {

/// Subsystems of the engine the board runs on.
#[derive(Clone, Copy, Debug, PartialEq, Eq, Structural)]
pub enum EnginePlugin {
    PanicHandler,
    TaskPool,
    TypeRegistration,
    FrameCount,
    Time,
    Transform,
    Hierarchy,
    Diagnostics,
    Input,
    Window,
    Asset,
    Render,
    Image,
    CorePipeline,
    Sprite,
    Text,
    Ui,
    States,
    DefaultPicking,
}

/// The engine subsystems the board needs, without logging.
pub struct RequiredPlugins;

pub open spec fn required_plugins() -> Seq<EnginePlugin> {
    seq![
        EnginePlugin::PanicHandler,
        EnginePlugin::TaskPool,
        EnginePlugin::TypeRegistration,
        EnginePlugin::FrameCount,
        EnginePlugin::Time,
        EnginePlugin::Transform,
        EnginePlugin::Hierarchy,
        EnginePlugin::Diagnostics,
        EnginePlugin::Input,
        EnginePlugin::Window,
        EnginePlugin::Asset,
        EnginePlugin::Render,
        EnginePlugin::Image,
        EnginePlugin::CorePipeline,
        EnginePlugin::Sprite,
        EnginePlugin::Text,
        EnginePlugin::Ui,
        EnginePlugin::States,
        EnginePlugin::DefaultPicking,
    ]
}

impl RequiredPlugins {
    /// The subsystems, in the order they are added.
    pub fn build(self) -> (r: Vec<EnginePlugin>)
        ensures
            r@ == required_plugins(),
    {
        let r = vec![
            EnginePlugin::PanicHandler,
            EnginePlugin::TaskPool,
            EnginePlugin::TypeRegistration,
            EnginePlugin::FrameCount,
            EnginePlugin::Time,
            EnginePlugin::Transform,
            EnginePlugin::Hierarchy,
            EnginePlugin::Diagnostics,
            EnginePlugin::Input,
            EnginePlugin::Window,
            EnginePlugin::Asset,
            EnginePlugin::Render,
            EnginePlugin::Image,
            EnginePlugin::CorePipeline,
            EnginePlugin::Sprite,
            EnginePlugin::Text,
            EnginePlugin::Ui,
            EnginePlugin::States,
            EnginePlugin::DefaultPicking,
        ];
        assert(r@ =~= required_plugins());
        r
    }
}

} // verus!
