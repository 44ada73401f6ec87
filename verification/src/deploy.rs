use vstd::prelude::*;
use crate::game::Game;

verus! {

/// The stages of a deploy.
#[derive(Debug, Clone, Copy, PartialEq, Eq, Structural)]
pub enum Stage {
    /// Archives of enabled mods that were not extracted yet are expanded.
    Extract,
    /// What every extracted tree may have put into the install directory is
    /// cleared, whether or not anything has changed.
    Uninstall,
    /// The files of the enabled mods are linked into the install directory.
    Install,
    /// The plugin manifest is written.
    WritePlugins,
}

/// The stages of a deploy in their fixed order.
pub open spec fn pipeline() -> Seq<Stage> {
    seq![Stage::Extract, Stage::Uninstall, Stage::Install, Stage::WritePlugins]
}

/// The stage that follows the stage just done (none: the deploy begins), or
/// nothing after the last one.
pub open spec fn stage_after(done: Option<Stage>) -> Option<Stage> {
    match done {
        None => Some(Stage::Extract),
        Some(Stage::Extract) => Some(Stage::Uninstall),
        Some(Stage::Uninstall) => Some(Stage::Install),
        Some(Stage::Install) => Some(Stage::WritePlugins),
        Some(Stage::WritePlugins) => None,
    }
}

/// Going from stage to stage runs through the pipeline, in its order, once.
pub proof fn stages_follow_pipeline()
    ensures
        pipeline().len() == 4,
        stage_after(None) == Some(pipeline()[0]),
        forall|i: int|
            0 <= i < 3 ==> stage_after(Some(#[trigger] pipeline()[i])) == Some(pipeline()[i + 1]),
        stage_after(Some(pipeline()[3])) == None::<Stage>,
{
}

impl Game {
    /// Drives a deploy: given the stage that was just done (none at the
    /// start), the stage to run next, see [`stage_after`]. A stage that failed
    /// ends the deploy: the caller asks for no further stage.
    pub fn deploy(&self, done: Option<Stage>) -> (next: Option<Stage>)
        ensures
            next == stage_after(done),
    {
        match done {
            None => Some(Stage::Extract),
            Some(Stage::Extract) => Some(Stage::Uninstall),
            Some(Stage::Uninstall) => Some(Stage::Install),
            Some(Stage::Install) => Some(Stage::WritePlugins),
            Some(Stage::WritePlugins) => None,
        }
    }
}

} // verus!
