use vstd::prelude::*;

verus! {

/// What focusing a workspace needs to know of one of its docks.
#[derive(Clone, Copy, Debug, PartialEq, Eq, Structural)]
pub struct DockFocusState {
    pub is_open: bool,
    /// `None` when the dock has no active panel, else whether that panel is zoomed.
    pub active_panel_zoomed: Option<bool>,
}

/// Where focus goes when a workspace is focused.
#[derive(Clone, Copy, Debug, PartialEq, Eq, Structural)]
pub enum FocusTarget {
    /// The active panel of the dock at this position.
    ZoomedPanel { dock: usize },
    /// The workspace's active pane.
    ActivePane,
}

/// The dock is open and its active panel is zoomed.
pub open spec fn shows_zoomed_panel(dock: DockFocusState) -> bool {
    dock.is_open && dock.active_panel_zoomed == Some(true)
}

/// Picks the focus target of a workspace whose docks are `docks`, in the
/// order the workspace lists them: the first open dock whose active panel is
/// zoomed, so that focusing does not dismiss the zoom, else the active pane.
pub fn focus_target(docks: &[DockFocusState]) -> (t: FocusTarget)
    ensures
        match t {
            FocusTarget::ZoomedPanel { dock } => {
                &&& dock < docks@.len()
                &&& shows_zoomed_panel(docks@[dock as int])
                &&& forall|j: int| 0 <= j < dock ==> !shows_zoomed_panel(#[trigger] docks@[j])
            },
            FocusTarget::ActivePane => forall|j: int|
                0 <= j < docks@.len() ==> !shows_zoomed_panel(#[trigger] docks@[j]),
        },
{
    let mut i: usize = 0;
    while i < docks.len()
        invariant
            i <= docks@.len(),
            forall|j: int| 0 <= j < i ==> !shows_zoomed_panel(#[trigger] docks@[j]),
        decreases docks@.len() - i,
    {
        let dock = docks[i];
        if dock.is_open {
            if let Some(zoomed) = dock.active_panel_zoomed {
                if zoomed {
                    return FocusTarget::ZoomedPanel { dock: i };
                }
            }
        }
        i = i + 1;
    }
    FocusTarget::ActivePane
}

} // verus!
