//! Pre-game options: what the main menu edits and every entry path stamps
//! onto the game it configures — how units occupy space, and the map's
//! metric together with the way it is drawn.
use vstd::prelude::*;
use crate::map::Projection;

verus! {

/// How units occupy space and resolve blocking between each other.
#[derive(Clone, Copy, Debug, PartialEq, Eq, Structural)]
pub enum MovementModel {
    /// One unit to a cell.
    Cell,
    /// Bodies moving freely, pushing past each other.
    Continuous,
}

/// The map's distance metric together with the way the world is drawn. The
/// isometric metric has two established looks — the classic diamond and the
/// flat square grid — while the orthogonal (Euclidean) metric reads right only
/// on a square grid.
#[derive(Clone, Copy, Debug, PartialEq, Eq, Structural)]
pub enum View {
    /// The Chebyshev metric drawn as the classic isometric diamond.
    IsometricDiamond,
    /// The Chebyshev metric drawn as a flat square grid.
    IsometricSquare,
    /// The Euclidean metric on a square grid.
    Orthogonal,
}

/// The distance metric a view plays with.
pub open spec fn projection_of(view: View) -> Projection {
    match view {
        View::IsometricDiamond | View::IsometricSquare => Projection::Isometric,
        View::Orthogonal => Projection::Orthogonal,
    }
}

/// Whether a view draws the world as diamonds.
pub open spec fn is_diamond(view: View) -> bool {
    view == View::IsometricDiamond
}

impl View {
    /// The distance metric this view plays with.
    pub fn projection(self) -> (projection: Projection)
        ensures
            projection == projection_of(self),
    {
        match self {
            View::IsometricDiamond | View::IsometricSquare => Projection::Isometric,
            View::Orthogonal => Projection::Orthogonal,
        }
    }

    /// Whether the world draws as diamonds.
    pub fn diamond(self) -> (diamond: bool)
        ensures
            diamond == is_diamond(self),
    {
        match self {
            View::IsometricDiamond => true,
            View::IsometricSquare | View::Orthogonal => false,
        }
    }
}

/// The demo's pre-game options. They shape the next game only — the game in
/// progress reads its own map, never these.
#[derive(Clone, Copy, Debug, PartialEq, Eq, Structural)]
pub struct Settings {
    /// How units occupy space and resolve blocking between each other.
    pub movement_model: MovementModel,
    /// The map's distance metric together with the way it is drawn.
    pub view: View,
}

impl Default for Settings {
    /// Continuous movement on the flat square isometric grid.
    fn default() -> (settings: Self)
        ensures
            settings == (Settings {
                movement_model: MovementModel::Continuous,
                view: View::IsometricSquare,
            }),
    {
        Settings { movement_model: MovementModel::Continuous, view: View::IsometricSquare }
    }
}

/// Every view's look is consistent with its metric: a diamond is only ever
/// drawn for the isometric metric, and the orthogonal metric is always drawn
/// square.
pub proof fn law_diamond_is_isometric(view: View)
    ensures
        is_diamond(view) ==> projection_of(view) == Projection::Isometric,
        projection_of(view) == Projection::Orthogonal ==> !is_diamond(view),
{
}

} // verus!
