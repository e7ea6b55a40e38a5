//! Kinds of objects that the detector tells apart.

use vstd::prelude::*;

verus! {

#[derive(Debug, Clone, Copy, PartialEq, Eq, Structural)]
pub enum DetectedObject {
    Ball,
    Robot,
    GoalPost,
    PenaltySpot,
}

impl DetectedObject {
    /// The kind with the number `index`, as the detector counts them.
    pub open spec fn of_index(index: usize) -> Option<DetectedObject> {
        if index == 0 {
            Some(DetectedObject::Ball)
        } else if index == 1 {
            Some(DetectedObject::Robot)
        } else if index == 2 {
            Some(DetectedObject::GoalPost)
        } else if index == 3 {
            Some(DetectedObject::PenaltySpot)
        } else {
            None
        }
    }

    /// The kind with the number `index`; `None` for a number that stands
    /// for no kind.
    pub fn from_index(index: usize) -> (object: Option<DetectedObject>)
        ensures
            object == DetectedObject::of_index(index),
            object.is_some() <==> index < 4,
    {
        match index {
            0 => Some(DetectedObject::Ball),
            1 => Some(DetectedObject::Robot),
            2 => Some(DetectedObject::GoalPost),
            3 => Some(DetectedObject::PenaltySpot),
            _ => None,
        }
    }
}

} // verus!
