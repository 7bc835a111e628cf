//! The marker for data a game stage holds.

use vstd::prelude::*;

verus! {

/// Data that belongs to one self-contained game stage.
pub trait StageData {

}

} // verus!
