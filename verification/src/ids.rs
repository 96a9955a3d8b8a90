//! Identifiers of the document's entities.
//!
//! One monotonic sequence is shared across every kind of entity, so an id
//! names one thing in a project and is never handed out twice.

use vstd::prelude::*;

verus! {

#[derive(Debug, Clone, Copy, PartialEq, Eq, Structural, Hash)]
pub struct AssetId(pub u64);

#[derive(Debug, Clone, Copy, PartialEq, Eq, Structural, Hash)]
pub struct LayerId(pub u64);

#[derive(Debug, Clone, Copy, PartialEq, Eq, Structural, Hash)]
pub struct PuppetId(pub u64);

#[derive(Debug, Clone, Copy, PartialEq, Eq, Structural, Hash)]
pub struct JointId(pub u64);

#[derive(Debug, Clone, Copy, PartialEq, Eq, Structural, Hash)]
pub struct BoneId(pub u64);

} // verus!
