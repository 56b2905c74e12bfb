//! Kinds of the data that a node refers to through its file name.

use vstd::prelude::*;

verus! {

/// Data that a node refers to.
#[derive(Debug, PartialEq, Eq, Structural, Clone, Copy, Hash)]
pub enum NodeData {
    /// Data does not exist (true for clone layers and file layers).
    DoesNotExist,
    /// Data is not loaded (yet).
    Unloaded(Unloaded),
    /// Loaded data.
    Loaded(Loaded),
}

/// Data that is not loaded.
#[derive(Debug, PartialEq, Eq, Structural, Clone, Copy, Hash)]
pub enum Unloaded {
    /// A compressed image.
    Image,
    /// Vector data.
    Vector,
    /// A filter configuration.
    Filter,
    /// Colorize mask data.
    ColorizeMask,
    /// Transformation mask data.
    TransformMask,
    /// Transparency mask data.
    TransparencyMask,
    /// Selection mask data.
    SelectionMask,
}

/// Loaded data.
#[derive(Debug, PartialEq, Eq, Structural, Clone, Copy, Hash)]
pub enum Loaded {
    /// Raster data.
    Image,
    /// Vector data.
    Vector,
    /// A filter configuration.
    Filter,
    /// Colorize mask information.
    ColorizeMask,
    /// Transformation mask information.
    TransformMask,
    /// Transparency mask information.
    TransparencyMask,
}

impl Unloaded {
    /// What the data is, in words.
    pub open spec fn spec_description(self) -> Seq<char> {
        match self {
            Unloaded::Image => "raster data"@,
            Unloaded::Vector => "vector data"@,
            Unloaded::Filter => "filter configuration"@,
            Unloaded::ColorizeMask => "colorize mask data"@,
            Unloaded::TransformMask => "transform mask data"@,
            Unloaded::TransparencyMask => "transparency mask data"@,
            Unloaded::SelectionMask => "selection mask data"@,
        }
    }

    /// What the data is, in words.
    pub fn description(self) -> (words: &'static str)
        ensures
            words@ == self.spec_description(),
    {
        match self {
            Unloaded::Image => "raster data",
            Unloaded::Vector => "vector data",
            Unloaded::Filter => "filter configuration",
            Unloaded::ColorizeMask => "colorize mask data",
            Unloaded::TransformMask => "transform mask data",
            Unloaded::TransparencyMask => "transparency mask data",
            Unloaded::SelectionMask => "selection mask data",
        }
    }
}

impl Loaded {
    /// What the data is, in words.
    pub open spec fn spec_description(self) -> Seq<char> {
        match self {
            Loaded::Image => "raster data"@,
            Loaded::Vector => "vector image data"@,
            Loaded::Filter => "filter configuration"@,
            Loaded::ColorizeMask => "colorize mask data"@,
            Loaded::TransformMask => "transform mask data"@,
            Loaded::TransparencyMask => "transparency mask data"@,
        }
    }

    /// What the data is, in words.
    pub fn description(self) -> (words: &'static str)
        ensures
            words@ == self.spec_description(),
    {
        match self {
            Loaded::Image => "raster data",
            Loaded::Vector => "vector image data",
            Loaded::Filter => "filter configuration",
            Loaded::ColorizeMask => "colorize mask data",
            Loaded::TransformMask => "transform mask data",
            Loaded::TransparencyMask => "transparency mask data",
        }
    }
}

impl NodeData {
    /// What the data is, in words.
    pub open spec fn spec_description(self) -> Seq<char> {
        match self {
            NodeData::DoesNotExist => "non-existent data"@,
            NodeData::Unloaded(inner) => "unloaded "@ + inner.spec_description(),
            NodeData::Loaded(inner) => "loaded "@ + inner.spec_description(),
        }
    }

    /// What the data is, in words.
    pub fn description(self) -> (words: String)
        ensures
            words@ == self.spec_description(),
    {
        match self {
            NodeData::DoesNotExist => "non-existent data".to_owned(),
            NodeData::Unloaded(inner) => {
                let mut words = "unloaded ".to_owned();
                words.append(inner.description());
                words
            },
            NodeData::Loaded(inner) => {
                let mut words = "loaded ".to_owned();
                words.append(inner.description());
                words
            },
        }
    }
}

} // verus!
