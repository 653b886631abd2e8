//! Browsed-node data: what one Browse call reports about each child.
//!
//! The remote Browse service runs outside the library; its references
//! arrive as plain values in [`BrowsedNode`].

use vstd::prelude::*;

verus! {

/// OPC-UA node classes.
#[derive(Debug, Clone, Copy, PartialEq, Eq, Structural)]
pub enum NodeClass {
    Object,
    Variable,
    Method,
    ObjectType,
    VariableType,
    ReferenceType,
    DataType,
    View,
    Unknown,
}

/// The numeric node-class values of the protocol's wire encoding.
pub open spec fn spec_node_class_of(code: u32) -> NodeClass {
    if code == 1u32 {
        NodeClass::Object
    } else if code == 2u32 {
        NodeClass::Variable
    } else if code == 4u32 {
        NodeClass::Method
    } else if code == 8u32 {
        NodeClass::ObjectType
    } else if code == 16u32 {
        NodeClass::VariableType
    } else if code == 32u32 {
        NodeClass::ReferenceType
    } else if code == 64u32 {
        NodeClass::DataType
    } else if code == 128u32 {
        NodeClass::View
    } else {
        NodeClass::Unknown
    }
}

/// Icon text for a node class.
pub open spec fn spec_node_class_icon(c: NodeClass) -> Seq<char> {
    match c {
        NodeClass::Object => "📁"@,
        NodeClass::Variable => "📊"@,
        NodeClass::Method => "⚡"@,
        NodeClass::ObjectType => "📋"@,
        NodeClass::VariableType => "📈"@,
        NodeClass::ReferenceType => "🔗"@,
        NodeClass::DataType => "🔢"@,
        NodeClass::View => "👁"@,
        NodeClass::Unknown => "❓"@,
    }
}

impl NodeClass {
    /// Get an icon string for the node class.
    pub fn icon(&self) -> (r: &'static str)
        ensures
            r@ == spec_node_class_icon(*self),
    {
        match self {
            NodeClass::Object => "📁",
            NodeClass::Variable => "📊",
            NodeClass::Method => "⚡",
            NodeClass::ObjectType => "📋",
            NodeClass::VariableType => "📈",
            NodeClass::ReferenceType => "🔗",
            NodeClass::DataType => "🔢",
            NodeClass::View => "👁",
            NodeClass::Unknown => "❓",
        }
    }

    /// Convert from the protocol's numeric node-class value.
    pub fn from_opcua(node_class: u32) -> (r: Self)
        ensures
            r == spec_node_class_of(node_class),
    {
        match node_class {
            1 => NodeClass::Object,
            2 => NodeClass::Variable,
            4 => NodeClass::Method,
            8 => NodeClass::ObjectType,
            16 => NodeClass::VariableType,
            32 => NodeClass::ReferenceType,
            64 => NodeClass::DataType,
            128 => NodeClass::View,
            _ => NodeClass::Unknown,
        }
    }

    /// The class's name as text.
    pub fn name(&self) -> (r: &'static str)
        ensures
            r@ == spec_node_class_name(*self),
    {
        match self {
            NodeClass::Object => "Object",
            NodeClass::Variable => "Variable",
            NodeClass::Method => "Method",
            NodeClass::ObjectType => "ObjectType",
            NodeClass::VariableType => "VariableType",
            NodeClass::ReferenceType => "ReferenceType",
            NodeClass::DataType => "DataType",
            NodeClass::View => "View",
            NodeClass::Unknown => "Unknown",
        }
    }

    /// Container-like classes, whose children the crawler descends into.
    pub fn is_container(&self) -> (r: bool)
        ensures
            r == spec_is_container(*self),
    {
        match self {
            NodeClass::Object => true,
            NodeClass::ObjectType => true,
            NodeClass::View => true,
            _ => false,
        }
    }
}

/// Whether a class is container-like (Object, ObjectType, View).
pub open spec fn spec_is_container(c: NodeClass) -> bool {
    c is Object || c is ObjectType || c is View
}

/// The name of each node class.
pub open spec fn spec_node_class_name(c: NodeClass) -> Seq<char> {
    match c {
        NodeClass::Object => "Object"@,
        NodeClass::Variable => "Variable"@,
        NodeClass::Method => "Method"@,
        NodeClass::ObjectType => "ObjectType"@,
        NodeClass::VariableType => "VariableType"@,
        NodeClass::ReferenceType => "ReferenceType"@,
        NodeClass::DataType => "DataType"@,
        NodeClass::View => "View"@,
        NodeClass::Unknown => "Unknown"@,
    }
}

impl BrowsedNode {
    /// An equal copy, field for field.
    pub fn duplicate(&self) -> (r: Self)
        ensures
            r == *self,
    {
        BrowsedNode {
            node_id: self.node_id.clone(),
            browse_name: self.browse_name.clone(),
            display_name: self.display_name.clone(),
            node_class: self.node_class,
            type_definition: match &self.type_definition {
                Some(s) => Some(s.clone()),
                None => None,
            },
            has_children: self.has_children,
        }
    }
}

/// Information about a browsed node.
#[derive(Debug, Clone)]
pub struct BrowsedNode {
    /// The node's identifier, in string form.
    pub node_id: String,
    /// The browse name (namespace:name).
    pub browse_name: String,
    /// The display name (human-readable).
    pub display_name: String,
    /// The node class.
    pub node_class: NodeClass,
    /// Type definition node id, if applicable.
    pub type_definition: Option<String>,
    /// Whether this node has children (for lazy loading and descent).
    pub has_children: bool,
}

} // verus!
