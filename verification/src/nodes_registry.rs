//! Errors of the nodes registry API. A node is identified by the 128 bits of its UUID.

use vstd::prelude::*;

use crate::text::{cat, uuid_text, uuid_to_string};

verus! {

/// Errors for the nodes registry module.
#[derive(Debug, Clone, PartialEq, Eq)]
#[non_exhaustive]
pub enum NodesRegistryError {
    NodeNotFound(u128),
    SysInfoCollectionFailed(String),
    SysCapCollectionFailed(String),
    Validation(String),
    Internal(String),
}

/// Mathematical model of a `NodesRegistryError`.
pub enum NodesRegistryErrorModel {
    NodeNotFound(u128),
    SysInfoCollectionFailed(Seq<char>),
    SysCapCollectionFailed(Seq<char>),
    Validation(Seq<char>),
    Internal(Seq<char>),
}

impl View for NodesRegistryError {
    type V = NodesRegistryErrorModel;

    open spec fn view(&self) -> NodesRegistryErrorModel {
        match self {
            NodesRegistryError::NodeNotFound(id) => NodesRegistryErrorModel::NodeNotFound(*id),
            NodesRegistryError::SysInfoCollectionFailed(m) => NodesRegistryErrorModel::SysInfoCollectionFailed(m@),
            NodesRegistryError::SysCapCollectionFailed(m) => NodesRegistryErrorModel::SysCapCollectionFailed(m@),
            NodesRegistryError::Validation(m) => NodesRegistryErrorModel::Validation(m@),
            NodesRegistryError::Internal(m) => NodesRegistryErrorModel::Internal(m@),
        }
    }
}

/// The message of a nodes registry error.
pub open spec fn nodes_registry_error_text(e: NodesRegistryErrorModel) -> Seq<char> {
    match e {
        NodesRegistryErrorModel::NodeNotFound(id) => "Node not found with ID: "@ + uuid_text(id),
        NodesRegistryErrorModel::SysInfoCollectionFailed(m) => "Failed to collect system information: "@ + m,
        NodesRegistryErrorModel::SysCapCollectionFailed(m) => "Failed to collect system capabilities: "@ + m,
        NodesRegistryErrorModel::Validation(m) => "Invalid input: "@ + m,
        NodesRegistryErrorModel::Internal(m) => "internal error: "@ + m,
    }
}

impl NodesRegistryError {
    /// The message of this error.
    pub fn to_string(&self) -> (r: String)
        ensures
            r@ == nodes_registry_error_text(self@),
    {
        match self {
            NodesRegistryError::NodeNotFound(id) => {
                let t = uuid_to_string(*id);
                cat("Node not found with ID: ", t.as_str())
            },
            NodesRegistryError::SysInfoCollectionFailed(m) => cat("Failed to collect system information: ", m.as_str()),
            NodesRegistryError::SysCapCollectionFailed(m) => cat("Failed to collect system capabilities: ", m.as_str()),
            NodesRegistryError::Validation(m) => cat("Invalid input: ", m.as_str()),
            NodesRegistryError::Internal(m) => cat("internal error: ", m.as_str()),
        }
    }
}

} // verus!
