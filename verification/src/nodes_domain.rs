//! Domain-level errors of the nodes registry, their origin in node
//! information errors, and their report as public `NodesRegistryError`s.

use vstd::prelude::*;

use crate::node_info::{NodeInfoError, NodeInfoErrorModel};
use crate::nodes_registry::{NodesRegistryError, NodesRegistryErrorModel};
use crate::text::{cat, uuid_text, uuid_to_string};

verus! {

/// Domain-level errors for the nodes registry.
#[derive(Debug)]
pub enum DomainError {
    NodeNotFound(u128),
    SysInfoCollectionFailed(String),
    SysCapCollectionFailed(String),
    InvalidInput(String),
    Internal(String),
}

/// Mathematical model of a `DomainError`.
pub enum DomainErrorModel {
    NodeNotFound(u128),
    SysInfoCollectionFailed(Seq<char>),
    SysCapCollectionFailed(Seq<char>),
    InvalidInput(Seq<char>),
    Internal(Seq<char>),
}

impl View for DomainError {
    type V = DomainErrorModel;

    open spec fn view(&self) -> DomainErrorModel {
        match self {
            DomainError::NodeNotFound(id) => DomainErrorModel::NodeNotFound(*id),
            DomainError::SysInfoCollectionFailed(m) => DomainErrorModel::SysInfoCollectionFailed(m@),
            DomainError::SysCapCollectionFailed(m) => DomainErrorModel::SysCapCollectionFailed(m@),
            DomainError::InvalidInput(m) => DomainErrorModel::InvalidInput(m@),
            DomainError::Internal(m) => DomainErrorModel::Internal(m@),
        }
    }
}

/// The message of a domain error.
pub open spec fn domain_error_text(e: DomainErrorModel) -> Seq<char> {
    match e {
        DomainErrorModel::NodeNotFound(id) => "Node not found: "@ + uuid_text(id),
        DomainErrorModel::SysInfoCollectionFailed(m) => "Failed to collect system information: "@ + m,
        DomainErrorModel::SysCapCollectionFailed(m) => "Failed to collect system capabilities: "@ + m,
        DomainErrorModel::InvalidInput(m) => "Invalid input: "@ + m,
        DomainErrorModel::Internal(m) => "Internal error: "@ + m,
    }
}

/// The domain error for a node information error.
pub open spec fn domain_from_node_info(e: NodeInfoErrorModel) -> DomainErrorModel {
    match e {
        NodeInfoErrorModel::SysInfoCollectionFailed(m) => DomainErrorModel::SysInfoCollectionFailed(m),
        NodeInfoErrorModel::SysCapCollectionFailed(src) => DomainErrorModel::SysCapCollectionFailed(src),
        NodeInfoErrorModel::HardwareUuidFailed(m) => DomainErrorModel::Internal("Hardware UUID failed: "@ + m),
        NodeInfoErrorModel::Internal(src) => DomainErrorModel::Internal(src),
    }
}

/// The public error that a domain error is reported as.
pub open spec fn public_from_domain(e: DomainErrorModel) -> NodesRegistryErrorModel {
    match e {
        DomainErrorModel::NodeNotFound(id) => NodesRegistryErrorModel::NodeNotFound(id),
        DomainErrorModel::SysInfoCollectionFailed(m) => NodesRegistryErrorModel::SysInfoCollectionFailed(m),
        DomainErrorModel::SysCapCollectionFailed(m) => NodesRegistryErrorModel::SysCapCollectionFailed(m),
        DomainErrorModel::InvalidInput(m) => NodesRegistryErrorModel::Validation(m),
        DomainErrorModel::Internal(m) => NodesRegistryErrorModel::Internal(m),
    }
}

impl DomainError {
    /// The message of this error.
    pub fn to_string(&self) -> (r: String)
        ensures
            r@ == domain_error_text(self@),
    {
        match self {
            DomainError::NodeNotFound(id) => {
                let t = uuid_to_string(*id);
                cat("Node not found: ", t.as_str())
            },
            DomainError::SysInfoCollectionFailed(m) => cat("Failed to collect system information: ", m.as_str()),
            DomainError::SysCapCollectionFailed(m) => cat("Failed to collect system capabilities: ", m.as_str()),
            DomainError::InvalidInput(m) => cat("Invalid input: ", m.as_str()),
            DomainError::Internal(m) => cat("Internal error: ", m.as_str()),
        }
    }

    /// The domain error for a node information error.
    pub fn from_node_info_error(e: NodeInfoError) -> (r: DomainError)
        ensures
            r@ == domain_from_node_info(e@),
    {
        match e {
            NodeInfoError::SysInfoCollectionFailed(msg) => DomainError::SysInfoCollectionFailed(msg),
            NodeInfoError::SysCapCollectionFailed(src) => DomainError::SysCapCollectionFailed(src),
            NodeInfoError::HardwareUuidFailed(msg) => DomainError::Internal(cat("Hardware UUID failed: ", msg.as_str())),
            NodeInfoError::Internal(src) => DomainError::Internal(src),
        }
    }
}

impl NodesRegistryError {
    /// The public error for a domain error.
    pub fn from_domain_error(e: DomainError) -> (r: NodesRegistryError)
        ensures
            r@ == public_from_domain(e@),
    {
        match e {
            DomainError::NodeNotFound(id) => NodesRegistryError::NodeNotFound(id),
            DomainError::SysInfoCollectionFailed(msg) => NodesRegistryError::SysInfoCollectionFailed(msg),
            DomainError::SysCapCollectionFailed(msg) => NodesRegistryError::SysCapCollectionFailed(msg),
            DomainError::InvalidInput(msg) => NodesRegistryError::Validation(msg),
            DomainError::Internal(msg) => NodesRegistryError::Internal(msg),
        }
    }
}

/// Reporting loses no information: distinct domain errors are reported as
/// distinct public errors.
pub proof fn lemma_public_from_domain_injective(a: DomainErrorModel, b: DomainErrorModel)
    requires
        public_from_domain(a) == public_from_domain(b),
    ensures
        a == b,
{
}

} // verus!
