//! Errors of node information collection. An underlying error is kept as its message.

use vstd::prelude::*;

use crate::text::{cat, owned};

verus! {

/// Errors for node information collection.
#[derive(Debug)]
#[non_exhaustive]
pub enum NodeInfoError {
    SysInfoCollectionFailed(String),
    SysCapCollectionFailed(String),
    HardwareUuidFailed(String),
    Internal(String),
}

/// Mathematical model of a `NodeInfoError`.
pub enum NodeInfoErrorModel {
    SysInfoCollectionFailed(Seq<char>),
    SysCapCollectionFailed(Seq<char>),
    HardwareUuidFailed(Seq<char>),
    Internal(Seq<char>),
}

impl View for NodeInfoError {
    type V = NodeInfoErrorModel;

    open spec fn view(&self) -> NodeInfoErrorModel {
        match self {
            NodeInfoError::SysInfoCollectionFailed(m) => NodeInfoErrorModel::SysInfoCollectionFailed(m@),
            NodeInfoError::SysCapCollectionFailed(m) => NodeInfoErrorModel::SysCapCollectionFailed(m@),
            NodeInfoError::HardwareUuidFailed(m) => NodeInfoErrorModel::HardwareUuidFailed(m@),
            NodeInfoError::Internal(m) => NodeInfoErrorModel::Internal(m@),
        }
    }
}

/// The message of a node information error.
pub open spec fn node_info_error_text(e: NodeInfoErrorModel) -> Seq<char> {
    match e {
        NodeInfoErrorModel::SysInfoCollectionFailed(m) => "System information collection failed: "@ + m,
        NodeInfoErrorModel::SysCapCollectionFailed(_) => "System capabilities collection failed"@,
        NodeInfoErrorModel::HardwareUuidFailed(m) => "Failed to get hardware UUID: "@ + m,
        NodeInfoErrorModel::Internal(_) => "Internal error"@,
    }
}

impl NodeInfoError {
    /// The message of this error.
    pub fn to_string(&self) -> (r: String)
        ensures
            r@ == node_info_error_text(self@),
    {
        match self {
            NodeInfoError::SysInfoCollectionFailed(m) => cat("System information collection failed: ", m.as_str()),
            NodeInfoError::SysCapCollectionFailed(_) => owned("System capabilities collection failed"),
            NodeInfoError::HardwareUuidFailed(m) => cat("Failed to get hardware UUID: ", m.as_str()),
            NodeInfoError::Internal(_) => owned("Internal error"),
        }
    }
}

} // verus!
