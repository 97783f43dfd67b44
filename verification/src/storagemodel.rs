use vstd::prelude::*;
use vstd::string::StringExecFns;

verus! {

// ---------------------------------------------------------------------------
// The shapes the relational store trades in: one row per persisted outbound,
// its engine JSON and its display metadata both serialized as text.  The
// store itself is an outside collaborator; these are the values it supplies
// and consumes.
// ---------------------------------------------------------------------------

/// One persisted row: the outbound's engine JSON in `data`, its display
/// metadata in `extra` (the empty string when there is none).
#[derive(Debug, Clone, PartialEq)]
pub struct ConfigModel {
    pub id: u64,
    pub group_id: u64,
    pub data: String,
    pub extra: String,
}

impl ConfigModel {
    pub fn new(id: u64, group_id: u64, data: String, extra: String) -> (r: ConfigModel)
        ensures
            r.id == id,
            r.group_id == group_id,
            r.data@ == data@,
            r.extra@ == extra@,
    {
        ConfigModel { id, group_id, data, extra }
    }
}

/// A persisted outbound in its typed form, carrying its persistent id.
#[derive(Debug, Clone, PartialEq)]
pub struct XrayOutboundModel {
    pub id: u64,
    pub extra: Option<crate::model::ExtraOutboundClientConfig>,
    pub config: crate::model::XrayOutboundClientConfig,
}

impl XrayOutboundModel {
    pub fn new(
        id: u64,
        extra: Option<crate::model::ExtraOutboundClientConfig>,
        config: crate::model::XrayOutboundClientConfig,
    ) -> (r: XrayOutboundModel)
        ensures
            r.id == id,
            r.extra == extra,
            r.config == config,
    {
        XrayOutboundModel { id, extra, config }
    }
}

/// One page of persisted configs, with the total the pagination is over.
#[derive(Debug, Clone, PartialEq)]
pub struct PaginatedConfigs {
    pub configs: Vec<XrayOutboundModel>,
    pub total_items: u64,
}

#[derive(Debug, Clone, PartialEq, Eq, Structural)]
pub struct PaginationParams {
    pub page: usize,
    pub limit: usize,
}

/// A partial group update: absent fields keep their stored values.
#[derive(Debug, Clone, PartialEq)]
pub struct UpdateGroup {
    pub name: Option<String>,
    pub sub_url: Option<String>,
}

/// Why a storage operation failed.
#[derive(Debug, Clone, PartialEq)]
pub enum StorageError {
    LockError,
    GroupNotFound(String),
    OperationFailed(String),
    SerializationError(String),
    DeserializationError(String),
}

impl StorageError {
    /// A human-readable account of the failure.
    pub fn message(&self) -> (r: String)
        ensures
            self matches StorageError::GroupNotFound(g) ==> r@ == "Group '"@ + g@
                + "' not found"@,
            *self == StorageError::LockError ==> r@ == "Failed to acquire lock on storage"@,
            self matches StorageError::OperationFailed(s) ==> r@ == "Storage operation failed: "@
                + s@,
            self matches StorageError::SerializationError(s) ==> r@ == "Serialization error: "@
                + s@,
            self matches StorageError::DeserializationError(s) ==> r@
                == "Deserialization error: "@ + s@,
    {
        match self {
            StorageError::LockError => String::from_str("Failed to acquire lock on storage"),
            StorageError::GroupNotFound(g) => {
                let mut r = String::from_str("Group '");
                r.append(g.as_str());
                r.append("' not found");
                r
            },
            StorageError::OperationFailed(s) => {
                let mut r = String::from_str("Storage operation failed: ");
                r.append(s.as_str());
                r
            },
            StorageError::SerializationError(s) => {
                let mut r = String::from_str("Serialization error: ");
                r.append(s.as_str());
                r
            },
            StorageError::DeserializationError(s) => {
                let mut r = String::from_str("Deserialization error: ");
                r.append(s.as_str());
                r
            },
        }
    }
}

} // verus!

verus! {

#[verifier::ext_equal]
pub ghost struct ConfigModelV {
    pub id: u64,
    pub group_id: u64,
    pub data: Seq<char>,
    pub extra: Seq<char>,
}

impl View for ConfigModel {
    type V = ConfigModelV;

    open spec fn view(&self) -> ConfigModelV {
        ConfigModelV { id: self.id, group_id: self.group_id, data: self.data@, extra: self.extra@ }
    }
}

} // verus!
