use vstd::prelude::*;
use vstd::string::StringExecFns;

verus! {

/// A search domain for a metadata query: one of the predefined symbolic
/// scopes understood by the metadata service, or a caller-supplied
/// filesystem path.
pub enum MDQueryScope {
    Home,
    Computer,
    Network,
    AllIndexed,
    ComputerIndexed,
    NetworkIndexed,
    Custom(String),
}

/// The scope string handed to the native query: the symbolic constant for a
/// predefined scope, or the path itself for a custom scope.
pub open spec fn scope_str(scope: MDQueryScope) -> Seq<char> {
    match scope {
        MDQueryScope::Home => "kMDQueryScopeHome"@,
        MDQueryScope::Computer => "kMDQueryScopeComputer"@,
        MDQueryScope::Network => "kMDQueryScopeNetwork"@,
        MDQueryScope::AllIndexed => "kMDQueryScopeAllIndexed"@,
        MDQueryScope::ComputerIndexed => "kMDQueryScopeComputerIndexed"@,
        MDQueryScope::NetworkIndexed => "kMDQueryScopeNetworkIndexed"@,
        MDQueryScope::Custom(path) => path@,
    }
}

impl MDQueryScope {
    /// Builds a custom scope from a filesystem path.
    pub fn from_path(path: &str) -> (scope: Self)
        ensures
            scope matches MDQueryScope::Custom(p) && p@ == path@,
    {
        MDQueryScope::Custom(String::from_str(path))
    }

    /// Renders the scope as the string the native scope list expects.
    pub(crate) fn into_scope_string(self) -> (s: String)
        ensures
            s@ == scope_str(self),
    {
        match self {
            MDQueryScope::Home => String::from_str("kMDQueryScopeHome"),
            MDQueryScope::Computer => String::from_str("kMDQueryScopeComputer"),
            MDQueryScope::Network => String::from_str("kMDQueryScopeNetwork"),
            MDQueryScope::AllIndexed => String::from_str("kMDQueryScopeAllIndexed"),
            MDQueryScope::ComputerIndexed => String::from_str("kMDQueryScopeComputerIndexed"),
            MDQueryScope::NetworkIndexed => String::from_str("kMDQueryScopeNetworkIndexed"),
            MDQueryScope::Custom(path) => path,
        }
    }
}

/// Metadata attribute keys that can be used in queries.
///
/// These keys correspond to the metadata attributes the search service
/// indexes for each item.
#[derive(Clone, Copy, PartialEq, Eq, Structural, Debug)]
pub enum MDItemKey {
    /// The user-visible display name of the item
    DisplayName,
    /// The filename of the item
    FSName,
    /// The date the item's content was last modified
    ModificationDate,
    /// The date the item's content was created
    CreationDate,
    /// The date the item was last used/opened
    LastUsedDate,
    /// The size of the item in bytes
    Size,
    /// The UTI (Uniform Type Identifier) of the item
    ContentType,
    /// The ordered list of type identifiers describing the item's type
    /// hierarchy
    ContentTypeTree,
    /// The path of the item
    Path,
}

/// The attribute-name string the metadata service uses for a key.
pub open spec fn key_str(key: MDItemKey) -> Seq<char> {
    match key {
        MDItemKey::DisplayName => "kMDItemDisplayName"@,
        MDItemKey::FSName => "kMDItemFSName"@,
        MDItemKey::ModificationDate => "kMDItemContentModificationDate"@,
        MDItemKey::CreationDate => "kMDItemContentCreationDate"@,
        MDItemKey::LastUsedDate => "kMDItemLastUsedDate"@,
        MDItemKey::Size => "kMDItemFSSize"@,
        MDItemKey::ContentType => "kMDItemContentType"@,
        MDItemKey::ContentTypeTree => "kMDItemContentTypeTree"@,
        MDItemKey::Path => "kMDItemPath"@,
    }
}

impl MDItemKey {
    /// Whether the key names a date/time attribute.
    pub open spec fn spec_is_time(self) -> bool {
        self == MDItemKey::ModificationDate || self == MDItemKey::CreationDate
            || self == MDItemKey::LastUsedDate
    }

    /// Returns the attribute-name string used by the metadata service for
    /// this key.
    pub fn as_str(&self) -> (s: &'static str)
        ensures
            s@ == key_str(*self),
    {
        match self {
            MDItemKey::DisplayName => "kMDItemDisplayName",
            MDItemKey::FSName => "kMDItemFSName",
            MDItemKey::ModificationDate => "kMDItemContentModificationDate",
            MDItemKey::CreationDate => "kMDItemContentCreationDate",
            MDItemKey::LastUsedDate => "kMDItemLastUsedDate",
            MDItemKey::Size => "kMDItemFSSize",
            MDItemKey::ContentType => "kMDItemContentType",
            MDItemKey::ContentTypeTree => "kMDItemContentTypeTree",
            MDItemKey::Path => "kMDItemPath",
        }
    }

    /// Checks if this key represents a date/time attribute.
    pub fn is_time(&self) -> (time: bool)
        ensures
            time == self.spec_is_time(),
    {
        matches!(
            self,
            MDItemKey::ModificationDate | MDItemKey::CreationDate | MDItemKey::LastUsedDate
        )
    }
}

} // verus!
