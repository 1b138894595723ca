//! The resource that asks for a secret, and what can be wrong with it.

use crate::string_map::StringMap;
use crate::time::Timestamp;
use vstd::prelude::*;
use vstd::string::*;

verus! {

/// Label that carries the hash of a generated secret's content.
pub const OPERATOR_HASH_LABEL: &'static str = "bitwarden-secret-operator-rs.io/hash";

/// Label that carries the time, in seconds, at which a secret was generated.
pub const OPERATOR_LAST_UPDATE_LABEL: &'static str = "bitwarden-secret-operator-rs.io/last-update";

/// The view of an optional mapping of texts.
pub open spec fn optional_map_view(m: Option<StringMap<String>>) -> Option<
    Map<Seq<char>, Seq<char>>,
> {
    match m {
        Some(m) => Some(m@),
        None => None,
    }
}

/// One key of the secret to generate, and where its value comes from.
#[derive(Clone, Debug)]
pub struct ContentEntry {
    /// Vault item to read; the resource's own item where absent.
    pub bitwarden_id: Option<String>,
    /// Name of the item's field to take the value from.
    pub bitwarden_secret_field: Option<String>,
    /// Whether to take the item's note as the value.
    pub bitwarden_use_note: Option<bool>,
    /// Key under which the value is stored in the secret.
    pub kubernetes_secret_key: String,
    /// A value given outright, which needs no vault item.
    pub kubernetes_secret_value: Option<String>,
}

/// The mathematical value of a `ContentEntry`.
pub struct ContentEntryView {
    pub bitwarden_id: Option<Seq<char>>,
    pub bitwarden_secret_field: Option<Seq<char>>,
    pub bitwarden_use_note: Option<bool>,
    pub kubernetes_secret_key: Seq<char>,
    pub kubernetes_secret_value: Option<Seq<char>>,
}

impl View for ContentEntry {
    type V = ContentEntryView;

    open spec fn view(&self) -> ContentEntryView {
        ContentEntryView {
            bitwarden_id: self.bitwarden_id.deep_view(),
            bitwarden_secret_field: self.bitwarden_secret_field.deep_view(),
            bitwarden_use_note: self.bitwarden_use_note,
            kubernetes_secret_key: self.kubernetes_secret_key@,
            kubernetes_secret_value: self.kubernetes_secret_value.deep_view(),
        }
    }
}

impl DeepView for ContentEntry {
    type V = ContentEntryView;

    open spec fn deep_view(&self) -> ContentEntryView {
        self@
    }
}

impl Default for ContentEntry {
    fn default() -> (entry: ContentEntry)
        ensures
            entry@ == (ContentEntryView {
                bitwarden_id: None,
                bitwarden_secret_field: None,
                bitwarden_use_note: None,
                kubernetes_secret_key: Seq::<char>::empty(),
                kubernetes_secret_value: None,
            }),
    {
        ContentEntry {
            bitwarden_id: None,
            bitwarden_secret_field: None,
            bitwarden_use_note: None,
            kubernetes_secret_key: String::new(),
            kubernetes_secret_value: None,
        }
    }
}

/// What a resource asks for: the secret to generate and its content.
#[derive(Clone, Debug)]
pub struct BitwardenSecretSpec {
    /// Name of the secret; the resource's own name where absent.
    pub name: Option<String>,
    /// Namespace of the secret; the resource's own namespace where absent.
    pub namespace: Option<String>,
    /// Type of the secret.
    pub secret_type: Option<String>,
    /// Vault item for the entries that name none.
    pub bitwarden_id: Option<String>,
    /// Labels to put on the secret.
    pub labels: Option<StringMap<String>>,
    /// The keys of the secret.
    pub content: Vec<ContentEntry>,
    /// Texts to store in the secret as they are.
    pub string_data: Option<StringMap<String>>,
}

/// The mathematical value of a `BitwardenSecretSpec`.
#[verifier::ext_equal]
pub struct BitwardenSecretSpecView {
    pub name: Option<Seq<char>>,
    pub namespace: Option<Seq<char>>,
    pub secret_type: Option<Seq<char>>,
    pub bitwarden_id: Option<Seq<char>>,
    pub labels: Option<Map<Seq<char>, Seq<char>>>,
    pub content: Seq<ContentEntryView>,
    pub string_data: Option<Map<Seq<char>, Seq<char>>>,
}

impl View for BitwardenSecretSpec {
    type V = BitwardenSecretSpecView;

    open spec fn view(&self) -> BitwardenSecretSpecView {
        BitwardenSecretSpecView {
            name: self.name.deep_view(),
            namespace: self.namespace.deep_view(),
            secret_type: self.secret_type.deep_view(),
            bitwarden_id: self.bitwarden_id.deep_view(),
            labels: optional_map_view(self.labels),
            content: self.content.deep_view(),
            string_data: optional_map_view(self.string_data),
        }
    }
}

impl Default for BitwardenSecretSpec {
    fn default() -> (spec: BitwardenSecretSpec)
        ensures
            spec@ == (BitwardenSecretSpecView {
                name: None,
                namespace: None,
                secret_type: None,
                bitwarden_id: None,
                labels: None,
                content: Seq::<ContentEntryView>::empty(),
                string_data: None,
            }),
    {
        let spec = BitwardenSecretSpec {
            name: None,
            namespace: None,
            secret_type: None,
            bitwarden_id: None,
            labels: None,
            content: Vec::new(),
            string_data: None,
        };
        assert(spec@.content =~= Seq::<ContentEntryView>::empty());
        spec
    }
}

/// What the last successful pass left on the resource.
#[derive(Clone, Debug)]
pub struct BitwardenSecretStatus {
    /// Checksum of the generated secret.
    pub checksum: String,
    /// When the secret was last generated.
    pub last_updated: Option<Timestamp>,
}

/// The mathematical value of a `BitwardenSecretStatus`.
pub struct BitwardenSecretStatusView {
    pub checksum: Seq<char>,
    pub last_updated: Option<Timestamp>,
}

impl View for BitwardenSecretStatus {
    type V = BitwardenSecretStatusView;

    open spec fn view(&self) -> BitwardenSecretStatusView {
        BitwardenSecretStatusView { checksum: self.checksum@, last_updated: self.last_updated }
    }
}

impl DeepView for BitwardenSecretStatus {
    type V = BitwardenSecretStatusView;

    open spec fn deep_view(&self) -> BitwardenSecretStatusView {
        self@
    }
}

/// The part of a resource's metadata that the operator reads.
#[derive(Clone, Debug)]
pub struct ObjectMeta {
    /// Name of the resource.
    pub name: Option<String>,
    /// Namespace that holds the resource.
    pub namespace: Option<String>,
}

/// The mathematical value of an `ObjectMeta`.
pub struct ObjectMetaView {
    pub name: Option<Seq<char>>,
    pub namespace: Option<Seq<char>>,
}

impl View for ObjectMeta {
    type V = ObjectMetaView;

    open spec fn view(&self) -> ObjectMetaView {
        ObjectMetaView { name: self.name.deep_view(), namespace: self.namespace.deep_view() }
    }
}

/// A resource that asks for a secret to be generated from vault items.
#[derive(Clone, Debug)]
pub struct BitwardenSecret {
    pub metadata: ObjectMeta,
    pub spec: BitwardenSecretSpec,
    pub status: Option<BitwardenSecretStatus>,
}

/// The mathematical value of a `BitwardenSecret`.
pub struct BitwardenSecretView {
    pub metadata: ObjectMetaView,
    pub spec: BitwardenSecretSpecView,
    pub status: Option<BitwardenSecretStatusView>,
}

impl View for BitwardenSecret {
    type V = BitwardenSecretView;

    open spec fn view(&self) -> BitwardenSecretView {
        BitwardenSecretView {
            metadata: self.metadata@,
            spec: self.spec@,
            status: self.status.deep_view(),
        }
    }
}

/// A reference from a generated secret to the resource that owns it.
#[derive(Clone, Debug)]
pub struct OwnerReference {
    pub api_version: String,
    pub kind: String,
    pub name: String,
    pub uid: String,
    pub controller: Option<bool>,
    pub block_owner_deletion: Option<bool>,
}

/// The mathematical value of an `OwnerReference`.
pub struct OwnerReferenceView {
    pub api_version: Seq<char>,
    pub kind: Seq<char>,
    pub name: Seq<char>,
    pub uid: Seq<char>,
    pub controller: Option<bool>,
    pub block_owner_deletion: Option<bool>,
}

impl View for OwnerReference {
    type V = OwnerReferenceView;

    open spec fn view(&self) -> OwnerReferenceView {
        OwnerReferenceView {
            api_version: self.api_version@,
            kind: self.kind@,
            name: self.name@,
            uid: self.uid@,
            controller: self.controller,
            block_owner_deletion: self.block_owner_deletion,
        }
    }
}

impl DeepView for OwnerReference {
    type V = OwnerReferenceView;

    open spec fn deep_view(&self) -> OwnerReferenceView {
        self@
    }
}

/// A secret as generated from a resource, ready to be written to the cluster.
#[derive(Clone, Debug)]
pub struct MaterializedSecret {
    pub name: String,
    pub namespace: String,
    pub owner_references: Vec<OwnerReference>,
    /// The values selected from the vault, as bytes.
    pub data: StringMap<Vec<u8>>,
    /// The texts that the resource gave to store as they are.
    pub string_data: StringMap<String>,
    pub labels: StringMap<String>,
}

/// The mathematical value of a `MaterializedSecret`.
#[verifier::ext_equal]
pub struct MaterializedSecretView {
    pub name: Seq<char>,
    pub namespace: Seq<char>,
    pub owner_references: Seq<OwnerReferenceView>,
    pub data: Map<Seq<char>, Seq<u8>>,
    pub string_data: Map<Seq<char>, Seq<char>>,
    pub labels: Map<Seq<char>, Seq<char>>,
}

impl View for MaterializedSecret {
    type V = MaterializedSecretView;

    open spec fn view(&self) -> MaterializedSecretView {
        MaterializedSecretView {
            name: self.name@,
            namespace: self.namespace@,
            owner_references: self.owner_references.deep_view(),
            data: self.data@,
            string_data: self.string_data@,
            labels: self.labels@,
        }
    }
}

impl DeepView for MaterializedSecret {
    type V = MaterializedSecretView;

    open spec fn deep_view(&self) -> MaterializedSecretView {
        self@
    }
}

/// Why a secret could not be generated from a resource.
#[derive(Debug, PartialEq, Eq)]
pub enum BitwardenSecretError {
    /// The entry with this key names no vault item and gives no value.
    MissingBitwardenId(String),
    /// The vault item, or the field of an item, with this name was not found.
    BitwardenItemNotFound(String),
    /// The entry that reads this vault item sets this field wrongly.
    WrongValues(String, String),
}

/// The mathematical value of a `BitwardenSecretError`.
pub enum BitwardenSecretErrorView {
    MissingBitwardenId(Seq<char>),
    BitwardenItemNotFound(Seq<char>),
    WrongValues(Seq<char>, Seq<char>),
}

impl View for BitwardenSecretError {
    type V = BitwardenSecretErrorView;

    open spec fn view(&self) -> BitwardenSecretErrorView {
        match self {
            BitwardenSecretError::MissingBitwardenId(key) => {
                BitwardenSecretErrorView::MissingBitwardenId(key@)
            },
            BitwardenSecretError::BitwardenItemNotFound(name) => {
                BitwardenSecretErrorView::BitwardenItemNotFound(name@)
            },
            BitwardenSecretError::WrongValues(id, field) => {
                BitwardenSecretErrorView::WrongValues(id@, field@)
            },
        }
    }
}

/// The text that describes an error.
pub open spec fn error_text(error: BitwardenSecretErrorView) -> Seq<char> {
    match error {
        BitwardenSecretErrorView::MissingBitwardenId(key) => {
            "The given Kubernetes secret key seems misconfigured "@ + key
        },
        BitwardenSecretErrorView::BitwardenItemNotFound(name) => "Bitwarden Item: "@ + name
            + " not found"@,
        BitwardenSecretErrorView::WrongValues(id, field) => "Bitwarden Item: "@ + id
            + ", error on field: "@ + field,
    }
}

impl BitwardenSecretError {
    /// Describes the error in words.
    pub fn message(&self) -> (text: String)
        ensures
            text@ == error_text(self@),
    {
        match self {
            BitwardenSecretError::MissingBitwardenId(key) => {
                let mut text = String::from_str(
                    "The given Kubernetes secret key seems misconfigured ",
                );
                text.append(key.as_str());
                text
            },
            BitwardenSecretError::BitwardenItemNotFound(name) => {
                let mut text = String::from_str("Bitwarden Item: ");
                text.append(name.as_str());
                text.append(" not found");
                text
            },
            BitwardenSecretError::WrongValues(id, field) => {
                let mut text = String::from_str("Bitwarden Item: ");
                text.append(id.as_str());
                text.append(", error on field: ");
                text.append(field.as_str());
                text
            },
        }
    }
}

impl DeepView for BitwardenSecretError {
    type V = BitwardenSecretErrorView;

    open spec fn deep_view(&self) -> BitwardenSecretErrorView {
        self@
    }
}

} // verus!
