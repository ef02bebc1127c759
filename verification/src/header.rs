//! The decoded header and its mathematical model.

use vstd::prelude::*;

verus! {

/// The magic number that opens every QCOW2 image: the bytes `Q`, `F`, `I`, `0xfb`.
pub const QCOW2_MAGIC: u32 = 0x514649fb;

/// Size in bytes of the header fields that versions 2 and 3 share.
pub const COMMON_HEADER_LEN: u32 = 72;

/// Size in bytes of the fixed fields of a version 3 header.
pub const V3_HEADER_LEN: u32 = 104;

/// The header fields common to versions 2 and 3.
#[derive(Debug, Clone, Copy, PartialEq, Eq, Structural)]
pub struct Qcow2Header {
    pub magic: u32,
    pub version: u32,
    pub backing_file_offset: u64,
    pub backing_file_size: u32,
    pub cluster_bits: u32,
    pub size: u64,
    pub crypt_method: u32,
    pub l1_size: u32,
    pub l1_table_offset: u64,
    pub refcount_table_offset: u64,
    pub refcount_table_clusters: u32,
    pub nb_snapshots: u32,
    pub snapshots_offset: u64,
}

/// The fields that version 3 adds to the common header.
#[derive(Debug, Clone, Copy, PartialEq, Eq, Structural)]
pub struct Qcow2V3Header {
    pub incompatible_features: u64,
    pub compatible_features: u64,
    pub autoclear_features: u64,
    pub refcount_order: u32,
    pub header_length: u32,
    /// Present exactly when the header is longer than its fixed fields.
    pub compression_type: Option<u8>,
}

/// One header extension record: a type, the length of its payload, and the
/// payload itself, kept as opaque bytes.
#[derive(Debug, Clone, PartialEq, Eq)]
pub struct Qcow2HeaderExtension {
    pub extension_type: u32,
    pub length: u32,
    pub data: Vec<u8>,
}

/// Everything decoded from the header of one image.
#[derive(Debug, Clone, PartialEq, Eq)]
pub struct Qcow2Metadata {
    pub header: Qcow2Header,
    pub v3_header: Option<Qcow2V3Header>,
    pub extensions: Option<Vec<Qcow2HeaderExtension>>,
}

/// Model of a [`Qcow2HeaderExtension`]: the payload is a sequence of bytes.
pub struct ExtensionModel {
    pub extension_type: u32,
    pub length: u32,
    pub data: Seq<u8>,
}

/// Model of a [`Qcow2Metadata`].
pub struct MetadataModel {
    pub header: Qcow2Header,
    pub v3_header: Option<Qcow2V3Header>,
    pub extensions: Option<Seq<ExtensionModel>>,
}

impl View for Qcow2HeaderExtension {
    type V = ExtensionModel;

    open spec fn view(&self) -> ExtensionModel {
        ExtensionModel {
            extension_type: self.extension_type,
            length: self.length,
            data: self.data@,
        }
    }
}

/// The models of the records of `records`, in order.
pub open spec fn extension_models(records: Seq<Qcow2HeaderExtension>) -> Seq<ExtensionModel> {
    Seq::new(records.len(), |i: int| records[i]@)
}

impl View for Qcow2Metadata {
    type V = MetadataModel;

    open spec fn view(&self) -> MetadataModel {
        MetadataModel {
            header: self.header,
            v3_header: self.v3_header,
            extensions: match self.extensions {
                Some(records) => Some(extension_models(records@)),
                None => None,
            },
        }
    }
}

impl MetadataModel {
    /// The header length that the image declares: the field of that name in
    /// version 3, and the size of the common header otherwise.
    pub open spec fn declared_header_length(self) -> int {
        match self.v3_header {
            Some(v3) => v3.header_length as int,
            None => COMMON_HEADER_LEN as int,
        }
    }

    /// Structural well-formedness: the magic number is right, the version
    /// is 2 or 3, the version 3 fields and the extension list are present
    /// exactly in version 3, the declared length covers the fixed fields, the
    /// compression type is present exactly when the header is longer than
    /// them, and every record has a type other than 0 and holds as many
    /// payload bytes as it declares.
    pub open spec fn wf(self) -> bool {
        &&& self.header.magic == QCOW2_MAGIC
        &&& self.header.version == 2 || self.header.version == 3
        &&& self.v3_header.is_some() <==> self.header.version == 3
        &&& self.extensions.is_some() <==> self.header.version == 3
        &&& self.v3_header matches Some(v3) ==> {
            &&& v3.header_length >= V3_HEADER_LEN
            &&& v3.compression_type.is_some() <==> v3.header_length > V3_HEADER_LEN
        }
        &&& self.extensions matches Some(records) ==> forall|i: int|
            0 <= i < records.len() ==> {
                &&& (#[trigger] records[i]).data.len() == records[i].length
                &&& records[i].extension_type != 0
            }
    }
}

} // verus!
