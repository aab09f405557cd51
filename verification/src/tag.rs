use vstd::prelude::*;

use crate::str_eq;

verus! {

/// A tag read from the superblocks chain of a probed device.
///
/// The names mirror the native library's result names for that chain.
#[derive(Clone, Copy, Debug, Eq, PartialEq, Structural)]
pub enum SuperblockTag {
    /// Filesystem type
    Type,
    /// Secondary filesystem type
    SecType,
    /// Filesystem label
    Label,
    /// Raw label from FS superblock
    LabelRaw,
    /// Filesystem UUID (lower case)
    Uuid,
    /// Subvolume uuid (e.g. btrfs)
    UuidSub,
    /// External log UUID (e.g. xfs)
    Loguuid,
    /// Raw UUID from FS superblock
    UuidRaw,
    /// External journal UUID
    ExtJournal,
    /// Usage string: "raid", "filesystem", ...
    Usage,
    /// Filesystem version
    Version,
    /// Cluster mount name -- ocfs only
    Mount,
    /// Super block magic string
    Sbmagic,
    /// Offset of SBMAGIC
    SbmagicOffset,
    /// Size of filesystem
    Fssize,
    /// ISO9660 system identifier
    SystemId,
    /// ISO9660 publisher identifier
    PublisherId,
    /// ISO9660 application identifier
    ApplicationId,
    /// ISO9660 boot system identifier
    BootSystemId,
    /// Block size
    BlockSize,
}

impl SuperblockTag {
    /// The result name of this tag, as the native library writes it.
    pub open spec fn spec_name(self) -> Seq<char> {
        match self {
            SuperblockTag::Type => "TYPE"@,
            SuperblockTag::SecType => "SEC_TYPE"@,
            SuperblockTag::Label => "LABEL"@,
            SuperblockTag::LabelRaw => "LABEL_RAW"@,
            SuperblockTag::Uuid => "UUID"@,
            SuperblockTag::UuidSub => "UUID_SUB"@,
            SuperblockTag::Loguuid => "LOGUUID"@,
            SuperblockTag::UuidRaw => "UUID_RAW"@,
            SuperblockTag::ExtJournal => "EXT_JOURNAL"@,
            SuperblockTag::Usage => "USAGE"@,
            SuperblockTag::Version => "VERSION"@,
            SuperblockTag::Mount => "MOUNT"@,
            SuperblockTag::Sbmagic => "SBMAGIC"@,
            SuperblockTag::SbmagicOffset => "SBMAGIC_OFFSET"@,
            SuperblockTag::Fssize => "FSSIZE"@,
            SuperblockTag::SystemId => "SYSTEM_ID"@,
            SuperblockTag::PublisherId => "PUBLISHER_ID"@,
            SuperblockTag::ApplicationId => "APPLICATION_ID"@,
            SuperblockTag::BootSystemId => "BOOT_SYSTEM_ID"@,
            SuperblockTag::BlockSize => "BLOCK_SIZE"@,
        }
    }

    /// Which superblock tag a result name denotes, if any.
    pub open spec fn spec_from_name(name: Seq<char>) -> Option<SuperblockTag> {
        if name == "TYPE"@ {
            Some(SuperblockTag::Type)
        } else if name == "SEC_TYPE"@ {
            Some(SuperblockTag::SecType)
        } else if name == "LABEL"@ {
            Some(SuperblockTag::Label)
        } else if name == "LABEL_RAW"@ {
            Some(SuperblockTag::LabelRaw)
        } else if name == "UUID"@ {
            Some(SuperblockTag::Uuid)
        } else if name == "UUID_SUB"@ {
            Some(SuperblockTag::UuidSub)
        } else if name == "LOGUUID"@ {
            Some(SuperblockTag::Loguuid)
        } else if name == "UUID_RAW"@ {
            Some(SuperblockTag::UuidRaw)
        } else if name == "EXT_JOURNAL"@ {
            Some(SuperblockTag::ExtJournal)
        } else if name == "USAGE"@ {
            Some(SuperblockTag::Usage)
        } else if name == "VERSION"@ {
            Some(SuperblockTag::Version)
        } else if name == "MOUNT"@ {
            Some(SuperblockTag::Mount)
        } else if name == "SBMAGIC"@ {
            Some(SuperblockTag::Sbmagic)
        } else if name == "SBMAGIC_OFFSET"@ {
            Some(SuperblockTag::SbmagicOffset)
        } else if name == "FSSIZE"@ {
            Some(SuperblockTag::Fssize)
        } else if name == "SYSTEM_ID"@ {
            Some(SuperblockTag::SystemId)
        } else if name == "PUBLISHER_ID"@ {
            Some(SuperblockTag::PublisherId)
        } else if name == "APPLICATION_ID"@ {
            Some(SuperblockTag::ApplicationId)
        } else if name == "BOOT_SYSTEM_ID"@ {
            Some(SuperblockTag::BootSystemId)
        } else if name == "BLOCK_SIZE"@ {
            Some(SuperblockTag::BlockSize)
        } else {
            None
        }
    }

    /// Translates a result name into a superblock tag, if it denotes one.
    pub fn from_str(name: &str) -> (r: Option<SuperblockTag>)
        ensures
            r == SuperblockTag::spec_from_name(name@),
    {
        if str_eq(name, "TYPE") {
            Some(SuperblockTag::Type)
        } else if str_eq(name, "SEC_TYPE") {
            Some(SuperblockTag::SecType)
        } else if str_eq(name, "LABEL") {
            Some(SuperblockTag::Label)
        } else if str_eq(name, "LABEL_RAW") {
            Some(SuperblockTag::LabelRaw)
        } else if str_eq(name, "UUID") {
            Some(SuperblockTag::Uuid)
        } else if str_eq(name, "UUID_SUB") {
            Some(SuperblockTag::UuidSub)
        } else if str_eq(name, "LOGUUID") {
            Some(SuperblockTag::Loguuid)
        } else if str_eq(name, "UUID_RAW") {
            Some(SuperblockTag::UuidRaw)
        } else if str_eq(name, "EXT_JOURNAL") {
            Some(SuperblockTag::ExtJournal)
        } else if str_eq(name, "USAGE") {
            Some(SuperblockTag::Usage)
        } else if str_eq(name, "VERSION") {
            Some(SuperblockTag::Version)
        } else if str_eq(name, "MOUNT") {
            Some(SuperblockTag::Mount)
        } else if str_eq(name, "SBMAGIC") {
            Some(SuperblockTag::Sbmagic)
        } else if str_eq(name, "SBMAGIC_OFFSET") {
            Some(SuperblockTag::SbmagicOffset)
        } else if str_eq(name, "FSSIZE") {
            Some(SuperblockTag::Fssize)
        } else if str_eq(name, "SYSTEM_ID") {
            Some(SuperblockTag::SystemId)
        } else if str_eq(name, "PUBLISHER_ID") {
            Some(SuperblockTag::PublisherId)
        } else if str_eq(name, "APPLICATION_ID") {
            Some(SuperblockTag::ApplicationId)
        } else if str_eq(name, "BOOT_SYSTEM_ID") {
            Some(SuperblockTag::BootSystemId)
        } else if str_eq(name, "BLOCK_SIZE") {
            Some(SuperblockTag::BlockSize)
        } else {
            None
        }
    }

    /// The result name of this tag, as a borrowed string.
    pub fn as_str(&self) -> (r: &'static str)
        ensures
            r@ == self.spec_name(),
    {
        match self {
            SuperblockTag::Type => "TYPE",
            SuperblockTag::SecType => "SEC_TYPE",
            SuperblockTag::Label => "LABEL",
            SuperblockTag::LabelRaw => "LABEL_RAW",
            SuperblockTag::Uuid => "UUID",
            SuperblockTag::UuidSub => "UUID_SUB",
            SuperblockTag::Loguuid => "LOGUUID",
            SuperblockTag::UuidRaw => "UUID_RAW",
            SuperblockTag::ExtJournal => "EXT_JOURNAL",
            SuperblockTag::Usage => "USAGE",
            SuperblockTag::Version => "VERSION",
            SuperblockTag::Mount => "MOUNT",
            SuperblockTag::Sbmagic => "SBMAGIC",
            SuperblockTag::SbmagicOffset => "SBMAGIC_OFFSET",
            SuperblockTag::Fssize => "FSSIZE",
            SuperblockTag::SystemId => "SYSTEM_ID",
            SuperblockTag::PublisherId => "PUBLISHER_ID",
            SuperblockTag::ApplicationId => "APPLICATION_ID",
            SuperblockTag::BootSystemId => "BOOT_SYSTEM_ID",
            SuperblockTag::BlockSize => "BLOCK_SIZE",
        }
    }
}

/// A tag read from the partitions chain of a probed device.
#[derive(Clone, Copy, Debug, Eq, PartialEq, Structural)]
pub enum PartitionTag {
    /// Partition table type (dos, gpt, etc.)
    Pttype,
    /// Partition table id (uuid for gpt, hex for dos)
    Ptuuid,
    /// Partition table type
    PartEntrySchema,
    /// Partition name (gpt and mac only)
    PartEntryName,
    /// Partition UUID (gpt, or pseudo IDs for MBR)
    PartEntryUuid,
    /// Partition type, 0xNN (e.g. 0x82) or type UUID (gpt only) or type string (mac)
    PartEntryType,
    /// Partition flags (e.g. boot_ind) or attributes (e.g. gpt attributes)
    PartEntryFlags,
    /// Partition number
    PartEntryNumber,
    /// The begin of the partition
    PartEntryOffset,
    /// Size of the partition
    PartEntrySize,
    /// Whole-disk maj:min
    PartEntryDisk,
}

impl PartitionTag {
    /// The result name of this tag, as the native library writes it.
    pub open spec fn spec_name(self) -> Seq<char> {
        match self {
            PartitionTag::Pttype => "PTTYPE"@,
            PartitionTag::Ptuuid => "PTUUID"@,
            PartitionTag::PartEntrySchema => "PART_ENTRY_SCHEMA"@,
            PartitionTag::PartEntryName => "PART_ENTRY_NAME"@,
            PartitionTag::PartEntryUuid => "PART_ENTRY_UUID"@,
            PartitionTag::PartEntryType => "PART_ENTRY_TYPE"@,
            PartitionTag::PartEntryFlags => "PART_ENTRY_FLAGS"@,
            PartitionTag::PartEntryNumber => "PART_ENTRY_NUMBER"@,
            PartitionTag::PartEntryOffset => "PART_ENTRY_OFFSET"@,
            PartitionTag::PartEntrySize => "PART_ENTRY_SIZE"@,
            PartitionTag::PartEntryDisk => "PART_ENTRY_DISK"@,
        }
    }

    /// Which partition tag a result name denotes, if any.
    pub open spec fn spec_from_name(name: Seq<char>) -> Option<PartitionTag> {
        if name == "PTTYPE"@ {
            Some(PartitionTag::Pttype)
        } else if name == "PTUUID"@ {
            Some(PartitionTag::Ptuuid)
        } else if name == "PART_ENTRY_SCHEMA"@ {
            Some(PartitionTag::PartEntrySchema)
        } else if name == "PART_ENTRY_NAME"@ {
            Some(PartitionTag::PartEntryName)
        } else if name == "PART_ENTRY_UUID"@ {
            Some(PartitionTag::PartEntryUuid)
        } else if name == "PART_ENTRY_TYPE"@ {
            Some(PartitionTag::PartEntryType)
        } else if name == "PART_ENTRY_FLAGS"@ {
            Some(PartitionTag::PartEntryFlags)
        } else if name == "PART_ENTRY_NUMBER"@ {
            Some(PartitionTag::PartEntryNumber)
        } else if name == "PART_ENTRY_OFFSET"@ {
            Some(PartitionTag::PartEntryOffset)
        } else if name == "PART_ENTRY_SIZE"@ {
            Some(PartitionTag::PartEntrySize)
        } else if name == "PART_ENTRY_DISK"@ {
            Some(PartitionTag::PartEntryDisk)
        } else {
            None
        }
    }

    /// Translates a result name into a partition tag, if it denotes one.
    pub fn from_str(name: &str) -> (r: Option<PartitionTag>)
        ensures
            r == PartitionTag::spec_from_name(name@),
    {
        if str_eq(name, "PTTYPE") {
            Some(PartitionTag::Pttype)
        } else if str_eq(name, "PTUUID") {
            Some(PartitionTag::Ptuuid)
        } else if str_eq(name, "PART_ENTRY_SCHEMA") {
            Some(PartitionTag::PartEntrySchema)
        } else if str_eq(name, "PART_ENTRY_NAME") {
            Some(PartitionTag::PartEntryName)
        } else if str_eq(name, "PART_ENTRY_UUID") {
            Some(PartitionTag::PartEntryUuid)
        } else if str_eq(name, "PART_ENTRY_TYPE") {
            Some(PartitionTag::PartEntryType)
        } else if str_eq(name, "PART_ENTRY_FLAGS") {
            Some(PartitionTag::PartEntryFlags)
        } else if str_eq(name, "PART_ENTRY_NUMBER") {
            Some(PartitionTag::PartEntryNumber)
        } else if str_eq(name, "PART_ENTRY_OFFSET") {
            Some(PartitionTag::PartEntryOffset)
        } else if str_eq(name, "PART_ENTRY_SIZE") {
            Some(PartitionTag::PartEntrySize)
        } else if str_eq(name, "PART_ENTRY_DISK") {
            Some(PartitionTag::PartEntryDisk)
        } else {
            None
        }
    }

    /// The result name of this tag, as a borrowed string.
    pub fn as_str(&self) -> (r: &'static str)
        ensures
            r@ == self.spec_name(),
    {
        match self {
            PartitionTag::Pttype => "PTTYPE",
            PartitionTag::Ptuuid => "PTUUID",
            PartitionTag::PartEntrySchema => "PART_ENTRY_SCHEMA",
            PartitionTag::PartEntryName => "PART_ENTRY_NAME",
            PartitionTag::PartEntryUuid => "PART_ENTRY_UUID",
            PartitionTag::PartEntryType => "PART_ENTRY_TYPE",
            PartitionTag::PartEntryFlags => "PART_ENTRY_FLAGS",
            PartitionTag::PartEntryNumber => "PART_ENTRY_NUMBER",
            PartitionTag::PartEntryOffset => "PART_ENTRY_OFFSET",
            PartitionTag::PartEntrySize => "PART_ENTRY_SIZE",
            PartitionTag::PartEntryDisk => "PART_ENTRY_DISK",
        }
    }
}

/// A tag read from the topology chain of a probed device.
#[derive(Clone, Copy, Debug, Eq, PartialEq, Structural)]
pub enum TopologyTag {
    /// The smallest unit the storage device can address. It is typically 512 bytes
    LogicalSectorSize,
    /// The smallest unit a physical storage device can write atomically. It is usually the same as
    /// the logical sector size but may be bigger.
    PhysicalSectorSize,
    /// Minimum size which is the device's preferred unit of I/O. For RAID arrays it is often the
    /// stripe chunk size
    MinimumIoSize,
    /// Usually the stripe width for RAID or zero. For RAID arrays it is usually the stripe width
    /// or the internal track size
    OptiomalIoSize,
    /// Indicates how many bytes the beginning of the device is offset from the disk's natural
    /// alignment
    AlignmentOffset,
}

impl TopologyTag {
    /// The result name of this tag, as the native library writes it.
    pub open spec fn spec_name(self) -> Seq<char> {
        match self {
            TopologyTag::LogicalSectorSize => "LOGICAL_SECTOR_SIZE"@,
            TopologyTag::PhysicalSectorSize => "PHYSICAL_SECTOR_SIZE"@,
            TopologyTag::MinimumIoSize => "MINIMUM_IO_SIZE"@,
            TopologyTag::OptiomalIoSize => "OPTIOMAL_IO_SIZE"@,
            TopologyTag::AlignmentOffset => "ALIGNMENT_OFFSET"@,
        }
    }

    /// Which topology tag a result name denotes, if any.
    pub open spec fn spec_from_name(name: Seq<char>) -> Option<TopologyTag> {
        if name == "LOGICAL_SECTOR_SIZE"@ {
            Some(TopologyTag::LogicalSectorSize)
        } else if name == "PHYSICAL_SECTOR_SIZE"@ {
            Some(TopologyTag::PhysicalSectorSize)
        } else if name == "MINIMUM_IO_SIZE"@ {
            Some(TopologyTag::MinimumIoSize)
        } else if name == "OPTIOMAL_IO_SIZE"@ {
            Some(TopologyTag::OptiomalIoSize)
        } else if name == "ALIGNMENT_OFFSET"@ {
            Some(TopologyTag::AlignmentOffset)
        } else {
            None
        }
    }

    /// Translates a result name into a topology tag, if it denotes one.
    pub fn from_str(name: &str) -> (r: Option<TopologyTag>)
        ensures
            r == TopologyTag::spec_from_name(name@),
    {
        if str_eq(name, "LOGICAL_SECTOR_SIZE") {
            Some(TopologyTag::LogicalSectorSize)
        } else if str_eq(name, "PHYSICAL_SECTOR_SIZE") {
            Some(TopologyTag::PhysicalSectorSize)
        } else if str_eq(name, "MINIMUM_IO_SIZE") {
            Some(TopologyTag::MinimumIoSize)
        } else if str_eq(name, "OPTIOMAL_IO_SIZE") {
            Some(TopologyTag::OptiomalIoSize)
        } else if str_eq(name, "ALIGNMENT_OFFSET") {
            Some(TopologyTag::AlignmentOffset)
        } else {
            None
        }
    }

    /// The result name of this tag, as a borrowed string.
    pub fn as_str(&self) -> (r: &'static str)
        ensures
            r@ == self.spec_name(),
    {
        match self {
            TopologyTag::LogicalSectorSize => "LOGICAL_SECTOR_SIZE",
            TopologyTag::PhysicalSectorSize => "PHYSICAL_SECTOR_SIZE",
            TopologyTag::MinimumIoSize => "MINIMUM_IO_SIZE",
            TopologyTag::OptiomalIoSize => "OPTIOMAL_IO_SIZE",
            TopologyTag::AlignmentOffset => "ALIGNMENT_OFFSET",
        }
    }
}

/// Translating the name of a superblock tag gives that tag back: the
/// name/parse pair is a round trip on every variant.
pub proof fn lemma_superblock_tag_name_round_trip(t: SuperblockTag)
    ensures
        SuperblockTag::spec_from_name(t.spec_name()) == Some(t),
{
    lemma_superblock_names();
    match t {
        SuperblockTag::Type => {
            assert(SuperblockTag::spec_from_name("TYPE"@) == Some(t));
        },
        SuperblockTag::SecType => {
            assert(SuperblockTag::spec_from_name("SEC_TYPE"@) == Some(t));
        },
        SuperblockTag::Label => {
            assert(SuperblockTag::spec_from_name("LABEL"@) == Some(t));
        },
        SuperblockTag::LabelRaw => {
            assert(SuperblockTag::spec_from_name("LABEL_RAW"@) == Some(t));
        },
        SuperblockTag::Uuid => {
            assert(SuperblockTag::spec_from_name("UUID"@) == Some(t));
        },
        SuperblockTag::UuidSub => {
            assert(SuperblockTag::spec_from_name("UUID_SUB"@) == Some(t));
        },
        SuperblockTag::Loguuid => {
            assert(SuperblockTag::spec_from_name("LOGUUID"@) == Some(t));
        },
        SuperblockTag::UuidRaw => {
            assert(SuperblockTag::spec_from_name("UUID_RAW"@) == Some(t));
        },
        SuperblockTag::ExtJournal => {
            assert(SuperblockTag::spec_from_name("EXT_JOURNAL"@) == Some(t));
        },
        SuperblockTag::Usage => {
            assert(SuperblockTag::spec_from_name("USAGE"@) == Some(t));
        },
        SuperblockTag::Version => {
            assert(SuperblockTag::spec_from_name("VERSION"@) == Some(t));
        },
        SuperblockTag::Mount => {
            assert(SuperblockTag::spec_from_name("MOUNT"@) == Some(t));
        },
        SuperblockTag::Sbmagic => {
            assert(SuperblockTag::spec_from_name("SBMAGIC"@) == Some(t));
        },
        SuperblockTag::SbmagicOffset => {
            assert(SuperblockTag::spec_from_name("SBMAGIC_OFFSET"@) == Some(t));
        },
        SuperblockTag::Fssize => {
            assert(SuperblockTag::spec_from_name("FSSIZE"@) == Some(t));
        },
        SuperblockTag::SystemId => {
            assert(SuperblockTag::spec_from_name("SYSTEM_ID"@) == Some(t));
        },
        SuperblockTag::PublisherId => {
            assert(SuperblockTag::spec_from_name("PUBLISHER_ID"@) == Some(t));
        },
        SuperblockTag::ApplicationId => {
            assert(SuperblockTag::spec_from_name("APPLICATION_ID"@) == Some(t));
        },
        SuperblockTag::BootSystemId => {
            assert(SuperblockTag::spec_from_name("BOOT_SYSTEM_ID"@) == Some(t));
        },
        SuperblockTag::BlockSize => {
            assert(SuperblockTag::spec_from_name("BLOCK_SIZE"@) == Some(t));
        },
    }
}

/// Reveals the superblock result names and what tells the equally long ones
/// apart.
proof fn lemma_superblock_names()
    ensures
        "TYPE"@.len() == 4,
        "SEC_TYPE"@.len() == 8,
        "LABEL"@.len() == 5,
        "LABEL_RAW"@.len() == 9,
        "UUID"@.len() == 4,
        "UUID_SUB"@.len() == 8,
        "LOGUUID"@.len() == 7,
        "UUID_RAW"@.len() == 8,
        "EXT_JOURNAL"@.len() == 11,
        "USAGE"@.len() == 5,
        "VERSION"@.len() == 7,
        "MOUNT"@.len() == 5,
        "SBMAGIC"@.len() == 7,
        "SBMAGIC_OFFSET"@.len() == 14,
        "FSSIZE"@.len() == 6,
        "SYSTEM_ID"@.len() == 9,
        "PUBLISHER_ID"@.len() == 12,
        "APPLICATION_ID"@.len() == 14,
        "BOOT_SYSTEM_ID"@.len() == 14,
        "BLOCK_SIZE"@.len() == 10,
        "TYPE"@[0] == 'T',
        "UUID"@[0] == 'U',
        "SEC_TYPE"@[0] == 'S',
        "UUID_SUB"@[0] == 'U',
        "UUID_RAW"@[0] == 'U',
        "UUID_SUB"@[5] == 'S',
        "UUID_RAW"@[5] == 'R',
        "LABEL"@[0] == 'L',
        "USAGE"@[0] == 'U',
        "MOUNT"@[0] == 'M',
        "LABEL_RAW"@[0] == 'L',
        "SYSTEM_ID"@[0] == 'S',
        "LOGUUID"@[0] == 'L',
        "VERSION"@[0] == 'V',
        "SBMAGIC"@[0] == 'S',
        "SBMAGIC_OFFSET"@[0] == 'S',
        "APPLICATION_ID"@[0] == 'A',
        "BOOT_SYSTEM_ID"@[0] == 'B',
{
    reveal_strlit("TYPE");
    reveal_strlit("SEC_TYPE");
    reveal_strlit("LABEL");
    reveal_strlit("LABEL_RAW");
    reveal_strlit("UUID");
    reveal_strlit("UUID_SUB");
    reveal_strlit("LOGUUID");
    reveal_strlit("UUID_RAW");
    reveal_strlit("EXT_JOURNAL");
    reveal_strlit("USAGE");
    reveal_strlit("VERSION");
    reveal_strlit("MOUNT");
    reveal_strlit("SBMAGIC");
    reveal_strlit("SBMAGIC_OFFSET");
    reveal_strlit("FSSIZE");
    reveal_strlit("SYSTEM_ID");
    reveal_strlit("PUBLISHER_ID");
    reveal_strlit("APPLICATION_ID");
    reveal_strlit("BOOT_SYSTEM_ID");
    reveal_strlit("BLOCK_SIZE");
}

/// Translating the name of a partition tag gives that tag back: the
/// name/parse pair is a round trip on every variant.
pub proof fn lemma_partition_tag_name_round_trip(t: PartitionTag)
    ensures
        PartitionTag::spec_from_name(t.spec_name()) == Some(t),
{
    lemma_partition_names();
    match t {
        PartitionTag::Pttype => {
            assert(PartitionTag::spec_from_name("PTTYPE"@) == Some(t));
        },
        PartitionTag::Ptuuid => {
            assert(PartitionTag::spec_from_name("PTUUID"@) == Some(t));
        },
        PartitionTag::PartEntrySchema => {
            assert(PartitionTag::spec_from_name("PART_ENTRY_SCHEMA"@) == Some(t));
        },
        PartitionTag::PartEntryName => {
            assert(PartitionTag::spec_from_name("PART_ENTRY_NAME"@) == Some(t));
        },
        PartitionTag::PartEntryUuid => {
            assert(PartitionTag::spec_from_name("PART_ENTRY_UUID"@) == Some(t));
        },
        PartitionTag::PartEntryType => {
            assert(PartitionTag::spec_from_name("PART_ENTRY_TYPE"@) == Some(t));
        },
        PartitionTag::PartEntryFlags => {
            assert(PartitionTag::spec_from_name("PART_ENTRY_FLAGS"@) == Some(t));
        },
        PartitionTag::PartEntryNumber => {
            assert(PartitionTag::spec_from_name("PART_ENTRY_NUMBER"@) == Some(t));
        },
        PartitionTag::PartEntryOffset => {
            assert(PartitionTag::spec_from_name("PART_ENTRY_OFFSET"@) == Some(t));
        },
        PartitionTag::PartEntrySize => {
            assert(PartitionTag::spec_from_name("PART_ENTRY_SIZE"@) == Some(t));
        },
        PartitionTag::PartEntryDisk => {
            assert(PartitionTag::spec_from_name("PART_ENTRY_DISK"@) == Some(t));
        },
    }
}

/// Reveals the partition result names and what tells the equally long ones
/// apart.
proof fn lemma_partition_names()
    ensures
        "PTTYPE"@.len() == 6,
        "PTUUID"@.len() == 6,
        "PART_ENTRY_SCHEMA"@.len() == 17,
        "PART_ENTRY_NAME"@.len() == 15,
        "PART_ENTRY_UUID"@.len() == 15,
        "PART_ENTRY_TYPE"@.len() == 15,
        "PART_ENTRY_FLAGS"@.len() == 16,
        "PART_ENTRY_NUMBER"@.len() == 17,
        "PART_ENTRY_OFFSET"@.len() == 17,
        "PART_ENTRY_SIZE"@.len() == 15,
        "PART_ENTRY_DISK"@.len() == 15,
        "PTTYPE"@[2] == 'T',
        "PTUUID"@[2] == 'U',
        "PART_ENTRY_NAME"@[11] == 'N',
        "PART_ENTRY_UUID"@[11] == 'U',
        "PART_ENTRY_TYPE"@[11] == 'T',
        "PART_ENTRY_SIZE"@[11] == 'S',
        "PART_ENTRY_DISK"@[11] == 'D',
        "PART_ENTRY_SCHEMA"@[11] == 'S',
        "PART_ENTRY_NUMBER"@[11] == 'N',
        "PART_ENTRY_OFFSET"@[11] == 'O',
{
    reveal_strlit("PTTYPE");
    reveal_strlit("PTUUID");
    reveal_strlit("PART_ENTRY_SCHEMA");
    reveal_strlit("PART_ENTRY_NAME");
    reveal_strlit("PART_ENTRY_UUID");
    reveal_strlit("PART_ENTRY_TYPE");
    reveal_strlit("PART_ENTRY_FLAGS");
    reveal_strlit("PART_ENTRY_NUMBER");
    reveal_strlit("PART_ENTRY_OFFSET");
    reveal_strlit("PART_ENTRY_SIZE");
    reveal_strlit("PART_ENTRY_DISK");
}

/// Translating the name of a topology tag gives that tag back: the
/// name/parse pair is a round trip on every variant.
pub proof fn lemma_topology_tag_name_round_trip(t: TopologyTag)
    ensures
        TopologyTag::spec_from_name(t.spec_name()) == Some(t),
{
    lemma_topology_names();
    match t {
        TopologyTag::LogicalSectorSize => {
            assert(TopologyTag::spec_from_name("LOGICAL_SECTOR_SIZE"@) == Some(t));
        },
        TopologyTag::PhysicalSectorSize => {
            assert(TopologyTag::spec_from_name("PHYSICAL_SECTOR_SIZE"@) == Some(t));
        },
        TopologyTag::MinimumIoSize => {
            assert(TopologyTag::spec_from_name("MINIMUM_IO_SIZE"@) == Some(t));
        },
        TopologyTag::OptiomalIoSize => {
            assert(TopologyTag::spec_from_name("OPTIOMAL_IO_SIZE"@) == Some(t));
        },
        TopologyTag::AlignmentOffset => {
            assert(TopologyTag::spec_from_name("ALIGNMENT_OFFSET"@) == Some(t));
        },
    }
}

/// Reveals the topology result names and what tells the equally long ones
/// apart.
proof fn lemma_topology_names()
    ensures
        "LOGICAL_SECTOR_SIZE"@.len() == 19,
        "PHYSICAL_SECTOR_SIZE"@.len() == 20,
        "MINIMUM_IO_SIZE"@.len() == 15,
        "OPTIOMAL_IO_SIZE"@.len() == 16,
        "ALIGNMENT_OFFSET"@.len() == 16,
        "OPTIOMAL_IO_SIZE"@[0] == 'O',
        "ALIGNMENT_OFFSET"@[0] == 'A',
        "MINIMUM_IO_SIZE"@[0] == 'M',
        "PART_ENTRY_FLAGS"@[0] == 'P',
        "PART_ENTRY_NAME"@[0] == 'P',
        "PART_ENTRY_UUID"@[0] == 'P',
        "PART_ENTRY_TYPE"@[0] == 'P',
        "PART_ENTRY_SIZE"@[0] == 'P',
        "PART_ENTRY_DISK"@[0] == 'P',
        "FSSIZE"@[0] == 'F',
        "PTTYPE"@[0] == 'P',
        "PTUUID"@[0] == 'P',
{
    reveal_strlit("LOGICAL_SECTOR_SIZE");
    reveal_strlit("PHYSICAL_SECTOR_SIZE");
    reveal_strlit("MINIMUM_IO_SIZE");
    reveal_strlit("OPTIOMAL_IO_SIZE");
    reveal_strlit("ALIGNMENT_OFFSET");
    reveal_strlit("PART_ENTRY_FLAGS");
    reveal_strlit("PART_ENTRY_NAME");
    reveal_strlit("PART_ENTRY_UUID");
    reveal_strlit("PART_ENTRY_TYPE");
    reveal_strlit("PART_ENTRY_SIZE");
    reveal_strlit("PART_ENTRY_DISK");
    reveal_strlit("FSSIZE");
    reveal_strlit("PTTYPE");
    reveal_strlit("PTUUID");
}

/// A result name belongs to at most one tag family: a name recognised as a
/// superblock tag is recognised by neither of the other families, and a name
/// recognised as a partition tag is no topology tag.
pub proof fn lemma_tag_families_disjoint(name: Seq<char>)
    ensures
        SuperblockTag::spec_from_name(name) is Some ==> PartitionTag::spec_from_name(name)
            is None,
        SuperblockTag::spec_from_name(name) is Some ==> TopologyTag::spec_from_name(name)
            is None,
        PartitionTag::spec_from_name(name) is Some ==> TopologyTag::spec_from_name(name) is None,
{
    lemma_superblock_names();
    lemma_partition_names();
    lemma_topology_names();
}

/// The unified form of tag types: a recognised name of the superblocks,
/// partitions or topology chain, or any other name kept verbatim.
#[derive(Debug, Eq, PartialEq)]
pub enum TagType {
    Superblock(SuperblockTag),
    Partition(PartitionTag),
    Topoligy(TopologyTag),
    Unknown(String),
}

impl Clone for TagType {
    fn clone(&self) -> (r: Self)
        ensures
            r == self,
    {
        match self {
            TagType::Superblock(t) => TagType::Superblock(*t),
            TagType::Partition(t) => TagType::Partition(*t),
            TagType::Topoligy(t) => TagType::Topoligy(*t),
            TagType::Unknown(s) => TagType::Unknown(s.clone()),
        }
    }
}

impl TagType {
    /// The name this tag type stands for; an unknown tag keeps the name it
    /// was made from.
    pub open spec fn spec_name(self) -> Seq<char> {
        match self {
            TagType::Superblock(t) => t.spec_name(),
            TagType::Partition(t) => t.spec_name(),
            TagType::Topoligy(t) => t.spec_name(),
            TagType::Unknown(s) => s@,
        }
    }

    /// Which known tag type a result name denotes, if any: the superblock
    /// names are tried first, then the partition names, then the topology
    /// names, as the classification does.
    pub open spec fn spec_known_from_name(name: Seq<char>) -> Option<TagType> {
        match SuperblockTag::spec_from_name(name) {
            Some(t) => Some(TagType::Superblock(t)),
            None => match PartitionTag::spec_from_name(name) {
                Some(t) => Some(TagType::Partition(t)),
                None => match TopologyTag::spec_from_name(name) {
                    Some(t) => Some(TagType::Topoligy(t)),
                    None => None,
                },
            },
        }
    }

    /// Classifies a result name: a known name becomes its variant, any other
    /// name is kept verbatim under `Unknown`. Total by construction.
    pub fn from_name(name: &str) -> (r: TagType)
        ensures
            match TagType::spec_known_from_name(name@) {
                Some(t) => r == t,
                None => r matches TagType::Unknown(s) && s@ == name@,
            },
    {
        match SuperblockTag::from_str(name) {
            Some(t) => TagType::Superblock(t),
            None => match PartitionTag::from_str(name) {
                Some(t) => TagType::Partition(t),
                None => match TopologyTag::from_str(name) {
                    Some(t) => TagType::Topoligy(t),
                    None => TagType::Unknown(name.to_owned()),
                },
            },
        }
    }

    /// The name this tag type stands for, as a borrowed string.
    pub fn as_str(&self) -> (r: &str)
        ensures
            r@ == self.spec_name(),
    {
        match self {
            TagType::Superblock(t) => t.as_str(),
            TagType::Partition(t) => t.as_str(),
            TagType::Topoligy(t) => t.as_str(),
            TagType::Unknown(s) => s.as_str(),
        }
    }
}

/// Classifying the name of a known tag type gives that tag type back: the
/// name/classify pair is a round trip on every known tag.
pub proof fn lemma_tag_type_name_round_trip(t: TagType)
    requires
        !(t is Unknown),
    ensures
        TagType::spec_known_from_name(t.spec_name()) == Some(t),
{
    match t {
        TagType::Superblock(st) => {
            lemma_superblock_tag_name_round_trip(st);
        },
        TagType::Partition(pt) => {
            lemma_partition_tag_name_round_trip(pt);
            lemma_tag_families_disjoint(pt.spec_name());
        },
        TagType::Topoligy(tt) => {
            lemma_topology_tag_name_round_trip(tt);
            lemma_tag_families_disjoint(tt.spec_name());
        },
        TagType::Unknown(_) => {
        },
    }
}

impl From<SuperblockTag> for TagType {
    fn from(tag: SuperblockTag) -> (r: TagType) {
        TagType::Superblock(tag)
    }
}

impl vstd::std_specs::convert::FromSpecImpl<SuperblockTag> for TagType {
    open spec fn obeys_from_spec() -> bool {
        true
    }

    open spec fn from_spec(tag: SuperblockTag) -> TagType {
        TagType::Superblock(tag)
    }
}

impl From<PartitionTag> for TagType {
    fn from(tag: PartitionTag) -> (r: TagType) {
        TagType::Partition(tag)
    }
}

impl vstd::std_specs::convert::FromSpecImpl<PartitionTag> for TagType {
    open spec fn obeys_from_spec() -> bool {
        true
    }

    open spec fn from_spec(tag: PartitionTag) -> TagType {
        TagType::Partition(tag)
    }
}

impl From<TopologyTag> for TagType {
    fn from(tag: TopologyTag) -> (r: TagType) {
        TagType::Topoligy(tag)
    }
}

impl vstd::std_specs::convert::FromSpecImpl<TopologyTag> for TagType {
    open spec fn obeys_from_spec() -> bool {
        true
    }

    open spec fn from_spec(tag: TopologyTag) -> TagType {
        TagType::Topoligy(tag)
    }
}

/// A (type, value) string pair describing one probed attribute.
#[derive(Clone, Debug, Eq, PartialEq)]
pub struct Tag {
    name: TagType,
    value: String,
}

impl Tag {
    /// The tag type of this pair.
    pub closed spec fn spec_typ(self) -> TagType {
        self.name
    }

    /// The value of this pair.
    pub closed spec fn spec_value(self) -> Seq<char> {
        self.value@
    }

    /// Makes a tag from a type and a value.
    pub fn new(name: TagType, value: &str) -> (r: Self)
        ensures
            r.spec_typ() == name,
            r.spec_value() == value@,
    {
        Tag { name, value: value.to_owned() }
    }

    /// The tag type of this pair.
    pub fn typ(&self) -> (r: TagType)
        ensures
            r == self.spec_typ(),
    {
        self.name.clone()
    }

    /// The name of this pair's tag type, as an owned string.
    pub fn name(&self) -> (r: String)
        ensures
            r@ == self.spec_typ().spec_name(),
    {
        self.name.as_str().to_owned()
    }

    /// The value of this pair.
    pub fn value(&self) -> (r: &str)
        ensures
            r@ == self.spec_value(),
    {
        self.value.as_str()
    }
}

} // verus!
