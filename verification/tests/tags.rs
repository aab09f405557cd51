use blkid::part_table::PartitionTableType;
use blkid::tag::{PartitionTag, SuperblockTag, Tag, TagType, TopologyTag};

#[test]
fn superblock_tag_names_parse_to_their_variant() {
    let cases = [
        ("TYPE", SuperblockTag::Type),
        ("SEC_TYPE", SuperblockTag::SecType),
        ("LABEL", SuperblockTag::Label),
        ("LABEL_RAW", SuperblockTag::LabelRaw),
        ("UUID", SuperblockTag::Uuid),
        ("UUID_SUB", SuperblockTag::UuidSub),
        ("LOGUUID", SuperblockTag::Loguuid),
        ("UUID_RAW", SuperblockTag::UuidRaw),
        ("EXT_JOURNAL", SuperblockTag::ExtJournal),
        ("USAGE", SuperblockTag::Usage),
        ("VERSION", SuperblockTag::Version),
        ("MOUNT", SuperblockTag::Mount),
        ("SBMAGIC", SuperblockTag::Sbmagic),
        ("SBMAGIC_OFFSET", SuperblockTag::SbmagicOffset),
        ("FSSIZE", SuperblockTag::Fssize),
        ("SYSTEM_ID", SuperblockTag::SystemId),
        ("PUBLISHER_ID", SuperblockTag::PublisherId),
        ("APPLICATION_ID", SuperblockTag::ApplicationId),
        ("BOOT_SYSTEM_ID", SuperblockTag::BootSystemId),
        ("BLOCK_SIZE", SuperblockTag::BlockSize),
    ];
    for (name, tag) in cases {
        assert_eq!(SuperblockTag::from_str(name), Some(tag));
        assert_eq!(tag.as_str(), name);
    }
    assert_eq!(SuperblockTag::from_str("type"), None);
    assert_eq!(SuperblockTag::from_str("PTUUID"), None);
    assert_eq!(SuperblockTag::from_str(""), None);
}

#[test]
fn partition_tag_names_parse_to_their_variant() {
    let cases = [
        ("PTTYPE", PartitionTag::Pttype),
        ("PTUUID", PartitionTag::Ptuuid),
        ("PART_ENTRY_SCHEMA", PartitionTag::PartEntrySchema),
        ("PART_ENTRY_NAME", PartitionTag::PartEntryName),
        ("PART_ENTRY_UUID", PartitionTag::PartEntryUuid),
        ("PART_ENTRY_TYPE", PartitionTag::PartEntryType),
        ("PART_ENTRY_FLAGS", PartitionTag::PartEntryFlags),
        ("PART_ENTRY_NUMBER", PartitionTag::PartEntryNumber),
        ("PART_ENTRY_OFFSET", PartitionTag::PartEntryOffset),
        ("PART_ENTRY_SIZE", PartitionTag::PartEntrySize),
        ("PART_ENTRY_DISK", PartitionTag::PartEntryDisk),
    ];
    for (name, tag) in cases {
        assert_eq!(PartitionTag::from_str(name), Some(tag));
        assert_eq!(tag.as_str(), name);
    }
    assert_eq!(PartitionTag::from_str("TYPE"), None);
    assert_eq!(PartitionTag::from_str("PART_ENTRY"), None);
}

#[test]
fn topology_tag_names_parse_to_their_variant() {
    let cases = [
        ("LOGICAL_SECTOR_SIZE", TopologyTag::LogicalSectorSize),
        ("PHYSICAL_SECTOR_SIZE", TopologyTag::PhysicalSectorSize),
        ("MINIMUM_IO_SIZE", TopologyTag::MinimumIoSize),
        ("OPTIOMAL_IO_SIZE", TopologyTag::OptiomalIoSize),
        ("ALIGNMENT_OFFSET", TopologyTag::AlignmentOffset),
    ];
    for (name, tag) in cases {
        assert_eq!(TopologyTag::from_str(name), Some(tag));
        assert_eq!(tag.as_str(), name);
    }
    assert_eq!(TopologyTag::from_str("OPTIMAL_IO_SIZE"), None);
}

#[test]
fn tag_type_classification_tries_the_families_in_order() {
    assert_eq!(
        TagType::from_name("TYPE"),
        TagType::Superblock(SuperblockTag::Type)
    );
    assert_eq!(
        TagType::from_name("PTUUID"),
        TagType::Partition(PartitionTag::Ptuuid)
    );
    assert_eq!(
        TagType::from_name("LOGICAL_SECTOR_SIZE"),
        TagType::Topoligy(TopologyTag::LogicalSectorSize)
    );
    assert_eq!(
        TagType::from_name("SOMETHING_ELSE"),
        TagType::Unknown("SOMETHING_ELSE".to_owned())
    );
    assert_eq!(TagType::from_name(""), TagType::Unknown(String::new()));
}

#[test]
fn tag_type_round_trips_through_its_name() {
    let known = [
        TagType::Superblock(SuperblockTag::Uuid),
        TagType::Partition(PartitionTag::PartEntrySize),
        TagType::Topoligy(TopologyTag::AlignmentOffset),
    ];
    for tag in known {
        assert_eq!(TagType::from_name(tag.as_str()), tag);
    }
    let unknown = TagType::Unknown("EXTRA".to_owned());
    assert_eq!(unknown.as_str(), "EXTRA");
    assert_eq!(TagType::from_name(unknown.as_str()), unknown);
}

#[test]
fn tag_type_from_wraps_the_family_tags() {
    assert_eq!(
        TagType::from(SuperblockTag::Label),
        TagType::Superblock(SuperblockTag::Label)
    );
    assert_eq!(
        TagType::from(PartitionTag::Pttype),
        TagType::Partition(PartitionTag::Pttype)
    );
    assert_eq!(
        TagType::from(TopologyTag::MinimumIoSize),
        TagType::Topoligy(TopologyTag::MinimumIoSize)
    );
}

#[test]
fn tag_keeps_its_type_and_value() {
    let tag = Tag::new(TagType::Superblock(SuperblockTag::Label), "rootfs");
    assert_eq!(tag.typ(), TagType::Superblock(SuperblockTag::Label));
    assert_eq!(tag.name(), "LABEL".to_owned());
    assert_eq!(tag.value(), "rootfs");

    let unknown = Tag::new(TagType::Unknown("MYTAG".to_owned()), "v");
    assert_eq!(unknown.name(), "MYTAG".to_owned());
    assert_eq!(unknown.value(), "v");
}

#[test]
fn partition_table_type_names_parse_to_their_variant() {
    let cases = [
        ("aix", PartitionTableType::Aix),
        ("atari", PartitionTableType::Atari),
        ("bsd", PartitionTableType::Bsd),
        ("dos", PartitionTableType::Dos),
        ("gpt", PartitionTableType::Gpt),
        ("mac", PartitionTableType::Mac),
        ("minix", PartitionTableType::Minix),
        ("sgi", PartitionTableType::Sgi),
        ("solaris", PartitionTableType::Solaris),
        ("sun", PartitionTableType::Sun),
        ("ultrix", PartitionTableType::Ultrix),
        ("unixware", PartitionTableType::Unixware),
    ];
    for (name, typ) in cases {
        assert_eq!(PartitionTableType::from_str(name), typ);
        assert_eq!(typ.as_str(), name);
    }
}

#[test]
fn unknown_partition_table_names_are_kept_verbatim() {
    assert_eq!(
        PartitionTableType::from_str("GPT"),
        PartitionTableType::Unknown("GPT".to_owned())
    );
    assert_eq!(
        PartitionTableType::from_str("something"),
        PartitionTableType::Unknown("something".to_owned())
    );
    let unknown = PartitionTableType::Unknown("zonda".to_owned());
    assert_eq!(unknown.as_str(), "zonda");
    assert_eq!(PartitionTableType::from_str(unknown.as_str()), unknown);
}
